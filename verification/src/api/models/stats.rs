//! Protection and traffic statistics of a domain.
use crate::api::request_desc::{path_with_id_text, HttpMethod, RequestDesc};
use crate::text::decimal;
use vstd::prelude::*;

verus! {

/// Request counts of a period, by status class.
#[derive(Clone, Debug)]
pub struct Totals {
    pub requests: u64,
    pub status_2xx: u64,
    pub status_3xx: u64,
    pub status_4xx: u64,
    pub status_5xx: u64,
}

/// Traffic summary of a domain.
#[derive(Clone, Debug)]
pub struct SummaryStats {
    pub domain: String,
    pub generated_at: String,
    pub range_seconds: u64,
    pub step_seconds: u32,
    pub totals: Totals,
}

/// `GET domains/{id}/protection/bans?range={range}`: the active bans (free-form JSON entries, shown by the program).
pub struct StatBans;

impl RequestDesc for StatBans {
    type Params = (i64, String);
    type Request = ();
    type Response = ();

    fn get_url(params: (i64, String)) -> (r: String)
        ensures
            r@ == "domains/"@ + decimal(params.0 as int) + "/protection/bans?range="@ + params.1@,
    {
        let r = path_with_id_text("domains/", params.0, "/protection/bans?range=", params.1.as_str(), "");
        proof {
            reveal_strlit("");
        }
        assert(r@ =~= "domains/"@ + decimal(params.0 as int) + "/protection/bans?range="@ + params.1@);
        r
    }

    fn method() -> (r: HttpMethod)
        ensures
            r == HttpMethod::Get,
    {
        HttpMethod::Get
    }
}

/// `GET domains/{id}/stats?range={range}&step=2h`: traffic summary.
pub struct StatDomains;

impl RequestDesc for StatDomains {
    type Params = (i64, String);
    type Request = ();
    type Response = SummaryStats;

    fn get_url(params: (i64, String)) -> (r: String)
        ensures
            r@ == "domains/"@ + decimal(params.0 as int) + "/stats?range="@ + params.1@ + "&step=2h"@,
    {
        path_with_id_text("domains/", params.0, "/stats?range=", params.1.as_str(), "&step=2h")
    }

    fn method() -> (r: HttpMethod)
        ensures
            r == HttpMethod::Get,
    {
        HttpMethod::Get
    }
}
} // verus!
