//! Dynamic DNS hostnames (`/dyndns/hosts`).
//!
//! The update token itself is returned exactly once, when the hostname is created
//! and when the token is rotated; afterwards only its prefix is available.
use crate::api::request_desc::{path_with_id, HttpMethod, RequestDesc};
use crate::api::table::row_view;
use crate::text::{chars_of, decimal, i64_to_string, join, join_chars, owned, string_of};
use vstd::prelude::*;

verus! {

/// A dynamic DNS hostname.
#[derive(Clone, Debug)]
pub struct DynDnsHost {
    pub id: i64,
    pub hostname: String,
    pub enabled: bool,
    pub ttl: i64,
    pub comment: String,
    pub token_prefix: String,
    pub last_ipv4: Option<String>,
    pub last_ipv6: Option<String>,
    pub last_update_at: Option<String>,
    pub updates_count: i64,
    /// Present only in the response that issued it.
    pub token: Option<String>,
}

/// The last addresses of a host, those it has, IPv4 first.
pub open spec fn addresses_of(h: DynDnsHost) -> Seq<Seq<char>> {
    let v4: Seq<Seq<char>> = match h.last_ipv4 {
        Some(a) => seq![a@],
        None => Seq::empty(),
    };
    let v6: Seq<Seq<char>> = match h.last_ipv6 {
        Some(a) => seq![a@],
        None => Seq::empty(),
    };
    v4 + v6
}

/// The table row of a host: id, hostname, its addresses joined by `", "`, TTL and
/// the time of the last update (empty when none).
pub open spec fn dyndns_row_spec(h: DynDnsHost) -> Seq<Seq<char>> {
    seq![
        decimal(h.id as int),
        h.hostname@,
        join(addresses_of(h), ", "@),
        decimal(h.ttl as int),
        match h.last_update_at {
            Some(t) => t@,
            None => Seq::empty(),
        },
    ]
}

/// `dyndns_row_spec` computed.
pub fn dyndns_row(h: &DynDnsHost) -> (r: Vec<String>)
    ensures
        row_view(r) == dyndns_row_spec(*h),
{
    let mut addrs: Vec<Vec<char>> = Vec::new();
    match &h.last_ipv4 {
        Some(a) => addrs.push(chars_of(a.as_str())),
        None => {},
    }
    match &h.last_ipv6 {
        Some(a) => addrs.push(chars_of(a.as_str())),
        None => {},
    }
    assert(addrs@.map_values(|w: Vec<char>| w@) =~= addresses_of(*h));
    let joined = string_of(&join_chars(&addrs, &chars_of(", ")));
    let last = match &h.last_update_at {
        Some(t) => t.clone(),
        None => String::new(),
    };
    let r = vec![i64_to_string(h.id), h.hostname.clone(), joined, i64_to_string(h.ttl), last];
    assert(row_view(r) =~= dyndns_row_spec(*h));
    r
}

/// The row shown when a response carries a freshly issued token: hostname and
/// token, instead of the host's state.
pub fn dyndns_token_row(h: &DynDnsHost) -> (r: Option<Vec<String>>)
    ensures
        match h.token {
            Some(t) => r matches Some(row) && row_view(row) == seq![h.hostname@, t@],
            None => r is None,
        },
{
    match &h.token {
        Some(t) => {
            let row = vec![h.hostname.clone(), t.clone()];
            assert(row_view(row) =~= seq![h.hostname@, t@]);
            Some(row)
        },
        None => None,
    }
}

/// A list of dynamic DNS hostnames.
#[derive(Clone, Debug)]
pub struct DynDnsHostList {
    pub results: Vec<DynDnsHost>,
}

/// Body of `DynDnsNew`.
#[derive(Clone, Debug)]
pub struct DynDnsNewReq {
    pub domain_id: i64,
    pub hostname: String,
    pub ttl: i64,
    pub comment: String,
}

/// `GET dyndns/hosts`, optionally of one domain.
pub struct DynDnsHosts;

impl RequestDesc for DynDnsHosts {
    type Params = Option<i64>;
    type Request = ();
    type Response = DynDnsHostList;

    fn get_url(domain_id: Option<i64>) -> (r: String)
        ensures
            r@ == match domain_id {
                Some(id) => "dyndns/hosts?domain="@ + decimal(id as int),
                None => "dyndns/hosts"@,
            },
    {
        match domain_id {
            Some(id) => {
                let r = path_with_id("dyndns/hosts?domain=", id, "");
                proof {
                    reveal_strlit("");
                }
                assert(r@ =~= "dyndns/hosts?domain="@ + decimal(id as int));
                r
            },
            None => owned("dyndns/hosts"),
        }
    }

    fn method() -> (r: HttpMethod)
        ensures
            r == HttpMethod::Get,
    {
        HttpMethod::Get
    }
}

/// `POST dyndns/hosts`: create a hostname; the answer carries its token.
pub struct DynDnsNew;

impl RequestDesc for DynDnsNew {
    type Params = ();
    type Request = DynDnsNewReq;
    type Response = DynDnsHost;

    fn get_url(_p: ()) -> (r: String)
        ensures
            r@ == "dyndns/hosts"@,
    {
        owned("dyndns/hosts")
    }

    fn method() -> (r: HttpMethod)
        ensures
            r == HttpMethod::Post,
    {
        HttpMethod::Post
    }
}

/// `POST dyndns/hosts/{id}/rotate-token`: issue a new token.
pub struct DynDnsRotate;

impl RequestDesc for DynDnsRotate {
    type Params = i64;
    type Request = ();
    type Response = DynDnsHost;

    fn get_url(id: i64) -> (r: String)
        ensures
            r@ == "dyndns/hosts/"@ + decimal(id as int) + "/rotate-token"@,
    {
        path_with_id("dyndns/hosts/", id, "/rotate-token")
    }

    fn method() -> (r: HttpMethod)
        ensures
            r == HttpMethod::Post,
    {
        HttpMethod::Post
    }
}

/// `DELETE dyndns/hosts/{id}`.
pub struct DynDnsDelete;

impl RequestDesc for DynDnsDelete {
    type Params = i64;
    type Request = ();
    type Response = ();

    fn get_url(id: i64) -> (r: String)
        ensures
            r@ == "dyndns/hosts/"@ + decimal(id as int),
    {
        let r = path_with_id("dyndns/hosts/", id, "");
        proof {
            reveal_strlit("");
        }
        assert(r@ =~= "dyndns/hosts/"@ + decimal(id as int));
        r
    }

    fn method() -> (r: HttpMethod)
        ensures
            r == HttpMethod::Delete,
    {
        HttpMethod::Delete
    }
}
} // verus!
