//! Domains (`/domains`): listing, creation, deletion, delegation checks.
use crate::api::request_desc::{path_with_id, path_with_text, HttpMethod, RequestDesc};
use crate::api::table::{headers_view, row_view, rows_view, DisplayTable};
use crate::i18n::{message, tr, Lang, M};
use crate::text::{decimal, i64_to_string, owned};
use vstd::prelude::*;

verus! {

/// The tariff a domain is on.
#[derive(Clone, Debug)]
pub struct Tariff {
    pub name: String,
}

/// Body of `DomainAdd`.
#[derive(Clone, Debug)]
pub struct DomainAddReq {
    pub name: String,
    pub import_method: String,
}

/// A domain as the API describes it.
#[derive(Clone, Debug)]
pub struct DomainInner {
    pub id: i64,
    pub name: String,
    pub delegated: Option<bool>,
    pub current_tariff: Option<Tariff>,
}

/// The headers of the domain table.
pub fn domain_headers(lang: Lang) -> (r: Vec<&'static str>)
    ensures
        headers_view(r@) == seq![
            message(M::HId, lang),
            message(M::HDomain, lang),
            message(M::HDelegated, lang),
            message(M::HTariff, lang),
        ],
{
    let r = vec![tr(lang, M::HId), tr(lang, M::HDomain), tr(lang, M::HDelegated), tr(lang, M::HTariff)];
    assert(headers_view(r@) =~= seq![
        message(M::HId, lang),
        message(M::HDomain, lang),
        message(M::HDelegated, lang),
        message(M::HTariff, lang),
    ]);
    r
}

/// The table row of a domain: id, name, delegation (yes, no, or a dash when
/// unknown) and tariff (a dash when none).
pub open spec fn domain_row(d: DomainInner, lang: Lang) -> Seq<Seq<char>> {
    seq![
        decimal(d.id as int),
        d.name@,
        match d.delegated {
            Some(true) => message(M::Yes, lang),
            Some(false) => message(M::No, lang),
            None => message(M::Dash, lang),
        },
        match d.current_tariff {
            Some(t) => t.name@,
            None => message(M::Dash, lang),
        },
    ]
}

fn domain_row_exec(d: &DomainInner, lang: Lang) -> (r: Vec<String>)
    ensures
        row_view(r) == domain_row(*d, lang),
{
    let delegated = match d.delegated {
        Some(true) => owned(tr(lang, M::Yes)),
        Some(false) => owned(tr(lang, M::No)),
        None => owned(tr(lang, M::Dash)),
    };
    let tariff = match &d.current_tariff {
        Some(t) => t.name.clone(),
        None => owned(tr(lang, M::Dash)),
    };
    let r = vec![i64_to_string(d.id), d.name.clone(), delegated, tariff];
    assert(row_view(r) =~= domain_row(*d, lang));
    r
}

impl DisplayTable for DomainInner {
    fn headers(&self, lang: Lang) -> (r: Vec<&'static str>)
        ensures
            headers_view(r@) == seq![
                message(M::HId, lang),
                message(M::HDomain, lang),
                message(M::HDelegated, lang),
                message(M::HTariff, lang),
            ],
    {
        domain_headers(lang)
    }

    fn rows(&self, lang: Lang) -> (r: Vec<Vec<String>>)
        ensures
            rows_view(r@) == seq![domain_row(*self, lang)],
    {
        let r = vec![domain_row_exec(self, lang)];
        assert(rows_view(r@) =~= seq![domain_row(*self, lang)]);
        r
    }
}

/// A list of domains.
#[derive(Clone, Debug)]
pub struct DomainList {
    pub results: Vec<DomainInner>,
}

impl DisplayTable for DomainList {
    fn headers(&self, lang: Lang) -> (r: Vec<&'static str>)
        ensures
            headers_view(r@) == seq![
                message(M::HId, lang),
                message(M::HDomain, lang),
                message(M::HDelegated, lang),
                message(M::HTariff, lang),
            ],
    {
        domain_headers(lang)
    }

    fn rows(&self, lang: Lang) -> (r: Vec<Vec<String>>)
        ensures
            rows_view(r@) == self.results@.map_values(|d: DomainInner| domain_row(d, lang)),
    {
        let mut out: Vec<Vec<String>> = Vec::new();
        let mut i: usize = 0;
        while i < self.results.len()
            invariant
                i <= self.results.len(),
                rows_view(out@) == self.results@.take(i as int).map_values(|d: DomainInner| domain_row(d, lang)),
            decreases self.results.len() - i,
        {
            let ghost before = out@;
            let row = domain_row_exec(&self.results[i], lang);
            out.push(row);
            proof {
                assert(rows_view(out@) =~= rows_view(before).push(row_view(row)));
                assert(self.results@.take(i + 1).map_values(|d: DomainInner| domain_row(d, lang)) =~= self.results@.take(
                    i as int,
                ).map_values(|d: DomainInner| domain_row(d, lang)).push(domain_row(self.results@[i as int], lang)));
            }
            i += 1;
        }
        assert(self.results@.take(self.results.len() as int) =~= self.results@);
        out
    }
}

/// Result of `POST domains/{id}/check-delegation`. The check is strict: the NS
/// set at the parent zone must match the WebShield set exactly, so `missing_ns`
/// and `extra_ns` explain why `delegated` is false.
#[derive(Clone, Debug)]
pub struct DelegationCheck {
    pub delegated: Option<bool>,
    pub checked_at: Option<String>,
    pub current_ns: Vec<String>,
    pub missing_ns: Vec<String>,
    pub extra_ns: Vec<String>,
    pub detail: Option<String>,
}

/// `POST domains`: add a domain.
pub struct DomainAdd;

impl RequestDesc for DomainAdd {
    type Params = ();
    type Request = DomainAddReq;
    type Response = DomainInner;

    fn get_url(_p: ()) -> (r: String)
        ensures
            r@ == "domains"@,
    {
        owned("domains")
    }

    fn method() -> (r: HttpMethod)
        ensures
            r == HttpMethod::Post,
    {
        HttpMethod::Post
    }
}

/// `GET domains?name={name}`: the domains with that name.
pub struct ResolveDomains;

impl RequestDesc for ResolveDomains {
    type Params = String;
    type Request = ();
    type Response = DomainList;

    fn get_url(text: String) -> (r: String)
        ensures
            r@ == "domains?name="@ + text@,
    {
        let r = path_with_text("domains?name=", text.as_str(), "");
        proof {
            reveal_strlit("");
        }
        assert(r@ =~= "domains?name="@ + text@);
        r
    }

    fn method() -> (r: HttpMethod)
        ensures
            r == HttpMethod::Get,
    {
        HttpMethod::Get
    }
}

/// `GET domains?page={n}`: one page of the domain list.
pub struct Domains;

impl RequestDesc for Domains {
    type Params = u32;
    type Request = ();
    type Response = DomainList;

    fn get_url(page: u32) -> (r: String)
        ensures
            r@ == "domains?page="@ + decimal(page as int),
    {
        let r = path_with_id("domains?page=", page as i64, "");
        proof {
            reveal_strlit("");
        }
        assert(r@ =~= "domains?page="@ + decimal(page as int));
        r
    }

    fn method() -> (r: HttpMethod)
        ensures
            r == HttpMethod::Get,
    {
        HttpMethod::Get
    }
}

/// `DELETE domains/{id}`.
pub struct DomainDelete;

impl RequestDesc for DomainDelete {
    type Params = i64;
    type Request = ();
    type Response = ();

    fn get_url(id: i64) -> (r: String)
        ensures
            r@ == "domains/"@ + decimal(id as int),
    {
        let r = path_with_id("domains/", id, "");
        proof {
            reveal_strlit("");
        }
        assert(r@ =~= "domains/"@ + decimal(id as int));
        r
    }

    fn method() -> (r: HttpMethod)
        ensures
            r == HttpMethod::Delete,
    {
        HttpMethod::Delete
    }
}

/// `POST domains/{id}/check-delegation`: check the NS delegation now.
pub struct DomainCheckDelegation;

impl RequestDesc for DomainCheckDelegation {
    type Params = i64;
    type Request = ();
    type Response = DelegationCheck;

    fn get_url(id: i64) -> (r: String)
        ensures
            r@ == "domains/"@ + decimal(id as int) + "/check-delegation"@,
    {
        path_with_id("domains/", id, "/check-delegation")
    }

    fn method() -> (r: HttpMethod)
        ensures
            r == HttpMethod::Post,
    {
        HttpMethod::Post
    }
}
} // verus!
