//! Hostnames connected by DNS records, and dynamic DNS hostnames: finding one by
//! name, the creation requests, and the outcome of a verification.
use crate::api::models::dyndns::{DynDnsHost, DynDnsNewReq};
use crate::api::models::hosts::{ExternalHost, HostCheck, HostNewReq};
use crate::text::{owned, str_eq};
use vstd::prelude::*;

verus! {

/// How a connected hostname serves traffic.
#[derive(Clone, Copy, Debug, PartialEq, Eq)]
pub enum HostMode {
    Proxy,
    Static,
    Redirect,
}

impl HostMode {
    /// The API name of the mode.
    pub open spec fn api_name(self) -> Seq<char> {
        match self {
            HostMode::Proxy => "proxy"@,
            HostMode::Static => "static"@,
            HostMode::Redirect => "redirect"@,
        }
    }

    /// `api_name` as text.
    pub fn as_api(self) -> (r: &'static str)
        ensures
            r@ == self.api_name(),
    {
        match self {
            HostMode::Proxy => "proxy",
            HostMode::Static => "static",
            HostMode::Redirect => "redirect",
        }
    }
}

/// The request connecting `hostname` on domain `domain_id`: the origin defaults
/// to empty and is reached over TLS unless `origin_http`; the redirect target
/// defaults to empty.
pub fn host_new_req(
    domain_id: i64,
    hostname: String,
    mode: HostMode,
    origin: Option<String>,
    origin_http: bool,
    redirect_target: Option<String>,
) -> (r: HostNewReq)
    ensures
        r.domain_id == domain_id,
        r.hostname == hostname,
        r.mode@ == mode.api_name(),
        r.origin@ == match origin {
            Some(o) => o@,
            None => Seq::empty(),
        },
        r.origin_ssl == !origin_http,
        r.redirect_target@ == match redirect_target {
            Some(t) => t@,
            None => Seq::empty(),
        },
{
    HostNewReq {
        domain_id,
        hostname,
        mode: owned(mode.as_api()),
        origin: match origin {
            Some(o) => o,
            None => String::new(),
        },
        origin_ssl: !origin_http,
        redirect_target: match redirect_target {
            Some(t) => t,
            None => String::new(),
        },
    }
}

/// The first connected (not removed) host whose hostname is `needle`.
pub fn find_host(hosts: &Vec<ExternalHost>, needle: &str) -> (r: Option<usize>)
    ensures
        match r {
            Some(i) => i < hosts@.len() && hosts@[i as int].hostname@ == needle@ && hosts@[i as int].status@
                != "removed"@ && forall|j: int|
                0 <= j < i ==> !((#[trigger] hosts@[j]).hostname@ == needle@ && hosts@[j].status@ != "removed"@),
            None => forall|j: int|
                0 <= j < hosts@.len() ==> !((#[trigger] hosts@[j]).hostname@ == needle@ && hosts@[j].status@
                    != "removed"@),
        },
{
    let mut i: usize = 0;
    while i < hosts.len()
        invariant
            i <= hosts.len(),
            forall|j: int|
                0 <= j < i ==> !((#[trigger] hosts@[j]).hostname@ == needle@ && hosts@[j].status@ != "removed"@),
        decreases hosts.len() - i,
    {
        if str_eq(hosts[i].hostname.as_str(), needle) && !str_eq(hosts[i].status.as_str(), "removed") {
            return Some(i);
        }
        i += 1;
    }
    None
}

/// What a verification found.
#[derive(Clone, Debug)]
pub enum VerifyOutcome {
    /// Ownership confirmed; whether the certificate is already issued (then the
    /// hostname itself can be pointed at the target).
    Verified { certificate_issued: bool },
    /// The ownership record holds something else; the check's detail.
    Mismatch(String),
    /// The check itself failed.
    CheckError,
    /// The ownership record is missing (or no check was made).
    Missing,
}

/// The outcome of `HostVerify` from its check code: `ok`, `mismatch`, `error`, or
/// anything else.
pub fn verify_outcome(check: &Option<HostCheck>, host: &ExternalHost) -> (r: VerifyOutcome)
    ensures
        match check {
            Some(c) => if c.code@ == "ok"@ {
                r matches VerifyOutcome::Verified { certificate_issued } && certificate_issued == (
                host.certificate_status@ == "issued"@)
            } else if c.code@ == "mismatch"@ {
                r matches VerifyOutcome::Mismatch(d) && d@ == c.detail@
            } else if c.code@ == "error"@ {
                r is CheckError
            } else {
                r is Missing
            },
            None => r is Missing,
        },
{
    match check {
        Some(c) => if str_eq(c.code.as_str(), "ok") {
            VerifyOutcome::Verified {
                certificate_issued: str_eq(host.certificate_status.as_str(), "issued"),
            }
        } else if str_eq(c.code.as_str(), "mismatch") {
            VerifyOutcome::Mismatch(c.detail.clone())
        } else if str_eq(c.code.as_str(), "error") {
            VerifyOutcome::CheckError
        } else {
            VerifyOutcome::Missing
        },
        None => VerifyOutcome::Missing,
    }
}

/// The TTL of a new dynamic DNS hostname unless given: a dynamic address lives
/// for minutes.
pub const DEFAULT_TTL: i64 = 60;

/// The request creating a dynamic DNS hostname; the comment defaults to empty.
pub fn dyndns_new_req(domain_id: i64, hostname: String, ttl: i64, comment: Option<String>) -> (r: DynDnsNewReq)
    ensures
        r.domain_id == domain_id,
        r.hostname == hostname,
        r.ttl == ttl,
        r.comment@ == match comment {
            Some(c) => c@,
            None => Seq::empty(),
        },
{
    DynDnsNewReq {
        domain_id,
        hostname,
        ttl,
        comment: match comment {
            Some(c) => c,
            None => String::new(),
        },
    }
}

/// The first dynamic DNS hostname equal to `needle`.
pub fn find_dyndns(hosts: &Vec<DynDnsHost>, needle: &str) -> (r: Option<usize>)
    ensures
        match r {
            Some(i) => i < hosts@.len() && hosts@[i as int].hostname@ == needle@ && forall|j: int|
                0 <= j < i ==> (#[trigger] hosts@[j]).hostname@ != needle@,
            None => forall|j: int| 0 <= j < hosts@.len() ==> (#[trigger] hosts@[j]).hostname@ != needle@,
        },
{
    let mut i: usize = 0;
    while i < hosts.len()
        invariant
            i <= hosts.len(),
            forall|j: int| 0 <= j < i ==> (#[trigger] hosts@[j]).hostname@ != needle@,
        decreases hosts.len() - i,
    {
        if str_eq(hosts[i].hostname.as_str(), needle) {
            return Some(i);
        }
        i += 1;
    }
    None
}

/// The API names of the host modes: the lowercase name of each variant, all
/// three distinct.
pub proof fn law_host_mode_names()
    ensures
        HostMode::Proxy.api_name() == "proxy"@,
        HostMode::Static.api_name() == "static"@,
        HostMode::Redirect.api_name() == "redirect"@,
        HostMode::Proxy.api_name() != HostMode::Static.api_name(),
        HostMode::Proxy.api_name() != HostMode::Redirect.api_name(),
        HostMode::Static.api_name() != HostMode::Redirect.api_name(),
{
    reveal_strlit("proxy");
    reveal_strlit("static");
    reveal_strlit("redirect");
}

} // verus!
