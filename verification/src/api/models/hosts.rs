//! Hostnames of domains connected by DNS records, without delegating the
//! nameservers (`/external-hosts`).
use crate::api::request_desc::{path_with_id, HttpMethod, RequestDesc};
use crate::api::table::{headers_view, row_view, rows_view, DisplayTable};
use crate::i18n::{message, tr, Lang, M};
use crate::text::{decimal, i64_to_string, owned};
use vstd::prelude::*;

verus! {

/// A DNS record the user has to create.
#[derive(Clone, Debug)]
pub struct HostRecord {
    pub name: String,
    pub rr_type: String,
    pub value: String,
}

/// The records connecting a hostname.
#[derive(Clone, Debug)]
pub struct HostRecords {
    pub target: String,
    /// `_acme-challenge.<hostname>` CNAME: proves ownership and renews the certificate.
    pub ownership: HostRecord,
    /// The hostname itself: CNAME, or ALIAS/ANAME/flattening at the zone apex.
    pub traffic: HostRecord,
}

/// A connected hostname.
#[derive(Clone, Debug)]
pub struct ExternalHost {
    pub id: i64,
    pub domain_id: i64,
    pub domain_name: String,
    pub hostname: String,
    pub mode: String,
    pub status: String,
    pub records: HostRecords,
    pub certificate_status: String,
    pub certificate_error: String,
    pub traffic_ok: bool,
    pub removal_at: Option<String>,
}

/// The table row of a host: id, hostname, status, mode, certificate status,
/// whether traffic arrives (yes or no) and the target.
pub open spec fn host_row_spec(h: ExternalHost, lang: Lang) -> Seq<Seq<char>> {
    seq![
        decimal(h.id as int),
        h.hostname@,
        h.status@,
        h.mode@,
        h.certificate_status@,
        if h.traffic_ok { message(M::Yes, lang) } else { message(M::No, lang) },
        h.records.target@,
    ]
}

/// `host_row_spec` computed.
pub fn host_row(h: &ExternalHost, lang: Lang) -> (r: Vec<String>)
    ensures
        row_view(r) == host_row_spec(*h, lang),
{
    let traffic = if h.traffic_ok {
        owned(tr(lang, M::Yes))
    } else {
        owned(tr(lang, M::No))
    };
    let r = vec![
        i64_to_string(h.id),
        h.hostname.clone(),
        h.status.clone(),
        h.mode.clone(),
        h.certificate_status.clone(),
        traffic,
        h.records.target.clone(),
    ];
    assert(row_view(r) =~= host_row_spec(*h, lang));
    r
}

/// All the rows of a list of hosts.
pub fn host_rows(hosts: &Vec<ExternalHost>, lang: Lang) -> (r: Vec<Vec<String>>)
    ensures
        rows_view(r@) == hosts@.map_values(|h: ExternalHost| host_row_spec(h, lang)),
{
    let mut out: Vec<Vec<String>> = Vec::new();
    let mut i: usize = 0;
    while i < hosts.len()
        invariant
            i <= hosts.len(),
            rows_view(out@) == hosts@.take(i as int).map_values(|h: ExternalHost| host_row_spec(h, lang)),
        decreases hosts.len() - i,
    {
        let ghost before = out@;
        let row = host_row(&hosts[i], lang);
        out.push(row);
        proof {
            assert(rows_view(out@) =~= rows_view(before).push(row_view(row)));
            assert(hosts@.take(i + 1).map_values(|h: ExternalHost| host_row_spec(h, lang)) =~= hosts@.take(
                i as int,
            ).map_values(|h: ExternalHost| host_row_spec(h, lang)).push(host_row_spec(hosts@[i as int], lang)));
        }
        i += 1;
    }
    assert(hosts@.take(hosts.len() as int) =~= hosts@);
    out
}

/// A list of connected hostnames.
#[derive(Clone, Debug)]
pub struct ExternalHostList(pub Vec<ExternalHost>);

/// A record as a table row: name, type, value.
pub open spec fn record_row(r: HostRecord) -> Seq<Seq<char>> {
    seq![r.name@, r.rr_type@, r.value@]
}

impl DisplayTable for HostRecords {
    fn headers(&self, lang: Lang) -> (r: Vec<&'static str>)
        ensures
            headers_view(r@) == seq![message(M::HName, lang), message(M::HType, lang), message(M::HValue, lang)],
    {
        let r = vec![tr(lang, M::HName), tr(lang, M::HType), tr(lang, M::HValue)];
        assert(headers_view(r@) =~= seq![message(M::HName, lang), message(M::HType, lang), message(M::HValue, lang)]);
        r
    }

    fn rows(&self, lang: Lang) -> (r: Vec<Vec<String>>)
        ensures
            rows_view(r@) == seq![record_row(self.ownership), record_row(self.traffic)],
    {
        let a = vec![self.ownership.name.clone(), self.ownership.rr_type.clone(), self.ownership.value.clone()];
        let b = vec![self.traffic.name.clone(), self.traffic.rr_type.clone(), self.traffic.value.clone()];
        assert(row_view(a) =~= record_row(self.ownership));
        assert(row_view(b) =~= record_row(self.traffic));
        let r = vec![a, b];
        assert(rows_view(r@) =~= seq![record_row(self.ownership), record_row(self.traffic)]);
        r
    }
}

/// Body of `HostNew`.
#[derive(Clone, Debug)]
pub struct HostNewReq {
    pub domain_id: i64,
    pub hostname: String,
    pub mode: String,
    pub origin: String,
    pub origin_ssl: bool,
    pub redirect_target: String,
}

/// The outcome of a verification check.
#[derive(Clone, Debug)]
pub struct HostCheck {
    pub code: String,
    pub detail: String,
}

/// Answer of `HostVerify`: the check made, and the host as it now stands.
#[derive(Clone, Debug)]
pub struct HostVerifyRes {
    pub check: Option<HostCheck>,
    pub host: ExternalHost,
}

/// `GET external-hosts`, optionally of one domain.
pub struct Hosts;

impl RequestDesc for Hosts {
    type Params = Option<i64>;
    type Request = ();
    type Response = ExternalHostList;

    fn get_url(domain_id: Option<i64>) -> (r: String)
        ensures
            r@ == match domain_id {
                Some(id) => "external-hosts?domain_id="@ + decimal(id as int),
                None => "external-hosts"@,
            },
    {
        match domain_id {
            Some(id) => {
                let r = path_with_id("external-hosts?domain_id=", id, "");
                proof {
                    reveal_strlit("");
                }
                assert(r@ =~= "external-hosts?domain_id="@ + decimal(id as int));
                r
            },
            None => owned("external-hosts"),
        }
    }

    fn method() -> (r: HttpMethod)
        ensures
            r == HttpMethod::Get,
    {
        HttpMethod::Get
    }
}

/// `POST external-hosts`: connect a hostname.
pub struct HostNew;

impl RequestDesc for HostNew {
    type Params = ();
    type Request = HostNewReq;
    type Response = ExternalHost;

    fn get_url(_p: ()) -> (r: String)
        ensures
            r@ == "external-hosts"@,
    {
        owned("external-hosts")
    }

    fn method() -> (r: HttpMethod)
        ensures
            r == HttpMethod::Post,
    {
        HttpMethod::Post
    }
}

/// `POST external-hosts/{id}/verify`: check the ownership record and issue the certificate.
pub struct HostVerify;

impl RequestDesc for HostVerify {
    type Params = i64;
    type Request = ();
    type Response = HostVerifyRes;

    fn get_url(id: i64) -> (r: String)
        ensures
            r@ == "external-hosts/"@ + decimal(id as int) + "/verify"@,
    {
        path_with_id("external-hosts/", id, "/verify")
    }

    fn method() -> (r: HttpMethod)
        ensures
            r == HttpMethod::Post,
    {
        HttpMethod::Post
    }
}

/// `DELETE external-hosts/{id}`.
pub struct HostDelete;

impl RequestDesc for HostDelete {
    type Params = i64;
    type Request = ();
    type Response = ();

    fn get_url(id: i64) -> (r: String)
        ensures
            r@ == "external-hosts/"@ + decimal(id as int),
    {
        let r = path_with_id("external-hosts/", id, "");
        proof {
            reveal_strlit("");
        }
        assert(r@ =~= "external-hosts/"@ + decimal(id as int));
        r
    }

    fn method() -> (r: HttpMethod)
        ensures
            r == HttpMethod::Delete,
    {
        HttpMethod::Delete
    }
}
} // verus!
