//! DNS records (`/domains/{id}/records`) and DNSSEC (`/domains/{id}/dnssec`).
use crate::api::request_desc::{path_with_id, HttpMethod, RequestDesc};
use crate::api::table::{headers_view, row_view, rows_view, DisplayTable};
use crate::i18n::{message, tr, Lang, M};
use crate::text::{chars_of, decimal, i64_to_string, join, join_chars, string_of};
use vstd::prelude::*;

verus! {

/// One value of a record set.
#[derive(Clone, Debug, PartialEq, Eq)]
pub struct RecordItem {
    pub content: String,
    pub disabled: bool,
}

/// The `changetype` of a record set in a write request.
#[derive(Clone, Copy, Debug, PartialEq, Eq)]
pub enum ChangeType {
    Delete,
}

/// A set of records sharing one name and type (rrset).
#[derive(Clone, Debug, PartialEq, Eq)]
pub struct RRSet {
    pub name: String,
    pub rr_type: String,
    pub ttl: Option<i64>,
    pub records: Vec<RecordItem>,
    pub proxied: bool,
    pub change_type: Option<ChangeType>,
}

/// The values of a record set, in order.
pub open spec fn contents_of(r: RRSet) -> Seq<Seq<char>> {
    r.records@.map_values(|i: RecordItem| i.content@)
}

/// Records of a zone, and the record quota.
#[derive(Clone, Debug)]
pub struct DnsRecords {
    pub rrsets: Vec<RRSet>,
    pub records_used: Option<i64>,
    pub records_limit: Option<i64>,
}

/// `GET domains/{id}/records`.
pub struct DNSDomainRecords;

impl RequestDesc for DNSDomainRecords {
    type Params = i64;
    type Request = ();
    type Response = DnsRecords;

    fn get_url(domain_id: i64) -> (r: String)
        ensures
            r@ == "domains/"@ + decimal(domain_id as int) + "/records"@,
    {
        path_with_id("domains/", domain_id, "/records")
    }

    fn method() -> (r: HttpMethod)
        ensures
            r == HttpMethod::Get,
    {
        HttpMethod::Get
    }
}

/// `POST domains/{id}/records` with a batch of record-set changes.
pub struct DNSDomainRecordsPost;

impl RequestDesc for DNSDomainRecordsPost {
    type Params = i64;
    type Request = DnsRecords;
    type Response = ();

    fn get_url(domain_id: i64) -> (r: String)
        ensures
            r@ == "domains/"@ + decimal(domain_id as int) + "/records"@,
    {
        path_with_id("domains/", domain_id, "/records")
    }

    fn method() -> (r: HttpMethod)
        ensures
            r == HttpMethod::Post,
    {
        HttpMethod::Post
    }
}

/// Record sets shown as a table.
pub struct RRSetList(pub Vec<RRSet>);

impl From<Vec<RRSet>> for RRSetList {
    fn from(v: Vec<RRSet>) -> (r: RRSetList) {
        RRSetList(v)
    }
}

impl vstd::std_specs::convert::FromSpecImpl<Vec<RRSet>> for RRSetList {
    open spec fn obeys_from_spec() -> bool {
        true
    }

    open spec fn from_spec(v: Vec<RRSet>) -> RRSetList {
        RRSetList(v)
    }
}

/// The table row of a record set: name, type, TTL (empty when absent), the
/// proxied mark, and the values joined by `", "`.
pub open spec fn rrset_row(r: RRSet, lang: Lang) -> Seq<Seq<char>> {
    seq![
        r.name@,
        r.rr_type@,
        match r.ttl {
            Some(t) => decimal(t as int),
            None => Seq::empty(),
        },
        if r.proxied { message(M::Yes, lang) } else { Seq::empty() },
        join(contents_of(r), ", "@),
    ]
}

fn rrset_row_exec(r: &RRSet, lang: Lang) -> (row: Vec<String>)
    ensures
        row_view(row) == rrset_row(*r, lang),
{
    let ttl = match r.ttl {
        Some(t) => i64_to_string(t),
        None => String::new(),
    };
    let proxied = if r.proxied {
        crate::text::owned(tr(lang, M::Yes))
    } else {
        String::new()
    };
    let mut values: Vec<Vec<char>> = Vec::new();
    let mut i: usize = 0;
    while i < r.records.len()
        invariant
            i <= r.records.len(),
            values@.map_values(|w: Vec<char>| w@) == contents_of(*r).take(i as int),
        decreases r.records.len() - i,
    {
        let ghost before = values@;
        let c = chars_of(r.records[i].content.as_str());
        values.push(c);
        proof {
            assert(values@ == before.push(c));
            assert(values@.map_values(|w: Vec<char>| w@) =~= before.map_values(|w: Vec<char>| w@).push(c@));
            assert(contents_of(*r).take(i + 1) =~= contents_of(*r).take(i as int).push(r.records@[i as int].content@));
        }
        i += 1;
    }
    assert(contents_of(*r).take(r.records.len() as int) =~= contents_of(*r));
    let joined = join_chars(&values, &chars_of(", "));
    let row = vec![r.name.clone(), r.rr_type.clone(), ttl, proxied, string_of(&joined)];
    assert(row_view(row) =~= rrset_row(*r, lang));
    row
}

impl DisplayTable for RRSetList {
    fn headers(&self, lang: Lang) -> (r: Vec<&'static str>)
        ensures
            headers_view(r@) == seq![
                message(M::HName, lang),
                message(M::HType, lang),
                message(M::HTtl, lang),
                message(M::HProxy, lang),
                message(M::HValues, lang),
            ],
    {
        let r = vec![
            tr(lang, M::HName),
            tr(lang, M::HType),
            tr(lang, M::HTtl),
            tr(lang, M::HProxy),
            tr(lang, M::HValues),
        ];
        assert(headers_view(r@) =~= seq![
            message(M::HName, lang),
            message(M::HType, lang),
            message(M::HTtl, lang),
            message(M::HProxy, lang),
            message(M::HValues, lang),
        ]);
        r
    }

    fn rows(&self, lang: Lang) -> (r: Vec<Vec<String>>)
        ensures
            rows_view(r@) == self.0@.map_values(|s: RRSet| rrset_row(s, lang)),
    {
        let mut out: Vec<Vec<String>> = Vec::new();
        let mut i: usize = 0;
        while i < self.0.len()
            invariant
                i <= self.0.len(),
                rows_view(out@) == self.0@.take(i as int).map_values(|s: RRSet| rrset_row(s, lang)),
            decreases self.0.len() - i,
        {
            let ghost before = out@;
            let row = rrset_row_exec(&self.0[i], lang);
            out.push(row);
            proof {
                assert(out@ == before.push(row));
                assert(rows_view(out@) =~= rows_view(before).push(row_view(row)));
                assert(self.0@.take(i + 1) =~= self.0@.take(i as int).push(self.0@[i as int]));
                assert(self.0@.take(i + 1).map_values(|s: RRSet| rrset_row(s, lang)) =~= self.0@.take(i as int).map_values(|s: RRSet| rrset_row(s, lang)).push(rrset_row(self.0@[i as int], lang)));
            }
            i += 1;
        }
        assert(self.0@.take(self.0.len() as int) =~= self.0@);
        out
    }
}

/// DNSSEC state of a zone.
#[derive(Clone, Debug)]
pub struct DnssecResp {
    pub enabled: bool,
    pub algorithm: Option<String>,
    pub ds_records: Vec<String>,
    pub dnskey_records: Vec<String>,
    pub parent_ds_present: Option<bool>,
    pub parent_ds_error: Option<bool>,
}

/// `GET domains/{id}/dnssec`.
pub struct DnssecGet;

impl RequestDesc for DnssecGet {
    type Params = i64;
    type Request = ();
    type Response = DnssecResp;

    fn get_url(id: i64) -> (r: String)
        ensures
            r@ == "domains/"@ + decimal(id as int) + "/dnssec"@,
    {
        path_with_id("domains/", id, "/dnssec")
    }

    fn method() -> (r: HttpMethod)
        ensures
            r == HttpMethod::Get,
    {
        HttpMethod::Get
    }
}

/// `POST domains/{id}/dnssec`: enable online signing.
pub struct DnssecPost;

impl RequestDesc for DnssecPost {
    type Params = i64;
    type Request = ();
    type Response = DnssecResp;

    fn get_url(id: i64) -> (r: String)
        ensures
            r@ == "domains/"@ + decimal(id as int) + "/dnssec"@,
    {
        path_with_id("domains/", id, "/dnssec")
    }

    fn method() -> (r: HttpMethod)
        ensures
            r == HttpMethod::Post,
    {
        HttpMethod::Post
    }
}

/// `DELETE domains/{id}/dnssec`, with an optional query string appended.
pub struct DnssecDelete;

impl RequestDesc for DnssecDelete {
    type Params = (i64, Option<String>);
    type Request = ();
    type Response = DnssecResp;

    fn get_url(params: (i64, Option<String>)) -> (r: String)
        ensures
            r@ == "domains/"@ + decimal(params.0 as int) + "/dnssec"@ + match params.1 {
                Some(q) => q@,
                None => Seq::empty(),
            },
    {
        let (id, query) = params;
        match query {
            Some(q) => {
                let base = path_with_id("domains/", id, "/dnssec");
                let out = crate::text::concat(&chars_of(base.as_str()), &chars_of(q.as_str()));
                string_of(&out)
            },
            None => {
                let r = path_with_id("domains/", id, "/dnssec");
                assert(r@ =~= r@ + Seq::<char>::empty());
                r
            },
        }
    }

    fn method() -> (r: HttpMethod)
        ensures
            r == HttpMethod::Delete,
    {
        HttpMethod::Delete
    }
}

/// The proxy cell of a record-set row is the localized "yes" exactly when the
/// set is proxied, and empty when it is not; the other cells are the name, the
/// type, the TTL and the values.
pub proof fn law_rrset_row_proxy_mark(r: RRSet, lang: Lang)
    ensures
        rrset_row(r, lang).len() == 5,
        rrset_row(r, lang)[0] == r.name@,
        rrset_row(r, lang)[1] == r.rr_type@,
        r.ttl matches Some(t) ==> rrset_row(r, lang)[2] == decimal(t as int),
        r.ttl is None ==> rrset_row(r, lang)[2].len() == 0,
        rrset_row(r, lang)[4] == join(r.records@.map_values(|i: RecordItem| i.content@), ", "@),
        r.proxied ==> rrset_row(r, lang)[3] == message(M::Yes, lang),
        !r.proxied ==> rrset_row(r, lang)[3].len() == 0,
        (rrset_row(r, lang)[3].len() > 0) == r.proxied,
{
    crate::i18n::placeholders::law_message_placeholders(M::Yes);
}

} // verus!
