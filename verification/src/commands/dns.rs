//! DNS record management.
//!
//! Backend semantics: the default operation (no changetype) **merges** the sent
//! values into the existing ones, and `changetype=DELETE` with a non-empty
//! `records` removes **only the listed** values. So `add` is one default POST,
//! `remove` one DELETE of specific values (or of the whole set), and `set` a
//! client-side reconcile: DELETE of the values not in the target set, then a
//! default POST of the targets.
pub mod rr_type;

use crate::api::models::dns::{contents_of, ChangeType, RRSet, RRSetList, RecordItem};
use crate::i18n::{args_view, f, fill, message, Lang, M};
use crate::text::{
    all_ascii, ascii_lower, ascii_lowercase, is_ascii_lower, is_white_space, lemma_ascii_subrange,
    lemma_lower_char, lemma_lower_concat, lemma_lowercase_concat, lemma_lower_fixed, lemma_lower_of_ascii, lemma_trim_end_char_push,
    lemma_trim_end_char_shape, lemma_trim_ends, lemma_trim_noop, lemma_trimmed_ends, no_white_space,
    chars_are, chars_eq, chars_eq_ignore_ascii_case, chars_of, concat, decimal, ends_with_seq,
    eq_ignore_ascii_case, has_suffix, str_lower, lowercase_chars, owned, string_of, to_uppercase,
    trim, trim_chars, trim_end_char, trim_end_matches, u64_to_string, str_upper, strings_view,
    contains_string,
};
use rr_type::{lemma_name_is_upper, normalize_trimmed, normalized, RrType};
use vstd::prelude::*;

verus! {

// ---------------------------------------------------------------------------
// Names
// ---------------------------------------------------------------------------

/// The fully qualified form of a record name relative to `domain`: trimmed,
/// trailing dots dropped and lowercased; the apex (`""` or `@`) is the domain
/// itself, a name already inside the domain is kept, anything else is prefixed
/// to the domain; the result ends with a dot.
pub open spec fn fqdn(name: Seq<char>, domain: Seq<char>) -> Seq<char> {
    let n = str_lower(trim_end_char(trim(name), '.'));
    let d = str_lower(trim_end_char(domain, '.'));
    if n.len() == 0 || n == seq!['@'] {
        d.push('.')
    } else if n == d || has_suffix(n, seq!['.'] + d) {
        n.push('.')
    } else {
        n + seq!['.'] + d + seq!['.']
    }
}

/// Normalizes a name to an FQDN with a trailing dot to match the API response.
pub fn to_fqdn(name: &str, domain: &str) -> (r: String)
    ensures
        r@ == fqdn(name@, domain@),
{
    let n = lowercase_chars(&trim_end_matches(&trim_chars(&chars_of(name)), '.'));
    let d = lowercase_chars(&trim_end_matches(&chars_of(domain), '.'));
    let mut out: Vec<char>;
    if n.len() == 0 || chars_are(&n, "@") {
        proof {
            reveal_strlit("@");
        }
        assert(n@ == seq!['@'] || n@.len() == 0);
        out = d.clone();
        assert(out@ =~= d@);
    } else {
        let mut dot_d: Vec<char> = vec!['.'];
        dot_d = concat(&dot_d, &d);
        proof {
            reveal_strlit("@");
            assert(dot_d@ =~= seq!['.'] + d@);
            assert("@"@ =~= seq!['@']);
        }
        if chars_eq(&n, &d) || ends_with_seq(&n, &dot_d) {
            out = n.clone();
            assert(out@ =~= n@);
        } else {
            out = concat(&n, &dot_d);
            assert(out@ =~= n@ + (seq!['.'] + d@));
            assert(n@ + (seq!['.'] + d@) =~= n@ + seq!['.'] + d@);
        }
    }
    out.push('.');
    string_of(&out)
}

/// `to_fqdn` always names the zone apex or a name inside the zone: the result is
/// the domain with a dot, or ends with `.` + domain + `.`; either way it ends
/// with a dot.
pub proof fn law_fqdn_stays_in_zone(name: Seq<char>, domain: Seq<char>)
    ensures
        ({
            let d = str_lower(trim_end_char(domain, '.'));
            let r = fqdn(name, domain);
            r == d.push('.') || has_suffix(r, seq!['.'] + d + seq!['.'])
        }),
        fqdn(name, domain).len() > 0 && fqdn(name, domain).last() == '.',
{
    let n = str_lower(trim_end_char(trim(name), '.'));
    let d = str_lower(trim_end_char(domain, '.'));
    let r = fqdn(name, domain);
    let tail = seq!['.'] + d + seq!['.'];
    if n.len() == 0 || n == seq!['@'] {
    } else if n == d {
    } else if has_suffix(n, seq!['.'] + d) {
        assert(r.skip(r.len() - tail.len()) =~= tail);
    } else {
        assert(r =~= n + tail);
        assert(r.skip(r.len() - tail.len()) =~= tail);
    }
}

/// The lowercased name part of `fqdn` for ASCII text: lowercase ASCII, not
/// ending with a dot, and starting with a non-whitespace character.
proof fn lemma_name_part(name: Seq<char>)
    requires
        all_ascii(name),
    ensures
        ({
            let n = str_lower(trim_end_char(trim(name), '.'));
            &&& is_ascii_lower(n)
            &&& n.len() == 0 || (n.last() != '.' && !is_white_space(n[0]))
        }),
{
    let t0 = trim(name);
    lemma_trim_ends(name);
    let k = choose|k: int| 0 <= k <= name.len() - t0.len() && t0 == #[trigger] name.subrange(k, k + t0.len());
    lemma_ascii_subrange(name, k, k + t0.len());
    let t = trim_end_char(t0, '.');
    lemma_trim_end_char_shape(t0, '.');
    lemma_ascii_subrange(t0, 0, t.len() as int);
    assert(t == t0.subrange(0, t.len() as int));
    lemma_lower_of_ascii(t);
    let n = str_lower(t);
    if n.len() > 0 {
        lemma_lower_char(t.last());
        lemma_lower_char(t[0]);
        assert(t[0] == t0[0]);
        assert(n.last() == ascii_lower(t.last()));
        assert(n[0] == ascii_lower(t[0]));
    }
}

/// The lowercased zone part of `fqdn` for a domain of ASCII text without
/// whitespace: lowercase ASCII without whitespace, not ending with a dot.
proof fn lemma_zone_part(domain: Seq<char>)
    requires
        all_ascii(domain),
        no_white_space(domain),
    ensures
        ({
            let d = str_lower(trim_end_char(domain, '.'));
            &&& is_ascii_lower(d)
            &&& no_white_space(d)
            &&& d.len() == 0 || d.last() != '.'
        }),
{
    let t = trim_end_char(domain, '.');
    lemma_trim_end_char_shape(domain, '.');
    lemma_ascii_subrange(domain, 0, t.len() as int);
    assert(t == domain.subrange(0, t.len() as int));
    lemma_lower_of_ascii(t);
    let d = str_lower(t);
    assert forall|i: int| 0 <= i < d.len() implies !is_white_space(#[trigger] d[i]) by {
        lemma_lower_char(t[i]);
        assert(t[i] == domain[i]);
    }
    if d.len() > 0 {
        lemma_lower_char(t.last());
    }
}

/// `to_fqdn` of ASCII text is lowercase ASCII text: it equals its own
/// `str::to_lowercase`.
pub proof fn law_fqdn_is_lowercase(name: Seq<char>, domain: Seq<char>)
    requires
        all_ascii(name),
        all_ascii(domain),
    ensures
        all_ascii(fqdn(name, domain)),
        str_lower(fqdn(name, domain)) == fqdn(name, domain),
{
    let n = str_lower(trim_end_char(trim(name), '.'));
    let t = trim_end_char(domain, '.');
    lemma_name_part(name);
    lemma_trim_end_char_shape(domain, '.');
    lemma_ascii_subrange(domain, 0, t.len() as int);
    assert(t == domain.subrange(0, t.len() as int));
    lemma_lower_of_ascii(t);
    let d = str_lower(t);
    let dot = seq!['.'];
    assert(is_ascii_lower(dot)) by {
        assert(ascii_lowercase(dot) =~= dot);
    }
    lemma_lower_concat(d, dot);
    lemma_lower_concat(n, dot);
    lemma_lower_concat(n + dot, d);
    lemma_lower_concat(n + dot + d, dot);
    assert(d.push('.') == d + dot);
    assert(n.push('.') == n + dot);
    assert(n + (dot + d) == n + dot + d);
    lemma_lower_fixed(fqdn(name, domain));
}

/// `to_fqdn` is idempotent: a name it produced comes back unchanged, for ASCII
/// names and a non-empty zone of ASCII text without whitespace (the shape of a
/// DNS name).
pub proof fn law_fqdn_idempotent(name: Seq<char>, domain: Seq<char>)
    requires
        all_ascii(name),
        all_ascii(domain),
        no_white_space(domain),
        str_lower(trim_end_char(domain, '.')).len() > 0,
    ensures
        fqdn(fqdn(name, domain), domain) == fqdn(name, domain),
{
    let n = str_lower(trim_end_char(trim(name), '.'));
    let d = str_lower(trim_end_char(domain, '.'));
    let r = fqdn(name, domain);
    let dot = seq!['.'];
    lemma_name_part(name);
    lemma_zone_part(domain);
    law_fqdn_is_lowercase(name, domain);
    assert(is_ascii_lower(dot)) by {
        assert(ascii_lowercase(dot) =~= dot);
    }
    // The name part of `r` itself, before lowercasing.
    let inner = if n.len() == 0 || n == seq!['@'] {
        d
    } else if n == d || has_suffix(n, seq!['.'] + d) {
        n
    } else {
        n + dot + d
    };
    assert(r == inner.push('.'));
    if n.len() == 0 || n == seq!['@'] {
    } else if n == d || has_suffix(n, seq!['.'] + d) {
    } else {
        lemma_lower_concat(n, dot);
        lemma_lower_concat(n + dot, d);
        assert((n + dot + d).last() == d.last());
        assert((n + dot + d)[0] == n[0]);
        assert(has_suffix(inner, seq!['.'] + d)) by {
            assert(inner.skip(inner.len() - (d.len() + 1)) =~= seq!['.'] + d);
        }
    }
    assert(inner.len() > 0 && inner.last() != '.' && !is_white_space(inner[0]));
    assert(is_ascii_lower(inner));
    lemma_trim_noop(r);
    assert(trim(r) == r);
    lemma_trim_end_char_push(inner, '.');
    lemma_lower_fixed(inner);
}

/// `to_fqdn` of a trimmed ASCII name with no trailing dot that is not the apex
/// and not already inside the zone: its lowercase, `.`, the zone and a dot.
proof fn lemma_fqdn_relative(x: Seq<char>, domain: Seq<char>)
    requires
        all_ascii(x),
        trim(x) == x,
        x.len() > 0,
        x.last() != '.',
        x != seq!['@'],
        str_lower(x) != str_lower(trim_end_char(domain, '.')),
        !has_suffix(str_lower(x), seq!['.'] + str_lower(trim_end_char(domain, '.'))),
    ensures
        fqdn(x, domain) == str_lower(x) + seq!['.'] + str_lower(trim_end_char(domain, '.')) + seq!['.'],
{
    let lx = str_lower(x);
    lemma_lower_of_ascii(x);
    assert(trim_end_char(x, '.') == x);
    assert(lx != seq!['@']) by {
        if lx == seq!['@'] {
            lemma_lower_char(x[0]);
            assert(lx[0] == ascii_lower(x[0]));
            assert(x =~= seq!['@']);
        }
    }
}

/// `x.` + `d` is trimmed already and has no trailing dot, for a trimmed
/// non-empty `x` and a non-empty `d` without whitespace or trailing dot.
proof fn lemma_full_form_shape(x: Seq<char>, d: Seq<char>)
    requires
        trim(x) == x,
        x.len() > 0,
        d.len() > 0,
        no_white_space(d),
        d.last() != '.',
    ensures
        trim(x + seq!['.'] + d) == x + seq!['.'] + d,
        trim_end_char(x + seq!['.'] + d, '.') == x + seq!['.'] + d,
{
    let y = x + seq!['.'] + d;
    lemma_trimmed_ends(x);
    assert(y[0] == x[0]);
    assert(y.last() == d.last());
    assert(!is_white_space(d[d.len() - 1]));
    lemma_trim_noop(y);
}

/// The lowercase of `x.` + `d`, for ASCII `x` and lowercase ASCII `d`.
proof fn lemma_full_form_lower(x: Seq<char>, d: Seq<char>)
    requires
        all_ascii(x),
        is_ascii_lower(d),
    ensures
        str_lower(x + seq!['.'] + d) == str_lower(x) + seq!['.'] + d,
{
    let dot = seq!['.'];
    let y = x + dot + d;
    assert(is_ascii_lower(dot)) by {
        assert(ascii_lowercase(dot) =~= dot);
    }
    assert forall|i: int| 0 <= i < y.len() implies (y[i] as u32) < 128 by {
        if i < x.len() {
            assert(y[i] == x[i]);
        } else if i == x.len() {
        } else {
            assert(y[i] == d[i - x.len() - 1]);
        }
    }
    lemma_lower_of_ascii(y);
    lemma_lower_of_ascii(x);
    lemma_lowercase_concat(x + dot, d);
    lemma_lowercase_concat(x, dot);
}

/// `to_fqdn` of the full form `x.` + zone of such a name: the same text,
/// lowercased, with a trailing dot.
proof fn lemma_fqdn_full(x: Seq<char>, domain: Seq<char>)
    requires
        all_ascii(x),
        all_ascii(domain),
        no_white_space(domain),
        str_lower(trim_end_char(domain, '.')).len() > 0,
        trim(x) == x,
        x.len() > 0,
    ensures
        ({
            let d = str_lower(trim_end_char(domain, '.'));
            fqdn(x + seq!['.'] + d, domain) == str_lower(x) + seq!['.'] + d + seq!['.']
        }),
{
    let d = str_lower(trim_end_char(domain, '.'));
    let ly = str_lower(x) + seq!['.'] + d;
    lemma_zone_part(domain);
    lemma_full_form_shape(x, d);
    lemma_full_form_lower(x, d);
    assert(ly.len() > d.len());
    assert(has_suffix(ly, seq!['.'] + d)) by {
        assert(ly.skip(ly.len() - (d.len() + 1)) =~= seq!['.'] + d);
    }
}

/// A name relative to the zone and the same name written out in full give the
/// same `to_fqdn`: `x` and `x.` + zone, for a trimmed ASCII `x` that is not the
/// apex, does not end with a dot and is not already inside the zone.
pub proof fn law_fqdn_relative_absolute(x: Seq<char>, domain: Seq<char>)
    requires
        all_ascii(x),
        all_ascii(domain),
        no_white_space(domain),
        str_lower(trim_end_char(domain, '.')).len() > 0,
        trim(x) == x,
        x.len() > 0,
        x.last() != '.',
        x != seq!['@'],
        str_lower(x) != str_lower(trim_end_char(domain, '.')),
        !has_suffix(str_lower(x), seq!['.'] + str_lower(trim_end_char(domain, '.'))),
    ensures
        fqdn(x, domain) == fqdn(x + seq!['.'] + str_lower(trim_end_char(domain, '.')), domain),
{
    lemma_fqdn_relative(x, domain);
    lemma_fqdn_full(x, domain);
}

// ---------------------------------------------------------------------------
// Record values
// ---------------------------------------------------------------------------

/// The record type with API name `t`, if the client knows it.
pub open spec fn type_named(t: Seq<char>) -> Option<RrType> {
    if t == RrType::Cname.spec_name() {
        Some(RrType::Cname)
    } else if t == RrType::Ns.spec_name() {
        Some(RrType::Ns)
    } else if t == RrType::Ptr.spec_name() {
        Some(RrType::Ptr)
    } else if t == RrType::Txt.spec_name() {
        Some(RrType::Txt)
    } else if t == RrType::Mx.spec_name() {
        Some(RrType::Mx)
    } else if t == RrType::Srv.spec_name() {
        Some(RrType::Srv)
    } else {
        None
    }
}

/// Canonical form of a value given the API name of its type: the type's own
/// normalization for a known name, otherwise the trimmed value.
pub open spec fn content_normalized(rr_type: Seq<char>, value: Seq<char>) -> Seq<char> {
    match type_named(rr_type) {
        Some(t) => normalized(t, value),
        None => trim(value),
    }
}

/// Normalizes a record value to the canonical form the API validates and stores:
/// CNAME/NS/PTR — FQDN with a trailing dot, MX/SRV — trailing dot on the target,
/// TXT — wrapped in quotes; `rr_type` is the exact API name.
pub fn normalize_content(rr_type: &str, value: &str) -> (r: String)
    ensures
        r@ == content_normalized(rr_type@, value@),
{
    let t = chars_of(rr_type);
    let v = trim_chars(&chars_of(value));
    let known = if chars_are(&t, "CNAME") {
        Some(RrType::Cname)
    } else if chars_are(&t, "NS") {
        Some(RrType::Ns)
    } else if chars_are(&t, "PTR") {
        Some(RrType::Ptr)
    } else if chars_are(&t, "TXT") {
        Some(RrType::Txt)
    } else if chars_are(&t, "MX") {
        Some(RrType::Mx)
    } else if chars_are(&t, "SRV") {
        Some(RrType::Srv)
    } else {
        None
    };
    match known {
        Some(k) => string_of(&normalize_trimmed(k, &v)),
        None => string_of(&v),
    }
}

/// Normalizing an already normalized value changes nothing, for every type.
pub proof fn law_normalize_idempotent(t: RrType, value: Seq<char>)
    ensures
        normalized(t, normalized(t, value)) == normalized(t, value),
{
    rr_type::lemma_normalized_idempotent(t, value);
}

// ---------------------------------------------------------------------------
// Finding a record set
// ---------------------------------------------------------------------------

/// Whether `r` is the record set named `want` (trailing dots and ASCII case
/// ignored) of type `ty` (ASCII case ignored).
pub open spec fn rrset_is(r: RRSet, want: Seq<char>, ty: Seq<char>) -> bool {
    eq_ignore_ascii_case(trim_end_char(r.name@, '.'), want) && eq_ignore_ascii_case(r.rr_type@, ty)
}

/// The first record set of `records` that `rrset_is`.
pub open spec fn first_rrset(records: Seq<RRSet>, want: Seq<char>, ty: Seq<char>) -> Option<RRSet>
    decreases records.len(),
{
    if records.len() == 0 {
        None
    } else if rrset_is(records[0], want, ty) {
        Some(records[0])
    } else {
        first_rrset(records.drop_first(), want, ty)
    }
}

/// The record set that `find_rrset` looks for: named `fqdn` and of type `rr_type`.
pub open spec fn found_rrset(records: Seq<RRSet>, fqdn: Seq<char>, rr_type: Seq<char>) -> Option<RRSet> {
    first_rrset(records, trim_end_char(fqdn, '.'), str_upper(rr_type))
}

/// The record set named `fqdn` of type `rr_type`, comparing names without their
/// trailing dots and both ignoring ASCII case.
pub fn find_rrset<'a>(records: &'a [RRSet], fqdn: &str, rr_type: &str) -> (r: Option<&'a RRSet>)
    ensures
        match r {
            Some(x) => found_rrset(records@, fqdn@, rr_type@) == Some(*x),
            None => found_rrset(records@, fqdn@, rr_type@) is None,
        },
{
    let want = trim_end_matches(&chars_of(fqdn), '.');
    let ty = chars_of(to_uppercase(rr_type).as_str());
    let ghost all = records@;
    let mut i: usize = 0;
    assert(all.skip(0) =~= all);
    while i < records.len()
        invariant
            i <= records.len(),
            all == records@,
            want@ == trim_end_char(fqdn@, '.'),
            ty@ == str_upper(rr_type@),
            first_rrset(all, want@, ty@) == first_rrset(all.skip(i as int), want@, ty@),
        decreases records.len() - i,
    {
        let ghost rest = all.skip(i as int);
        assert(rest.drop_first() =~= all.skip(i + 1));
        assert(rest[0] == records@[i as int]);
        let r = &records[i];
        let name = trim_end_matches(&chars_of(r.name.as_str()), '.');
        if chars_eq_ignore_ascii_case(&name, &want) && chars_eq_ignore_ascii_case(
            &chars_of(r.rr_type.as_str()),
            &ty,
        ) {
            return Some(r);
        }
        i += 1;
    }
    None
}

/// The record-set lookup ignores trailing dots and ASCII case of the name: two
/// spellings that agree up to those find the same set.
pub proof fn law_find_rrset_ignores_case_and_dots(
    records: Seq<RRSet>,
    f1: Seq<char>,
    f2: Seq<char>,
    rr_type: Seq<char>,
)
    requires
        eq_ignore_ascii_case(trim_end_char(f1, '.'), trim_end_char(f2, '.')),
    ensures
        found_rrset(records, f1, rr_type) == found_rrset(records, f2, rr_type),
    decreases records.len(),
{
    let w1 = trim_end_char(f1, '.');
    let w2 = trim_end_char(f2, '.');
    if records.len() > 0 {
        let n = trim_end_char(records[0].name@, '.');
        if eq_ignore_ascii_case(n, w1) {
            crate::text::lemma_ascii_case_trans(n, w1, w2);
        }
        if eq_ignore_ascii_case(n, w2) {
            crate::text::lemma_ascii_case_symm(w1, w2);
            crate::text::lemma_ascii_case_trans(n, w2, w1);
        }
        law_find_rrset_ignores_case_and_dots(records.drop_first(), f1, f2, rr_type);
    }
}

// ---------------------------------------------------------------------------
// Building record sets
// ---------------------------------------------------------------------------

/// `r` carries exactly `values` as enabled records.
pub open spec fn carries(r: RRSet, values: Seq<Seq<char>>) -> bool {
    &&& contents_of(r) == values
    &&& forall|i: int| 0 <= i < r.records@.len() ==> !(#[trigger] r.records@[i]).disabled
}

/// A default (merging) write of `values` to `name`/`ty` with `ttl`.
pub open spec fn is_write(r: RRSet, name: Seq<char>, ty: Seq<char>, ttl: i64, values: Seq<Seq<char>>) -> bool {
    &&& r.name@ == name
    &&& r.rr_type@ == ty
    &&& r.ttl == Some(ttl)
    &&& carries(r, values)
    &&& !r.proxied
    &&& r.change_type is None
}

/// A deletion of exactly `values` from `name`/`ty`.
pub open spec fn is_delete(r: RRSet, name: Seq<char>, ty: Seq<char>, values: Seq<Seq<char>>) -> bool {
    &&& r.name@ == name
    &&& r.rr_type@ == ty
    &&& r.ttl is None
    &&& carries(r, values)
    &&& !r.proxied
    &&& r.change_type == Some(ChangeType::Delete)
}


/// Enabled records carrying `vl`, in order.
pub fn content(vl: Vec<String>) -> (r: Vec<RecordItem>)
    ensures
        r@.map_values(|i: RecordItem| i.content@) == strings_view(vl@),
        forall|i: int| 0 <= i < r@.len() ==> !(#[trigger] r@[i]).disabled,
{
    let mut out: Vec<RecordItem> = Vec::new();
    let mut i: usize = 0;
    while i < vl.len()
        invariant
            i <= vl.len(),
            out@.map_values(|i: RecordItem| i.content@) == strings_view(vl@).take(i as int),
            forall|k: int| 0 <= k < out@.len() ==> !(#[trigger] out@[k]).disabled,
        decreases vl.len() - i,
    {
        let ghost before = out@;
        let item = RecordItem { content: vl[i].clone(), disabled: false };
        out.push(item);
        proof {
            assert(out@.map_values(|i: RecordItem| i.content@) =~= before.map_values(|i: RecordItem| i.content@).push(item.content@));
            assert(strings_view(vl@).take(i + 1) =~= strings_view(vl@).take(i as int).push(vl@[i as int]@));
        }
        i += 1;
    }
    assert(strings_view(vl@).take(vl.len() as int) =~= strings_view(vl@));
    out
}

/// A default write of `values` to `name`/`ty`.
pub fn dns_set(name: &str, ty: &str, ttl: i64, values: Vec<String>) -> (r: RRSet)
    ensures
        is_write(r, name@, ty@, ttl, strings_view(values@)),
{
    RRSet {
        name: owned(name),
        rr_type: owned(ty),
        records: content(values),
        ttl: Some(ttl),
        change_type: None,
        proxied: false,
    }
}

/// A deletion of `stale` from `name`/`ty`.
pub fn dns_req_del(name: &str, ty: &str, stale: Vec<String>) -> (r: RRSet)
    ensures
        is_delete(r, name@, ty@, strings_view(stale@)),
{
    RRSet {
        name: owned(name),
        rr_type: owned(ty),
        records: content(stale),
        ttl: None,
        change_type: Some(ChangeType::Delete),
        proxied: false,
    }
}

/// The record sets of `rrsets` of type `rr_type` (ASCII case ignored), all of
/// them when no type is given, in order.
pub open spec fn filtered(rrsets: Seq<RRSet>, rr_type: Option<RrType>) -> Seq<RRSet> {
    rrsets.filter(|r: RRSet| match rr_type {
        Some(t) => eq_ignore_ascii_case(r.rr_type@, t.spec_name()),
        None => true,
    })
}

/// The listing of a zone, optionally restricted to one record type.
pub fn list_rrsets(rrsets: Vec<RRSet>, rr_type: Option<RrType>) -> (r: RRSetList)
    ensures
        r.0@ == filtered(rrsets@, rr_type),
{
    let ghost pred = |r: RRSet| match rr_type {
        Some(t) => eq_ignore_ascii_case(r.rr_type@, t.spec_name()),
        None => true,
    };
    let ghost orig = rrsets@;
    let total = rrsets.len();
    let mut rest = rrsets;
    let mut out: Vec<RRSet> = Vec::new();
    let mut i: usize = 0;
    assert(orig.skip(0) =~= orig);
    while rest.len() > 0
        invariant
            i <= orig.len(),
            orig.len() == total,
            rest@ == orig.skip(i as int),
            out@ == orig.take(i as int).filter(pred),
            pred == (|r: RRSet| match rr_type {
                Some(t) => eq_ignore_ascii_case(r.rr_type@, t.spec_name()),
                None => true,
            }),
        decreases rest.len(),
    {
        assert(i < orig.len());
        let r = rest.remove(0);
        assert(r == orig[i as int]);
        let keep = match rr_type {
            Some(t) => chars_eq_ignore_ascii_case(&chars_of(r.rr_type.as_str()), &chars_of(t.as_str())),
            None => true,
        };
        proof {
            reveal_with_fuel(Seq::<RRSet>::filter, 1);
            assert(orig.take(i + 1).drop_last() =~= orig.take(i as int));
            assert(orig.skip(i as int).remove(0) =~= orig.skip(i + 1));
        }
        if keep {
            out.push(r);
        }
        i += 1;
    }
    assert(orig.take(i as int) =~= orig);
    RRSetList(out)
}


// ---------------------------------------------------------------------------
// Planning add / set / remove
// ---------------------------------------------------------------------------

/// The three write operations.
#[derive(Clone, Copy, PartialEq, Eq, Debug)]
pub enum Op {
    /// `add`: append values to the record set.
    Add,
    /// `set`: make the values the whole record set.
    Replace,
    /// `remove`: delete values, or the whole record set.
    Remove,
}

/// Why a write cannot be planned.
#[derive(Clone, Copy, PartialEq, Eq, Debug)]
pub enum DnsChangeError {
    /// `remove` without values of a record set that does not exist.
    RecordNotFound,
    /// `remove` of a record set without values.
    NothingToDelete,
}

impl DnsChangeError {
    /// The message key of the error.
    pub open spec fn spec_key(self) -> M {
        match self {
            DnsChangeError::RecordNotFound => M::RecordNotFound,
            DnsChangeError::NothingToDelete => M::NothingToDelete,
        }
    }

    /// The text shown for the error on record `name` of type `ty`.
    pub fn message(&self, lang: Lang, name: &str, ty: &str) -> (r: String)
        ensures
            r@ == fill(message(self.spec_key(), lang), seq![("name"@, name@), ("type"@, ty@)]),
    {
        let key = match self {
            DnsChangeError::RecordNotFound => M::RecordNotFound,
            DnsChangeError::NothingToDelete => M::NothingToDelete,
        };
        let args = [("name", name), ("type", ty)];
        let r = f(lang, key, &args);
        assert(args_view(args@) =~= seq![("name"@, name@), ("type"@, ty@)]);
        r
    }
}

/// The requests a write boils down to, posted in order, and what to report.
pub struct ChangePlan {
    /// Record-set changes, each posted on its own.
    pub posts: Vec<RRSet>,
    /// The record type as sent.
    pub rr_type: String,
    /// The report message.
    pub message: M,
    /// How many values the report counts.
    pub count: usize,
}

/// Whether a write needs the zone's current record sets before it can be planned:
/// `set` always does, `remove` when no values are given.
pub open spec fn needs_records(op: Op, value_count: nat) -> bool {
    op == Op::Replace || (op == Op::Remove && value_count == 0)
}

/// Whether the zone's current record sets have to be fetched first.
pub fn needs_current_records(op: Op, values: &[String]) -> (r: bool)
    ensures
        r == needs_records(op, values@.len()),
{
    match op {
        Op::Add => false,
        Op::Replace => true,
        Op::Remove => values.len() == 0,
    }
}

/// The record type as sent to the API: its API name.
pub open spec fn sent_type(t: RrType) -> Seq<char> {
    t.spec_name()
}

/// The values as sent: each normalized for the type.
pub open spec fn sent_values(t: RrType, values: Seq<String>) -> Seq<Seq<char>> {
    values.map_values(|v: String| normalized(t, v@))
}

/// The current values of the record set the write addresses, if it exists.
pub open spec fn current_values(current: Seq<RRSet>, name: Seq<char>, domain: Seq<char>, t: RrType) -> Option<Seq<Seq<char>>> {
    match found_rrset(current, fqdn(name, domain), sent_type(t)) {
        Some(r) => Some(contents_of(r)),
        None => None,
    }
}

/// Current values that are not among the targets, in their order.
pub open spec fn stale_values(cur: Seq<Seq<char>>, targets: Seq<Seq<char>>) -> Seq<Seq<char>> {
    cur.filter(|c: Seq<char>| !targets.contains(c))
}

/// What `remove` deletes: the given values, or else the whole current set.
pub open spec fn remove_targets(
    current: Seq<RRSet>,
    name: Seq<char>,
    domain: Seq<char>,
    t: RrType,
    values: Seq<String>,
) -> Result<Seq<Seq<char>>, DnsChangeError> {
    let vs = sent_values(t, values);
    let targets = if vs.len() == 0 {
        match current_values(current, name, domain, t) {
            Some(c) => Ok(c),
            None => Err(DnsChangeError::RecordNotFound),
        }
    } else {
        Ok(vs)
    };
    match targets {
        Ok(tg) => if tg.len() == 0 {
            Err(DnsChangeError::NothingToDelete)
        } else {
            Ok(tg)
        },
        Err(e) => Err(e),
    }
}

/// The plan is exactly what the operation calls for.
pub open spec fn plan_is(
    r: Result<ChangePlan, DnsChangeError>,
    op: Op,
    name: Seq<char>,
    t: RrType,
    values: Seq<String>,
    ttl: i64,
    domain: Seq<char>,
    current: Seq<RRSet>,
) -> bool {
    let ty = sent_type(t);
    let vs = sent_values(t, values);
    match op {
        Op::Add => r matches Ok(p) && p.rr_type@ == ty && p.posts@.len() == 1 && is_write(
            p.posts@[0],
            name,
            ty,
            ttl,
            vs,
        ) && p.message == M::DnsAdded && p.count == vs.len(),
        Op::Replace => {
            let cur = match current_values(current, name, domain, t) {
                Some(c) => c,
                None => Seq::empty(),
            };
            let stale = stale_values(cur, vs);
            r matches Ok(p) && p.rr_type@ == ty && p.message == M::DnsSet && p.count == vs.len()
                && if stale.len() > 0 {
                p.posts@.len() == 2 && is_delete(p.posts@[0], name, ty, stale) && is_write(
                    p.posts@[1],
                    name,
                    ty,
                    ttl,
                    vs,
                )
            } else {
                p.posts@.len() == 1 && is_write(p.posts@[0], name, ty, ttl, vs)
            }
        },
        Op::Remove => match remove_targets(current, name, domain, t, values) {
            Ok(tg) => r matches Ok(p) && p.rr_type@ == ty && p.posts@.len() == 1 && is_delete(
                p.posts@[0],
                name,
                ty,
                tg,
            ) && p.message == M::DnsRemoved && p.count == tg.len(),
            Err(e) => r == Err::<ChangePlan, DnsChangeError>(e),
        },
    }
}


fn normalize_all(t: RrType, values: &[String]) -> (r: Vec<String>)
    ensures
        strings_view(r@) == sent_values(t, values@),
{
    let mut out: Vec<String> = Vec::new();
    let mut i: usize = 0;
    while i < values.len()
        invariant
            i <= values.len(),
            strings_view(out@) == sent_values(t, values@).take(i as int),
        decreases values.len() - i,
    {
        let ghost before = out@;
        let v = t.normalize(values[i].as_str());
        out.push(v);
        proof {
            assert(strings_view(out@) =~= strings_view(before).push(v@));
            assert(sent_values(t, values@).take(i + 1) =~= sent_values(t, values@).take(i as int).push(normalized(t, values@[i as int]@)));
        }
        i += 1;
    }
    assert(sent_values(t, values@).take(values.len() as int) =~= sent_values(t, values@));
    out
}

fn values_of(r: &RRSet) -> (out: Vec<String>)
    ensures
        strings_view(out@) == contents_of(*r),
{
    let mut out: Vec<String> = Vec::new();
    let mut i: usize = 0;
    while i < r.records.len()
        invariant
            i <= r.records.len(),
            strings_view(out@) == contents_of(*r).take(i as int),
        decreases r.records.len() - i,
    {
        let ghost before = out@;
        let c = r.records[i].content.clone();
        out.push(c);
        proof {
            assert(strings_view(out@) =~= strings_view(before).push(c@));
            assert(contents_of(*r).take(i + 1) =~= contents_of(*r).take(i as int).push(r.records@[i as int].content@));
        }
        i += 1;
    }
    assert(contents_of(*r).take(r.records.len() as int) =~= contents_of(*r));
    out
}

fn stale_of(cur: &Vec<String>, targets: &Vec<String>) -> (r: Vec<String>)
    ensures
        strings_view(r@) == stale_values(strings_view(cur@), strings_view(targets@)),
{
    let ghost tv = strings_view(targets@);
    let ghost cv = strings_view(cur@);
    let ghost pred = |c: Seq<char>| !tv.contains(c);
    let mut out: Vec<String> = Vec::new();
    let mut i: usize = 0;
    while i < cur.len()
        invariant
            i <= cur.len(),
            tv == strings_view(targets@),
            cv == strings_view(cur@),
            pred == (|c: Seq<char>| !tv.contains(c)),
            strings_view(out@) == cv.take(i as int).filter(pred),
        decreases cur.len() - i,
    {
        let ghost before = out@;
        proof {
            reveal_with_fuel(Seq::<Seq<char>>::filter, 1);
            assert(cv.take(i + 1).drop_last() =~= cv.take(i as int));
            assert(cv.take(i + 1).last() == cur@[i as int]@);
        }
        if !contains_string(targets, &cur[i]) {
            let c = cur[i].clone();
            out.push(c);
            assert(strings_view(out@) =~= strings_view(before).push(c@));
        }
        i += 1;
    }
    assert(cv.take(cur.len() as int) =~= cv);
    out
}

/// Plans `add`/`set`/`remove` of `values` on record `name` of type `rr_type` in
/// `domain`; `current` is the zone's record sets (only read when
/// `needs_current_records`). `set` deletes the current values that are not
/// targets (when there are any), then writes the targets; `remove` deletes the
/// given values, or all current values of the set when none are given.
pub fn plan_change(
    op: Op,
    name: &str,
    rr_type: RrType,
    values: &[String],
    ttl: i64,
    domain: &str,
    current: &[RRSet],
) -> (r: Result<ChangePlan, DnsChangeError>)
    ensures
        plan_is(r, op, name@, rr_type, values@, ttl, domain@, current@),
{
    let ty = to_uppercase(rr_type.as_str());
    proof {
        lemma_name_is_upper(rr_type);
    }
    let vs = normalize_all(rr_type, values);
    match op {
        Op::Add => {
            let count = vs.len();
            let post = dns_set(name, ty.as_str(), ttl, vs);
            let posts = vec![post];
            Ok(ChangePlan { posts, rr_type: ty, message: M::DnsAdded, count })
        },
        Op::Replace => {
            let fq = to_fqdn(name, domain);
            let cur = match find_rrset(current, fq.as_str(), ty.as_str()) {
                Some(r) => values_of(r),
                None => Vec::new(),
            };
            assert(strings_view(cur@) == match current_values(current@, name@, domain@, rr_type) {
                Some(c) => c,
                None => Seq::<Seq<char>>::empty(),
            });
            let stale = stale_of(&cur, &vs);
            let count = vs.len();
            let write = dns_set(name, ty.as_str(), ttl, vs);
            if stale.len() > 0 {
                let del = dns_req_del(name, ty.as_str(), stale);
                let posts = vec![del, write];
                Ok(ChangePlan { posts, rr_type: ty, message: M::DnsSet, count })
            } else {
                let posts = vec![write];
                Ok(ChangePlan { posts, rr_type: ty, message: M::DnsSet, count })
            }
        },
        Op::Remove => {
            let targets = if vs.len() == 0 {
                let fq = to_fqdn(name, domain);
                match find_rrset(current, fq.as_str(), ty.as_str()) {
                    Some(r) => values_of(r),
                    None => {
                        return Err(DnsChangeError::RecordNotFound);
                    },
                }
            } else {
                vs
            };
            if targets.len() == 0 {
                return Err(DnsChangeError::NothingToDelete);
            }
            let count = targets.len();
            let del = dns_req_del(name, ty.as_str(), targets);
            let posts = vec![del];
            Ok(ChangePlan { posts, rr_type: ty, message: M::DnsRemoved, count })
        },
    }
}

/// The report after a planned write went through.
pub fn change_message(lang: Lang, plan: &ChangePlan, name: &str, domain: &str) -> (r: String)
    ensures
        r@ == fill(
            message(plan.message, lang),
            seq![
                ("name"@, name@),
                ("type"@, plan.rr_type@),
                ("domain"@, domain@),
                ("count"@, decimal(plan.count as int)),
            ],
        ),
{
    let count = u64_to_string(plan.count as u64);
    let args = [("name", name), ("type", plan.rr_type.as_str()), ("domain", domain), ("count", count.as_str())];
    let r = f(lang, plan.message, &args);
    assert(args_view(args@) =~= seq![
        ("name"@, name@),
        ("type"@, plan.rr_type@),
        ("domain"@, domain@),
        ("count"@, decimal(plan.count as int)),
    ]);
    r
}

/// Whether a default write replaces the record set instead of merging into it
/// (CNAME, NS and PTR).
pub open spec fn replaces(t: RrType) -> bool {
    t == RrType::Cname || t == RrType::Ns || t == RrType::Ptr
}

/// The values a record set of type `t` holds after the server applies one
/// change: a DELETE removes the listed values; a default write merges its values
/// in, or replaces the set for the types that do not merge.
pub open spec fn after_post(cur: Set<Seq<char>>, post: RRSet, t: RrType) -> Set<Seq<char>> {
    let vals = contents_of(post).to_set();
    if post.change_type is Some {
        cur.difference(vals)
    } else if replaces(t) {
        vals
    } else {
        cur.union(vals)
    }
}

/// The values after the server applies `posts` in order.
pub open spec fn after_posts(cur: Set<Seq<char>>, posts: Seq<RRSet>, t: RrType) -> Set<Seq<char>>
    decreases posts.len(),
{
    if posts.len() == 0 {
        cur
    } else {
        after_posts(after_post(cur, posts[0], t), posts.drop_first(), t)
    }
}

/// The values the addressed record set holds now (none when it does not exist).
pub open spec fn current_set(current: Seq<RRSet>, name: Seq<char>, domain: Seq<char>, t: RrType) -> Set<Seq<char>> {
    match current_values(current, name, domain, t) {
        Some(c) => c.to_set(),
        None => Set::empty(),
    }
}

proof fn lemma_stale_members(cur: Seq<Seq<char>>, targets: Seq<Seq<char>>)
    ensures
        forall|c: Seq<char>|
            #[trigger] stale_values(cur, targets).contains(c) <==> (cur.contains(c) && !targets.contains(c)),
{
    let stale = stale_values(cur, targets);
    let pred = |c: Seq<char>| !targets.contains(c);
    assert forall|c: Seq<char>| #[trigger] stale.contains(c) <==> (cur.contains(c) && !targets.contains(c)) by {
        if stale.contains(c) {
            cur.lemma_filter_contains_rev(pred, c);
            let j = choose|j: int| 0 <= j < stale.len() && stale[j] == c;
            cur.lemma_filter_pred(pred, j);
        }
        if cur.contains(c) && pred(c) {
            let i = choose|i: int| 0 <= i < cur.len() && cur[i] == c;
            cur.lemma_filter_contains(pred, i);
        }
    }
}

proof fn lemma_after_one(cur: Set<Seq<char>>, posts: Seq<RRSet>, t: RrType)
    requires
        posts.len() == 1,
    ensures
        after_posts(cur, posts, t) == after_post(cur, posts[0], t),
{
    let next = after_post(cur, posts[0], t);
    assert(posts.drop_first().len() == 0);
    assert(after_posts(next, posts.drop_first(), t) == next);
}

proof fn lemma_after_two(cur: Set<Seq<char>>, posts: Seq<RRSet>, t: RrType)
    requires
        posts.len() == 2,
    ensures
        after_posts(cur, posts, t) == after_post(after_post(cur, posts[0], t), posts[1], t),
{
    let rest = posts.drop_first();
    assert(rest[0] == posts[1]);
    lemma_after_one(after_post(cur, posts[0], t), rest, t);
}

/// `set` leaves the record set holding exactly the target values, whatever it
/// held before: the stale values are deleted, then the targets are written.
pub proof fn law_set_leaves_exactly_targets(
    r: Result<ChangePlan, DnsChangeError>,
    name: Seq<char>,
    t: RrType,
    values: Seq<String>,
    ttl: i64,
    domain: Seq<char>,
    current: Seq<RRSet>,
)
    requires
        plan_is(r, Op::Replace, name, t, values, ttl, domain, current),
    ensures
        r matches Ok(p) && after_posts(current_set(current, name, domain, t), p.posts@, t)
            == sent_values(t, values).to_set(),
{
    let p = r->Ok_0;
    let vs = sent_values(t, values);
    let cur = match current_values(current, name, domain, t) {
        Some(c) => c,
        None => Seq::<Seq<char>>::empty(),
    };
    assert(current_set(current, name, domain, t) =~= cur.to_set());
    let stale = stale_values(cur, vs);
    lemma_stale_members(cur, vs);
    if stale.len() > 0 {
        lemma_after_two(cur.to_set(), p.posts@, t);
        assert(contents_of(p.posts@[0]) == stale);
        assert(contents_of(p.posts@[1]) == vs);
        let mid = after_post(cur.to_set(), p.posts@[0], t);
        assert(mid =~= cur.to_set().difference(stale.to_set()));
        if !replaces(t) {
            assert(mid.union(vs.to_set()) =~= vs.to_set());
        }
    } else {
        lemma_after_one(cur.to_set(), p.posts@, t);
        assert(contents_of(p.posts@[0]) == vs);
        if !replaces(t) {
            assert forall|c: Seq<char>| cur.contains(c) implies vs.contains(c) by {
                if !vs.contains(c) {
                    assert(stale.contains(c));
                }
            }
            assert(cur.to_set().union(vs.to_set()) =~= vs.to_set());
        }
    }
}

/// `add` keeps whatever the record set held and adds the values (for CNAME, NS
/// and PTR, whose sets the server replaces, the values become the set).
pub proof fn law_add_keeps_existing(
    r: Result<ChangePlan, DnsChangeError>,
    name: Seq<char>,
    t: RrType,
    values: Seq<String>,
    ttl: i64,
    domain: Seq<char>,
    current: Seq<RRSet>,
    cur: Set<Seq<char>>,
)
    requires
        plan_is(r, Op::Add, name, t, values, ttl, domain, current),
    ensures
        r matches Ok(p) && after_posts(cur, p.posts@, t) == if replaces(t) {
            sent_values(t, values).to_set()
        } else {
            cur.union(sent_values(t, values).to_set())
        },
{
    let p = r->Ok_0;
    lemma_after_one(cur, p.posts@, t);
    assert(contents_of(p.posts@[0]) == sent_values(t, values));
}

/// `remove` takes exactly its targets out of the record set; without values it
/// targets every value the set holds, so nothing of it is left.
pub proof fn law_remove_takes_out_targets(
    r: Result<ChangePlan, DnsChangeError>,
    name: Seq<char>,
    t: RrType,
    values: Seq<String>,
    ttl: i64,
    domain: Seq<char>,
    current: Seq<RRSet>,
)
    requires
        plan_is(r, Op::Remove, name, t, values, ttl, domain, current),
    ensures
        match remove_targets(current, name, domain, t, values) {
            Ok(tg) => r matches Ok(p) && after_posts(current_set(current, name, domain, t), p.posts@, t)
                == current_set(current, name, domain, t).difference(tg.to_set()),
            Err(e) => r == Err::<ChangePlan, DnsChangeError>(e),
        },
        values.len() == 0 && r is Ok ==> (r matches Ok(p) && after_posts(
            current_set(current, name, domain, t),
            p.posts@,
            t,
        ).is_empty()),
{
    match remove_targets(current, name, domain, t, values) {
        Ok(tg) => {
            let p = r->Ok_0;
            let cs = current_set(current, name, domain, t);
            lemma_after_one(cs, p.posts@, t);
            assert(contents_of(p.posts@[0]) == tg);
            if values.len() == 0 {
                assert(sent_values(t, values).len() == 0);
                assert(cs =~= tg.to_set());
                assert(cs.difference(tg.to_set()) =~= Set::<Seq<char>>::empty());
            }
        },
        Err(e) => {},
    }
}

/// The query of `dnssec disable`: `?force=true` removes signing even while the
/// parent zone still holds a DS record (which risks SERVFAIL).
pub fn dnssec_disable_query(force: bool) -> (r: Option<String>)
    ensures
        force ==> (r matches Some(q) && q@ == "?force=true"@),
        !force ==> r is None,
{
    if force {
        Some(owned("?force=true"))
    } else {
        None
    }
}

/// `dns remove` with values given deletes exactly those values, normalized for
/// the type, in one DELETE, and reports their number, whatever record sets the
/// zone holds: the other values of the set stay.
pub proof fn law_remove_given_values(
    r: Result<ChangePlan, DnsChangeError>,
    name: Seq<char>,
    t: RrType,
    values: Seq<String>,
    ttl: i64,
    domain: Seq<char>,
    current: Seq<RRSet>,
)
    requires
        plan_is(r, Op::Remove, name, t, values, ttl, domain, current),
        values.len() > 0,
    ensures
        r matches Ok(p) && p.posts@.len() == 1 && p.count == values.len() && p.message == M::DnsRemoved
            && p.posts@[0].name@ == name && p.posts@[0].change_type == Some(ChangeType::Delete)
            && contents_of(p.posts@[0]) == values.map_values(|v: String| normalized(t, v@)),
{
}

/// Normalizing by the API name of a type is normalizing for that type.
pub proof fn law_content_by_api_name(t: RrType, value: Seq<char>)
    ensures
        content_normalized(t.spec_name(), value) == normalized(t, value),
{
    crate::commands::dns::rr_type::law_type_names();
}

} // verus!
