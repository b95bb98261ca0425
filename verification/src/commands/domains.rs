//! Domains: finding a domain by name, and reporting a delegation check.
use crate::api::models::domain::{DelegationCheck, DomainInner};
use crate::commands::{notices_view, Level, Notice};
use crate::i18n::{f, f1, args_view, fill, message, tr, Lang, M};
use crate::text::{
    chars_of, decimal, i64_to_string, join, join_chars, str_lower, owned, string_of, strings_view,
    to_lowercase, trim, trim_chars, trim_end_char, trim_end_matches,
};
use vstd::prelude::*;

verus! {

/// The lookup key of a domain name: trimmed, without trailing dots, lowercased.
pub open spec fn name_needle(name: Seq<char>) -> Seq<char> {
    str_lower(trim_end_char(trim(name), '.'))
}

/// `name_needle` computed.
pub fn domain_needle(name: &str) -> (r: String)
    ensures
        r@ == name_needle(name@),
{
    let t = trim_end_matches(&trim_chars(&chars_of(name)), '.');
    let s = string_of(&t);
    to_lowercase(s.as_str())
}

/// The first of the domains a lookup found, or the not-found error for `name`.
pub fn first_domain(lang: Lang, name: &str, results: Vec<DomainInner>) -> (r: Result<DomainInner, String>)
    ensures
        results@.len() > 0 ==> r == Ok::<DomainInner, String>(results@[0]),
        results@.len() == 0 ==> (r matches Err(e) && e@ == fill(
            message(M::DomainNotFound, lang),
            seq![("name"@, name@)],
        )),
{
    let mut results = results;
    if results.len() > 0 {
        Ok(results.remove(0))
    } else {
        Err(f1(lang, M::DomainNotFound, "name", name))
    }
}

/// The report after a domain was added.
pub fn domain_created(lang: Lang, d: &DomainInner) -> (r: String)
    ensures
        r@ == fill(
            message(M::DomainCreated, lang),
            seq![("name"@, d.name@), ("id"@, decimal(d.id as int))],
        ),
{
    let id = i64_to_string(d.id);
    let args = [("name", d.name.as_str()), ("id", id.as_str())];
    let r = f(lang, M::DomainCreated, &args);
    assert(args_view(args@) =~= seq![("name"@, d.name@), ("id"@, decimal(d.id as int))]);
    r
}

/// The report after a domain was deleted.
pub fn domain_deleted(lang: Lang, name: &str) -> (r: String)
    ensures
        r@ == fill(message(M::DomainDeleted, lang), seq![("name"@, name@)]),
{
    f1(lang, M::DomainDeleted, "name", name)
}

/// The question asked before deleting a domain.
pub fn confirm_delete_domain(lang: Lang, name: &str) -> (r: String)
    ensures
        r@ == fill(message(M::ConfirmDeleteDomain, lang), seq![("name"@, name@)]),
{
    f1(lang, M::ConfirmDeleteDomain, "name", name)
}

/// A list of name servers as shown: joined by `", "`.
pub open spec fn ns_text(ns: Seq<String>) -> Seq<char> {
    join(strings_view(ns), ", "@)
}

/// The report of a delegation check of domain `name`: delegated, not delegated
/// (with the current, missing and extra name servers, a line when neither is
/// missing nor extra, and a propagation note), or unknown.
pub open spec fn delegation_notices(lang: Lang, name: Seq<char>, c: DelegationCheck) -> Seq<(Level, Seq<char>)> {
    match c.delegated {
        Some(true) => seq![(Level::Success, fill(message(M::DelegationOk, lang), seq![("name"@, name)]))],
        Some(false) => seq![(Level::Warn, fill(message(M::DelegationNotDelegated, lang), seq![("name"@, name)]))]
            + (if c.current_ns@.len() > 0 {
            seq![(Level::Info, fill(message(M::DelegationCurrentNs, lang), seq![("ns"@, ns_text(c.current_ns@))]))]
        } else {
            Seq::empty()
        }) + (if c.missing_ns@.len() > 0 {
            seq![(Level::Warn, fill(message(M::DelegationMissingNs, lang), seq![("ns"@, ns_text(c.missing_ns@))]))]
        } else {
            Seq::empty()
        }) + (if c.extra_ns@.len() > 0 {
            seq![(Level::Warn, fill(message(M::DelegationExtraNs, lang), seq![("ns"@, ns_text(c.extra_ns@))]))]
        } else {
            Seq::empty()
        }) + (if c.missing_ns@.len() == 0 && c.extra_ns@.len() == 0 {
            seq![(Level::Warn, message(M::DelegationNoNs, lang))]
        } else {
            Seq::empty()
        }) + seq![(Level::Info, message(M::DelegationPropagationNote, lang))],
        None => seq![(Level::Info, message(M::DelegationUnknown, lang))],
    }
}

fn ns_joined(ns: &Vec<String>) -> (r: String)
    ensures
        r@ == ns_text(ns@),
{
    let mut parts: Vec<Vec<char>> = Vec::new();
    let mut i: usize = 0;
    while i < ns.len()
        invariant
            i <= ns.len(),
            parts@.map_values(|p: Vec<char>| p@) == strings_view(ns@).take(i as int),
        decreases ns.len() - i,
    {
        let ghost before = parts@;
        let c = chars_of(ns[i].as_str());
        parts.push(c);
        proof {
            assert(parts@.map_values(|p: Vec<char>| p@) =~= before.map_values(|p: Vec<char>| p@).push(c@));
            assert(strings_view(ns@).take(i + 1) =~= strings_view(ns@).take(i as int).push(ns@[i as int]@));
        }
        i += 1;
    }
    assert(strings_view(ns@).take(ns.len() as int) =~= strings_view(ns@));
    string_of(&join_chars(&parts, &chars_of(", ")))
}

fn push_notice(out: &mut Vec<Notice>, level: Level, text: String)
    ensures
        notices_view(final(out)@) == notices_view(old(out)@).push((level, text@)),
{
    let ghost t = text@;
    out.push(Notice { level, text });
    assert(notices_view(out@) =~= notices_view(old(out)@).push((level, t)));
}

/// `delegation_notices` computed.
pub fn delegation_report(lang: Lang, name: &str, c: &DelegationCheck) -> (r: Vec<Notice>)
    ensures
        notices_view(r@) == delegation_notices(lang, name@, *c),
{
    let mut out: Vec<Notice> = Vec::new();
    match c.delegated {
        Some(true) => {
            push_notice(&mut out, Level::Success, f1(lang, M::DelegationOk, "name", name));
        },
        Some(false) => {
            push_notice(&mut out, Level::Warn, f1(lang, M::DelegationNotDelegated, "name", name));
            let ghost s1 = notices_view(out@);
            if c.current_ns.len() > 0 {
                let ns = ns_joined(&c.current_ns);
                push_notice(&mut out, Level::Info, f1(lang, M::DelegationCurrentNs, "ns", ns.as_str()));
            }
            let ghost s2 = notices_view(out@);
            if c.missing_ns.len() > 0 {
                let ns = ns_joined(&c.missing_ns);
                push_notice(&mut out, Level::Warn, f1(lang, M::DelegationMissingNs, "ns", ns.as_str()));
            }
            let ghost s3 = notices_view(out@);
            if c.extra_ns.len() > 0 {
                let ns = ns_joined(&c.extra_ns);
                push_notice(&mut out, Level::Warn, f1(lang, M::DelegationExtraNs, "ns", ns.as_str()));
            }
            let ghost s4 = notices_view(out@);
            if c.missing_ns.len() == 0 && c.extra_ns.len() == 0 {
                push_notice(&mut out, Level::Warn, owned(tr(lang, M::DelegationNoNs)));
            }
            let ghost s5 = notices_view(out@);
            push_notice(&mut out, Level::Info, owned(tr(lang, M::DelegationPropagationNote)));
            proof {
                let a: Seq<(Level, Seq<char>)> = if c.current_ns@.len() > 0 {
                    seq![(Level::Info, fill(message(M::DelegationCurrentNs, lang), seq![("ns"@, ns_text(c.current_ns@))]))]
                } else {
                    Seq::empty()
                };
                let b: Seq<(Level, Seq<char>)> = if c.missing_ns@.len() > 0 {
                    seq![(Level::Warn, fill(message(M::DelegationMissingNs, lang), seq![("ns"@, ns_text(c.missing_ns@))]))]
                } else {
                    Seq::empty()
                };
                let d: Seq<(Level, Seq<char>)> = if c.extra_ns@.len() > 0 {
                    seq![(Level::Warn, fill(message(M::DelegationExtraNs, lang), seq![("ns"@, ns_text(c.extra_ns@))]))]
                } else {
                    Seq::empty()
                };
                let e: Seq<(Level, Seq<char>)> = if c.missing_ns@.len() == 0 && c.extra_ns@.len() == 0 {
                    seq![(Level::Warn, message(M::DelegationNoNs, lang))]
                } else {
                    Seq::empty()
                };
                assert(s2 =~= s1 + a);
                assert(s3 =~= s1 + a + b);
                assert(s4 =~= s1 + a + b + d);
                assert(s5 =~= s1 + a + b + d + e);
            }
        },
        None => {
            push_notice(&mut out, Level::Info, owned(tr(lang, M::DelegationUnknown)));
        },
    }
    out
}

} // verus!
