use webshield::api::models::dns::{RRSet, RecordItem};
use webshield::commands::dns::rr_type::RrType;
use webshield::commands::dns::{
    change_message, find_rrset, normalize_content, plan_change, to_fqdn, DnsChangeError, Op,
};
use webshield::i18n::Lang;

fn rrset(name: &str, ty: &str, values: &[&str]) -> RRSet {
    RRSet {
        name: name.to_string(),
        rr_type: ty.to_string(),
        ttl: Some(300),
        records: values
            .iter()
            .map(|v| RecordItem { content: v.to_string(), disabled: false })
            .collect(),
        proxied: false,
        change_type: None,
    }
}

fn contents(r: &RRSet) -> Vec<String> {
    r.records.iter().map(|i| i.content.clone()).collect()
}

#[test]
fn to_fqdn_normalizes_names() {
    assert_eq!(to_fqdn("@", "example.com"), "example.com.");
    assert_eq!(to_fqdn("", "example.com"), "example.com.");
    assert_eq!(to_fqdn("example.com", "example.com"), "example.com.");
    assert_eq!(to_fqdn("www", "example.com"), "www.example.com.");
    assert_eq!(to_fqdn("www.example.com", "example.com"), "www.example.com.");
    assert_eq!(to_fqdn("WWW.Example.COM.", "example.com."), "www.example.com.");
}

#[test]
fn to_fqdn_expands_names_relative_to_the_domain() {
    assert_eq!(to_fqdn("@", "example.com"), "example.com.");
    assert_eq!(to_fqdn("", "example.com"), "example.com.");
    assert_eq!(to_fqdn("www", "example.com"), "www.example.com.");
    assert_eq!(to_fqdn("www.example.com", "example.com"), "www.example.com.");
    assert_eq!(to_fqdn("WWW.Example.COM.", "example.com."), "www.example.com.");
}

#[test]
fn normalize_content_matches_backend_canonical_forms() {
    assert_eq!(normalize_content("CNAME", "target.example.com"), "target.example.com.");
    assert_eq!(normalize_content("CNAME", "target.example.com."), "target.example.com.");
    assert_eq!(normalize_content("NS", "ns1.example.com"), "ns1.example.com.");
    assert_eq!(normalize_content("MX", "10 mail.example.com"), "10 mail.example.com.");
    assert_eq!(normalize_content("MX", "10 mail.example.com."), "10 mail.example.com.");
    assert_eq!(
        normalize_content("SRV", "5 0 5060 sip.example.com"),
        "5 0 5060 sip.example.com."
    );
    assert_eq!(normalize_content("MX", "10"), "10");
    assert_eq!(normalize_content("TXT", "v=spf1 -all"), "\"v=spf1 -all\"");
    assert_eq!(normalize_content("TXT", "\"v=spf1 -all\""), "\"v=spf1 -all\"");
    assert_eq!(normalize_content("A", "1.1.1.1"), "1.1.1.1");
}

#[test]
fn normalize_matches_backend_canonical_forms() {
    assert_eq!(RrType::Cname.normalize("target.example.com"), "target.example.com.");
    assert_eq!(RrType::Cname.normalize("target.example.com."), "target.example.com.");
    assert_eq!(RrType::Ns.normalize("ns1.example.com"), "ns1.example.com.");
    assert_eq!(RrType::Mx.normalize("10 mail.example.com"), "10 mail.example.com.");
    assert_eq!(RrType::Mx.normalize("10 mail.example.com."), "10 mail.example.com.");
    assert_eq!(RrType::Srv.normalize("5 0 5060 sip.example.com"), "5 0 5060 sip.example.com.");
    assert_eq!(RrType::Mx.normalize("10"), "10");
    assert_eq!(RrType::Txt.normalize("v=spf1 -all"), "\"v=spf1 -all\"");
    assert_eq!(RrType::Txt.normalize("\"v=spf1 -all\""), "\"v=spf1 -all\"");
    assert_eq!(RrType::A.normalize("1.1.1.1"), "1.1.1.1");
    assert_eq!(RrType::Cname.normalize("   "), "");
    assert_eq!(RrType::Txt.normalize(""), "");
}

#[test]
fn dns_find_rrset_matches_case_and_dot_insensitively() {
    let rrsets = vec![rrset("www.example.com.", "A", &[])];
    assert!(find_rrset(&rrsets, "www.example.com.", "a").is_some());
    assert!(find_rrset(&rrsets, "www.example.com", "A").is_some());
    assert!(find_rrset(&rrsets, "other.example.com.", "A").is_none());
    assert!(find_rrset(&rrsets, "www.example.com.", "TXT").is_none());
}

#[test]
fn mod_find_rrset_matches_case_and_dot_insensitively() {
    let rrsets = vec![rrset("www.example.com.", "A", &[])];
    assert!(find_rrset(&rrsets, "www.example.com.", "a").is_some());
    assert!(find_rrset(&rrsets, "www.example.com", "A").is_some());
    assert!(find_rrset(&rrsets, "other.example.com.", "A").is_none());
    assert!(find_rrset(&rrsets, "www.example.com.", "TXT").is_none());
}

#[test]
fn normalizing_twice_changes_nothing() {
    for (t, v) in [
        (RrType::Cname, "target.example.com"),
        (RrType::Mx, "10 mail.example.com"),
        (RrType::Txt, "v=spf1 -all"),
        (RrType::Srv, "5 0 5060 sip.example.com"),
    ] {
        let once = t.normalize(v);
        assert_eq!(t.normalize(&once), once);
    }
}

#[test]
fn fqdn_always_lands_in_the_zone() {
    for name in ["@", "", "www", "a.b", "WWW.EXAMPLE.COM.", "mail.example.com"] {
        let f = to_fqdn(name, "example.com");
        assert!(f == "example.com." || f.ends_with(".example.com."), "got {f}");
    }
}

#[test]
fn fqdn_is_lowercase_and_idempotent() {
    for name in ["@", "", "WWW", "Mail.Example.COM.", "a .", "example.com", "x.y"] {
        let f = to_fqdn(name, "Example.com.");
        assert_eq!(f, f.to_lowercase());
        assert_eq!(to_fqdn(&f, "Example.com."), f);
    }
}

#[test]
fn fqdn_relative_and_full_names_agree() {
    for x in ["www", "A.b", "mail-1"] {
        assert_eq!(to_fqdn(x, "Example.COM"), to_fqdn(&format!("{x}.example.com"), "Example.COM"));
    }
}

#[test]
fn add_posts_one_default_rrset_with_normalized_values() {
    let plan = plan_change(
        Op::Add,
        "www",
        RrType::Cname,
        &["target.example.com".to_string()],
        300,
        "example.com",
        &[],
    )
    .unwrap();
    assert_eq!(plan.posts.len(), 1);
    assert_eq!(plan.rr_type, "CNAME");
    assert_eq!(plan.posts[0].name, "www");
    assert_eq!(plan.posts[0].rr_type, "CNAME");
    assert_eq!(plan.posts[0].ttl, Some(300));
    assert!(plan.posts[0].change_type.is_none());
    assert_eq!(contents(&plan.posts[0]), vec!["target.example.com.".to_string()]);
    assert_eq!(plan.count, 1);
}

#[test]
fn set_reconciles_deletes_stale_then_writes_targets() {
    let current = vec![rrset("www.example.com.", "A", &["1.1.1.1", "3.3.3.3"])];
    let plan = plan_change(
        Op::Replace,
        "www",
        RrType::A,
        &["1.1.1.1".to_string(), "2.2.2.2".to_string()],
        300,
        "example.com",
        &current,
    )
    .unwrap();
    assert_eq!(plan.posts.len(), 2);
    assert!(plan.posts[0].change_type.is_some());
    assert_eq!(contents(&plan.posts[0]), vec!["3.3.3.3".to_string()]);
    assert!(plan.posts[1].change_type.is_none());
    assert_eq!(
        contents(&plan.posts[1]),
        vec!["1.1.1.1".to_string(), "2.2.2.2".to_string()]
    );
    assert_eq!(
        change_message(Lang::En, &plan, "www", "example.com"),
        "www A example.com: values set — 2."
    );
}

#[test]
fn set_without_existing_rrset_sends_no_delete() {
    let plan = plan_change(
        Op::Replace,
        "www",
        RrType::A,
        &["1.1.1.1".to_string()],
        300,
        "example.com",
        &[],
    )
    .unwrap();
    assert_eq!(plan.posts.len(), 1);
    assert!(plan.posts[0].change_type.is_none());
}

#[test]
fn remove_without_values_deletes_whole_rrset() {
    let current = vec![rrset("www.example.com.", "A", &["1.1.1.1", "2.2.2.2"])];
    let plan = plan_change(Op::Remove, "www", RrType::A, &[], 300, "example.com", &current).unwrap();
    assert_eq!(plan.posts.len(), 1);
    assert!(plan.posts[0].change_type.is_some());
    assert_eq!(
        contents(&plan.posts[0]),
        vec!["1.1.1.1".to_string(), "2.2.2.2".to_string()]
    );
    assert_eq!(plan.count, 2);
}

#[test]
fn remove_of_missing_rrset_is_record_not_found() {
    let err = plan_change(Op::Remove, "www", RrType::A, &[], 300, "example.com", &[])
        .err()
        .unwrap();
    assert_eq!(err, DnsChangeError::RecordNotFound);
    assert_eq!(err.message(Lang::En, "www", "A"), "record www A not found");
}

#[test]
fn remove_of_empty_rrset_is_nothing_to_delete() {
    let current = vec![rrset("www.example.com.", "A", &[])];
    let err = plan_change(Op::Remove, "www", RrType::A, &[], 300, "example.com", &current)
        .err()
        .unwrap();
    assert_eq!(err, DnsChangeError::NothingToDelete);
}

#[test]
fn short_mx_and_srv_values_pass_through_untouched() {
    assert_eq!(RrType::Srv.normalize("5  0 5060"), "5  0 5060");
    assert_eq!(RrType::Mx.normalize(" 10 "), "10");
    assert_eq!(normalize_content("SRV", "5  0\t5060"), "5  0\t5060");
    assert_eq!(
        RrType::Srv.normalize("5  0  5060  sip.example.com"),
        "5 0 5060 sip.example.com."
    );
}

#[test]
fn normalized_values_are_trimmed_and_blank_only_when_input_is() {
    for t in [RrType::Cname, RrType::Txt, RrType::Mx, RrType::Srv, RrType::A] {
        assert_eq!(t.normalize(" \t "), "");
        let n = t.normalize("  x  ");
        assert!(!n.is_empty());
        assert_eq!(n.trim(), n);
    }
}
