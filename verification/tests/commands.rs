use webshield::api::models::domain::{DelegationCheck, DomainInner};
use webshield::api::models::hosts::{ExternalHost, HostCheck, HostRecord, HostRecords};
use webshield::api::models::proxy::{ProxyData, ProxyInfo};
use webshield::commands::domains::{delegation_report, domain_created, domain_needle, first_domain};
use webshield::commands::hosts::{
    dyndns_new_req, find_host, host_new_req, verify_outcome, HostMode, VerifyOutcome, DEFAULT_TTL,
};
use webshield::commands::proxy::{first_proxy, proxy_needle, proxy_set_action, proxy_set_message, ProxySetAction};
use webshield::commands::Level;
use webshield::i18n::{f, prescan_lang, resolve_with, tr, Lang, M};
use webshield::util::input::is_yes;

fn check(delegated: Option<bool>, current: &[&str], missing: &[&str], extra: &[&str]) -> DelegationCheck {
    let v = |s: &[&str]| s.iter().map(|x| x.to_string()).collect::<Vec<_>>();
    DelegationCheck {
        delegated,
        checked_at: None,
        current_ns: v(current),
        missing_ns: v(missing),
        extra_ns: v(extra),
        detail: None,
    }
}

fn record(name: &str) -> HostRecord {
    HostRecord { name: name.into(), rr_type: "CNAME".into(), value: "t.".into() }
}

fn host(name: &str, status: &str, cert: &str) -> ExternalHost {
    ExternalHost {
        id: 4,
        domain_id: 1,
        domain_name: "a.com".into(),
        hostname: name.into(),
        mode: "proxy".into(),
        status: status.into(),
        records: HostRecords {
            target: "edge.example.net".into(),
            ownership: record("_acme-challenge.x"),
            traffic: record("x"),
        },
        certificate_status: cert.into(),
        certificate_error: String::new(),
        traffic_ok: false,
        removal_at: None,
    }
}

fn proxy(name: &str, id: i64) -> ProxyData {
    ProxyData {
        id,
        hostname: name.into(),
        domain_name: "a.com".into(),
        inner: ProxyInfo {
            mode: None,
            redirect_target: None,
            ssl: None,
            bot_protection: None,
            captcha: None,
            http2: None,
            http3: None,
            max_body_mb: None,
            block_bots: None,
        },
        domain_id: 1,
    }
}

#[test]
fn delegated_domain_reports_success() {
    let r = delegation_report(Lang::En, "a.com", &check(Some(true), &[], &[], &[]));
    assert_eq!(r.len(), 1);
    assert_eq!(r[0].level, Level::Success);
    assert_eq!(r[0].text, "domain `a.com` is delegated to WebShield.");
}

#[test]
fn undelegated_domain_explains_the_name_servers() {
    let r = delegation_report(
        Lang::En,
        "a.com",
        &check(Some(false), &["ns1.x", "ns2.x"], &["ns1.ws"], &[]),
    );
    let levels: Vec<Level> = r.iter().map(|n| n.level).collect();
    assert_eq!(levels, vec![Level::Warn, Level::Info, Level::Warn, Level::Info]);
    assert_eq!(r[1].text, "current NS at the parent zone: ns1.x, ns2.x");
    assert_eq!(r[2].text, "WebShield nameservers are missing at the registrar: ns1.ws");

    let r = delegation_report(Lang::En, "a.com", &check(Some(false), &[], &[], &[]));
    assert_eq!(r.len(), 3);
    assert_eq!(r[1].text, "no NS delegation found in the parent zone.");

    let r = delegation_report(Lang::En, "a.com", &check(None, &[], &[], &[]));
    assert_eq!(r[0].text, "delegation status is unknown.");
}

#[test]
fn domain_lookup() {
    assert_eq!(domain_needle(" Example.COM.. "), "example.com");
    assert!(first_domain(Lang::En, "x.com", Vec::new()).is_err());
    let d = DomainInner { id: 7, name: "a.com".into(), delegated: None, current_tariff: None };
    assert_eq!(first_domain(Lang::En, "a.com", vec![d.clone()]).unwrap().id, 7);
    assert!(domain_created(Lang::En, &d).contains("a.com"));
}

#[test]
fn proxy_set_updates_an_existing_config_or_creates_one() {
    // The server's first answer to the hostname lookup is the config that is
    // updated, whatever hostname it carries.
    let configs = vec![proxy("a.a.com", 1), proxy("www.a.com", 3)];
    assert_eq!(proxy_set_action(&configs), ProxySetAction::Patch(1));
    assert_eq!(proxy_set_action(&Vec::new()), ProxySetAction::Create);
    assert_eq!(first_proxy(Lang::En, "www.a.com", configs).unwrap().id, 1);
    assert!(first_proxy(Lang::En, "gone.a.com", Vec::new()).unwrap_err().contains("gone.a.com"));
    assert_eq!(
        proxy_set_message(Lang::En, ProxySetAction::Create, "new.a.com"),
        "proxy config for `new.a.com` created."
    );
    assert_eq!(proxy_needle(" WWW.a.com "), "www.a.com");
}

#[test]
fn hosts_lookup_skips_removed_hosts() {
    let hosts = vec![host("x.a.com", "removed", ""), host("x.a.com", "active", "")];
    assert_eq!(find_host(&hosts, "x.a.com"), Some(1));
    assert_eq!(find_host(&hosts, "y.a.com"), None);
}

#[test]
fn verification_outcomes() {
    let h = host("x.a.com", "active", "issued");
    let c = |code: &str| Some(HostCheck { code: code.into(), detail: "found 1.2.3.4".into() });
    assert!(matches!(
        verify_outcome(&c("ok"), &h),
        VerifyOutcome::Verified { certificate_issued: true }
    ));
    assert!(matches!(
        verify_outcome(&c("ok"), &host("x", "active", "pending")),
        VerifyOutcome::Verified { certificate_issued: false }
    ));
    assert!(matches!(verify_outcome(&c("mismatch"), &h), VerifyOutcome::Mismatch(d) if d == "found 1.2.3.4"));
    assert!(matches!(verify_outcome(&c("error"), &h), VerifyOutcome::CheckError));
    assert!(matches!(verify_outcome(&None, &h), VerifyOutcome::Missing));
}

#[test]
fn creation_requests_fill_defaults() {
    let r = host_new_req(1, "x.a.com".into(), HostMode::Redirect, None, true, Some("https://t".into()));
    assert_eq!(r.mode, "redirect");
    assert_eq!(r.origin, "");
    assert!(!r.origin_ssl);
    assert_eq!(r.redirect_target, "https://t");
    let d = dyndns_new_req(1, "home.a.com".into(), DEFAULT_TTL, None);
    assert_eq!((d.ttl, d.comment.as_str()), (60, ""));
}

#[test]
fn confirmation_accepts_y_and_yes() {
    assert!(is_yes("y\n"));
    assert!(is_yes(" YES "));
    assert!(!is_yes("no"));
    assert!(!is_yes(""));
}

#[test]
fn messages_fill_placeholders() {
    assert_eq!(tr(Lang::En, M::Yes), "yes");
    assert_eq!(tr(Lang::Ru, M::Yes), "да");
    assert_eq!(
        f(Lang::En, M::DomainNotFound, &[("name", "a.com")]),
        "domain `a.com` not found among your domains"
    );
}

#[test]
fn language_flag_is_found_before_parsing() {
    let args = |v: &[&str]| v.iter().map(|s| s.to_string()).collect::<Vec<_>>();
    assert_eq!(prescan_lang(&args(&["webshield", "--lang", "ru", "domains"])).as_deref(), Some("ru"));
    assert_eq!(prescan_lang(&args(&["webshield", "--lang=en"])).as_deref(), Some("en"));
    assert_eq!(prescan_lang(&args(&["webshield", "domains"])), None);
    assert_eq!(resolve_with(Some("ru"), None, &[]), Lang::Ru);
    assert_eq!(resolve_with(None, Some("english"), &[]), Lang::En);
    assert_eq!(resolve_with(None, None, &[Some("ru_RU.UTF-8".into())]), Lang::Ru);
}
