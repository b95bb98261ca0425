use webshield::api::client::{api_base, join_url};
use webshield::commands::auth::{
    access_verdict, auth_status, has_token_prefix, login_message, login_token, logout_message,
    remove_token, store_login, AccessProbe, Tone,
};
use webshield::commands::Level;
use webshield::config::{Config, Profile};
use webshield::i18n::Lang;
use webshield::util::config::{Profile as ProfileV2, ProfileConfig};
use webshield::util::context::{client_settings, get_profile_name, no_token_message};

#[test]
fn config_active_profile_precedence() {
    let mut cfg = Config::default();
    assert_eq!(cfg.active_profile_name(None), "default");
    cfg.default_profile = Some("work".into());
    assert_eq!(cfg.active_profile_name(None), "work");
    assert_eq!(cfg.active_profile_name(Some("home")), "home");

    let mut cfg = ProfileConfig::default();
    assert_eq!(cfg.active_profile_name(None), "default");
    cfg.default_profile = Some("work".into());
    assert_eq!(cfg.active_profile_name(None), "work");
    assert_eq!(cfg.active_profile_name(Some("home")), "home");
}

#[test]
fn url_joins_base_and_path() {
    let base = api_base("https://example.com");
    assert_eq!(join_url(&base, "domains"), "https://example.com/api/v1/domains");
    let base = api_base("https://example.com/");
    assert_eq!(join_url(&base, "/domains"), "https://example.com/api/v1/domains");
}

#[test]
fn a_stored_profile_reads_back_and_leaves_others_alone() {
    let mut cfg = Config::default();
    cfg.set_profile("work".into(), Profile { api_url: "https://a".into(), token: None });
    cfg.set_profile("home".into(), Profile::default());
    cfg.set_profile(
        "work".into(),
        Profile { api_url: "https://b".into(), token: Some("wsk_1".into()) },
    );
    let work = cfg.profile("work").unwrap();
    assert_eq!(work.api_url, "https://b");
    assert_eq!(work.token.as_deref(), Some("wsk_1"));
    assert_eq!(cfg.profile("home").unwrap().api_url, "https://webshield.pro");
    assert!(cfg.profile("missing").is_none());
    assert_eq!(cfg.profiles.len(), 2);
}

#[test]
fn login_stores_the_token_and_sets_the_default_once() {
    let mut cfg = Config::default();
    store_login(&mut cfg, "work".into(), "https://x".into(), "wsk_a".into());
    assert_eq!(cfg.default_profile.as_deref(), Some("work"));
    store_login(&mut cfg, "home".into(), "https://y".into(), "wsk_b".into());
    assert_eq!(cfg.default_profile.as_deref(), Some("work"));
    assert_eq!(cfg.profile("home").unwrap().token.as_deref(), Some("wsk_b"));
    assert_eq!(login_token("  wsk_a \n"), "wsk_a");
    assert!(has_token_prefix("wsk_a"));
    assert!(!has_token_prefix("abc"));
}

#[test]
fn logout_removes_only_the_token() {
    let mut cfg = Config::default();
    store_login(&mut cfg, "work".into(), "https://x".into(), "wsk_a".into());
    assert!(remove_token(&mut cfg, "work"));
    let work = cfg.profile("work").unwrap();
    assert_eq!(work.api_url, "https://x");
    assert!(work.token.is_none());
    assert!(!remove_token(&mut cfg, "nope"));
    let (level, text) = logout_message(Lang::En, "nope", false);
    assert_eq!(level, Level::Info);
    assert_eq!(text, "profile `nope` not found — nothing to remove.");
}

#[test]
fn login_report_follows_the_check() {
    assert_eq!(login_message(Lang::En, "p", Ok(200)).0, Level::Success);
    assert_eq!(
        login_message(Lang::En, "p", Ok(403)).1,
        "token saved to profile `p` (valid, but narrow scopes)."
    );
    assert_eq!(
        login_message(Lang::En, "p", Ok(500)).1,
        "token saved, but the check returned HTTP 500."
    );
    assert_eq!(
        login_message(Lang::En, "p", Err("timeout".into())).1,
        "token saved, but the check failed: timeout"
    );
}

#[test]
fn access_verdicts() {
    assert_eq!(access_verdict(Lang::En, AccessProbe::Reached).0, Tone::Green);
    assert_eq!(access_verdict(Lang::En, AccessProbe::Status(401)).0, Tone::Red);
    assert_eq!(
        access_verdict(Lang::En, AccessProbe::Status(403)).1,
        "token valid, but no access to domains (403)"
    );
    assert_eq!(
        access_verdict(Lang::En, AccessProbe::Status(500)).1,
        "unexpected response HTTP Some(500)"
    );
    assert_eq!(
        access_verdict(Lang::En, AccessProbe::Failed).1,
        "unexpected response HTTP None"
    );
}

#[test]
fn client_settings_prefer_flags_then_profile_then_defaults() {
    let mut cfg = ProfileConfig::default();
    cfg.set_profile(
        "work".into(),
        ProfileV2 { api_url: Some("https://staging".into()), token: Some("wsk_p".into()) },
    );
    cfg.default_profile = Some("work".into());
    assert_eq!(get_profile_name(&cfg, None), "work");
    let s = client_settings(&cfg, None, None, None).unwrap();
    assert_eq!((s.api_url.as_str(), s.token.as_str()), ("https://staging", "wsk_p"));
    let s = client_settings(&cfg, None, Some("https://flag"), Some("wsk_f")).unwrap();
    assert_eq!((s.api_url.as_str(), s.token.as_str()), ("https://flag", "wsk_f"));
    let s = client_settings(&cfg, Some("other"), None, Some("wsk_f")).unwrap();
    assert_eq!(s.api_url, "https://webshield.pro");
    assert!(client_settings(&cfg, Some("other"), None, None).is_none());
    assert!(no_token_message(Lang::En, "Some(\"other\")").starts_with("no token for profile"));
}

#[test]
fn status_takes_flags_then_the_profile_then_the_default() {
    let mut cfg = Config::default();
    let st = auth_status(&cfg, None, None, None);
    assert_eq!(st.name, "default");
    assert_eq!(st.api_url, "https://webshield.pro");
    assert!(st.token.is_none());
    store_login(&mut cfg, "work".into(), "https://x".into(), "wsk_a".into());
    let st = auth_status(&cfg, None, None, None);
    assert_eq!(st.name, "work");
    assert_eq!(st.api_url, "https://x");
    assert_eq!(st.token.as_deref(), Some("wsk_a"));
    let st = auth_status(&cfg, Some("work"), Some("https://flag"), Some("wsk_f"));
    assert_eq!(st.api_url, "https://flag");
    assert_eq!(st.token.as_deref(), Some("wsk_f"));
    let st = auth_status(&cfg, Some("other"), None, None);
    assert_eq!(st.api_url, "https://webshield.pro");
    assert!(st.token.is_none());
}
