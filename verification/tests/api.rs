use webshield::api::error::{extract_detail, flatten_errors, http_error, http_error_message, is_success, JsonMember, JsonValue};
use webshield::api::models::dns::DNSDomainRecords;
use webshield::api::models::domain::{DomainInner, DomainList, ResolveDomains, Tariff};
use webshield::api::models::dyndns::{dyndns_row, dyndns_token_row, DynDnsHost, DynDnsHosts};
use webshield::api::models::proxy::{Proxies, ProxyData, ProxyInfo};
use webshield::api::models::sites::{FilesResponseSite, ServerFileSite, SiteGet, Sites};
use webshield::api::models::stats::StatDomains;
use webshield::api::request_desc::{HttpMethod, RequestDesc};
use webshield::api::table::DisplayTable;
use webshield::i18n::Lang;

fn convert(v: &serde_json::Value) -> JsonValue {
    match v {
        serde_json::Value::Null => JsonValue::Null,
        serde_json::Value::Bool(b) => JsonValue::Bool(*b),
        serde_json::Value::Number(n) => JsonValue::Number(n.to_string()),
        serde_json::Value::String(s) => JsonValue::Str(s.clone()),
        serde_json::Value::Array(a) => JsonValue::Array(a.iter().map(convert).collect()),
        serde_json::Value::Object(o) => JsonValue::Object(
            o.iter()
                .map(|(k, x)| JsonMember { key: k.clone(), value: convert(x) })
                .collect(),
        ),
    }
}

fn detail(body: &str) -> Option<String> {
    let parsed = serde_json::from_str::<serde_json::Value>(body).ok().map(|v| convert(&v));
    extract_detail(&parsed)
}

#[test]
fn extract_detail_reads_drf_detail() {
    assert_eq!(detail(r#"{"detail": "Not found."}"#), Some("Not found.".to_string()));
}

#[test]
fn extract_detail_joins_field_errors() {
    let got = detail(r#"{"name": ["This field is required.", "Too short."]}"#);
    assert_eq!(got, Some("name: This field is required.; Too short.".to_string()));
}

#[test]
fn extract_detail_unwraps_nested_serializer_errors() {
    let got = detail(
        r#"{"rrsets": [{}, {"non_field_errors": ["For CNAME/NS/PTR the target must be a FQDN ending with a dot."]}]}"#,
    );
    assert_eq!(
        got,
        Some("rrsets: For CNAME/NS/PTR the target must be a FQDN ending with a dot.".to_string())
    );
}

#[test]
fn extract_detail_ignores_non_json() {
    assert_eq!(detail("<html>502</html>"), None);
    assert_eq!(detail("{}"), None);
}

#[test]
fn field_errors_of_several_fields_are_joined_with_bars() {
    assert_eq!(
        detail(r#"{"a": "x", "b": [1, true, null], "c": []}"#),
        Some("a: x | b: 1; true".to_string())
    );
    assert_eq!(flatten_errors(&JsonValue::Null), "");
}

#[test]
fn http_errors_read_like_the_status() {
    let e = http_error(401, "raw".into(), &None);
    assert_eq!(
        e.message(Lang::En),
        "401 Unauthorized: raw\ncheck the token (`webshield auth status`)."
    );
    let parsed = Some(JsonValue::Object(vec![JsonMember {
        key: "detail".into(),
        value: JsonValue::Str("Not found.".into()),
    }]));
    let e = http_error(404, "{..}".into(), &parsed);
    assert_eq!(e.detail, "Not found.");
    assert_eq!(e.message(Lang::En), "404 Not Found: Not found.");
    assert!(is_success(204));
    assert!(!is_success(302));
}

#[test]
fn http_error_text_from_a_given_phrase() {
    assert_eq!(http_error_message(502, "down", Some("Bad Gateway".into()), Lang::En), "502 Bad Gateway: down");
    assert_eq!(http_error_message(599, "x", None, Lang::En), "599 : x");
    assert_eq!(
        http_error_message(403, "no", Some("ignored".into()), Lang::En),
        "403 Forbidden: no\nthe token may lack the required scope or be bound to another domain/site."
    );
    // A status outside the standard range has no phrase.
    assert_eq!(http_error(1000, "b".into(), &None).message(Lang::En), "1000 : b");
}

#[test]
fn endpoint_paths() {
    assert_eq!(DNSDomainRecords::get_url(7), "domains/7/records");
    assert_eq!(ResolveDomains::get_url("example.com".into()), "domains?name=example.com");
    assert_eq!(Sites::get_url(2), "static-sites?page=2");
    assert_eq!(SiteGet::get_url(5), "static-sites/5");
    assert_eq!(DynDnsHosts::get_url(Some(3)), "dyndns/hosts?domain=3");
    assert_eq!(DynDnsHosts::get_url(None), "dyndns/hosts");
    assert_eq!(StatDomains::get_url((4, "24h".into())), "domains/4/stats?range=24h&step=2h");
    assert_eq!(SiteGet::method(), HttpMethod::Get);
}

#[test]
fn tables_render_rows() {
    let list = DomainList {
        results: vec![
            DomainInner { id: 1, name: "a.com".into(), delegated: Some(true), current_tariff: None },
            DomainInner {
                id: 2,
                name: "b.com".into(),
                delegated: None,
                current_tariff: Some(Tariff { name: "Pro".into() }),
            },
        ],
    };
    let rows = list.rows(Lang::En);
    assert_eq!(rows.len(), 2);
    assert_eq!(rows[0][0], "1");
    assert_eq!(rows[1][3], "Pro");
    assert_eq!(list.headers(Lang::En).len(), 4);

    let files = FilesResponseSite {
        files: vec![
            ServerFileSite { path: "dir".into(), etag: None, is_dir: true },
            ServerFileSite { path: "a.txt".into(), etag: Some("e1".into()), is_dir: false },
            ServerFileSite { path: "b.txt".into(), etag: None, is_dir: false },
        ],
    };
    assert_eq!(
        files.rows(Lang::En),
        vec![vec!["a.txt".to_string(), "e1".to_string()], vec!["b.txt".to_string(), String::new()]]
    );

    let info = ProxyInfo {
        mode: Some("proxy".into()),
        redirect_target: None,
        ssl: Some(true),
        bot_protection: Some(false),
        captcha: None,
        http2: None,
        http3: None,
        max_body_mb: None,
        block_bots: None,
    };
    let proxies = Proxies::from(vec![ProxyData {
        id: 9,
        hostname: "h.a.com".into(),
        domain_name: "a.com".into(),
        inner: info,
        domain_id: 1,
    }]);
    let rows = proxies.rows(Lang::En);
    assert_eq!(rows[0][4], "yes");
    assert_eq!(rows[0][5], "");
    assert_eq!(proxies.into_inner().len(), 1);
}

#[test]
fn dyndns_rows_show_addresses_or_the_fresh_token() {
    let mut h = DynDnsHost {
        id: 3,
        hostname: "home.a.com".into(),
        enabled: true,
        ttl: 60,
        comment: String::new(),
        token_prefix: "abc".into(),
        last_ipv4: Some("1.2.3.4".into()),
        last_ipv6: Some("::1".into()),
        last_update_at: None,
        updates_count: 0,
        token: None,
    };
    assert_eq!(
        dyndns_row(&h),
        vec!["3", "home.a.com", "1.2.3.4, ::1", "60", ""]
            .into_iter()
            .map(String::from)
            .collect::<Vec<_>>()
    );
    assert!(dyndns_token_row(&h).is_none());
    h.token = Some("secret".into());
    assert_eq!(dyndns_token_row(&h).unwrap(), vec!["home.a.com".to_string(), "secret".to_string()]);
}
