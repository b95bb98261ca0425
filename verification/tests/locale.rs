use webshield::i18n::locale::{choose_locale, locale_from_args, parse_locale_str, LocaleCode};

#[test]
fn codes_parse_case_insensitively() {
    assert_eq!(LocaleCode::from_code("RU").unwrap(), LocaleCode::Ru);
    assert_eq!(LocaleCode::from_code(" en ").unwrap(), LocaleCode::En);
    assert!(LocaleCode::from_code("klingon").is_err());
}

#[test]
fn parses_locales() {
    assert_eq!(parse_locale_str("ru_RU.UTF-8").as_deref(), Some("ru"));
    assert_eq!(parse_locale_str("en-US").as_deref(), Some("en"));
    assert_eq!(parse_locale_str("en_US").as_deref(), Some("en"));
    assert_eq!(parse_locale_str("fr").as_deref(), Some("fr"));
    assert_eq!(parse_locale_str("").as_deref(), None);
}

#[test]
fn unknown_code_is_reported_normalized() {
    let err = LocaleCode::from_code(" KLINGON ").err().unwrap();
    assert_eq!(err.0, "klingon");
}

#[test]
fn lang_flag_is_read_before_parsing() {
    let args = |v: &[&str]| v.iter().map(|s| s.to_string()).collect::<Vec<_>>();
    assert_eq!(locale_from_args(&args(&["webshield", "--lang", "ru", "dns"])), Some(LocaleCode::Ru));
    assert_eq!(locale_from_args(&args(&["webshield", "--lang=EN"])), Some(LocaleCode::En));
    assert_eq!(locale_from_args(&args(&["webshield", "--lang"])), None);
    assert_eq!(locale_from_args(&args(&["webshield", "--lang=fr"])), None);
    // Another argument starting with `--lang` ends the search.
    assert_eq!(locale_from_args(&args(&["webshield", "--language", "--lang", "ru"])), None);
}

#[test]
fn language_order_is_flag_env_config_system() {
    let (en, ru) = (LocaleCode::En, LocaleCode::Ru);
    assert_eq!(choose_locale(Some(ru), Some(en), Some(en), en), ru);
    assert_eq!(choose_locale(None, Some(ru), Some(en), en), ru);
    assert_eq!(choose_locale(None, None, Some(ru), en), ru);
    assert_eq!(choose_locale(None, None, None, ru), ru);
}
