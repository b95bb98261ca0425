//! The `{name}` placeholders of the message texts.
use crate::i18n::M;
use vstd::prelude::*;

verus! {

/// `s` holds the placeholder `{w}` at position `i`: an opening brace, the name
/// `w` (without braces) and a closing brace.
pub open spec fn hole_at(s: Seq<char>, i: int, w: Seq<char>) -> bool {
    &&& 0 <= i
    &&& i + w.len() + 1 < s.len()
    &&& s[i] == '{'
    &&& s[i + w.len() + 1] == '}'
    &&& forall|k: int| 0 <= k < w.len() ==> s[i + 1 + k] == #[trigger] w[k] && w[k] != '{' && w[k] != '}'
}

/// The names of the placeholders of `s`.
pub open spec fn holes(s: Seq<char>) -> Set<Seq<char>> {
    Set::new(|w: Seq<char>| exists|i: int| hole_at(s, i, w))
}

/// `i` is one of the positions `ps`.
pub open spec fn listed(ps: Seq<int>, i: int) -> bool
    decreases ps.len(),
{
    ps.len() > 0 && (ps.last() == i || listed(ps.drop_last(), i))
}

proof fn lemma_listed(ps: Seq<int>, i: int)
    requires
        listed(ps, i),
    ensures
        exists|k: int| 0 <= k < ps.len() && ps[k] == i,
    decreases ps.len(),
{
    if ps.last() != i {
        lemma_listed(ps.drop_last(), i);
        let k = choose|k: int| 0 <= k < ps.drop_last().len() && ps.drop_last()[k] == i;
        assert(ps[k] == i);
    }
}

/// A placeholder position has one name: the text up to the next closing brace.
proof fn lemma_hole_unique(s: Seq<char>, i: int, w: Seq<char>, v: Seq<char>)
    requires
        hole_at(s, i, w),
        hole_at(s, i, v),
    ensures
        w == v,
{
    if w.len() < v.len() {
        assert(v[w.len() as int] == s[i + 1 + w.len()]);
    } else if v.len() < w.len() {
        assert(w[v.len() as int] == s[i + 1 + v.len()]);
    }
    assert(w =~= v);
}

/// The placeholders of `s` are `names`, found at `ps`, when every opening brace
/// of `s` is at one of the positions `ps`.
pub proof fn lemma_holes_listed(s: Seq<char>, ps: Seq<int>, names: Seq<Seq<char>>)
    requires
        ps.len() == names.len(),
        forall|k: int| 0 <= k < ps.len() ==> hole_at(s, #[trigger] ps[k], names[k]),
        forall|i: int| 0 <= i < s.len() && s[i] == '{' ==> listed(ps, i),
    ensures
        holes(s) == names.to_set(),
{
    assert forall|w: Seq<char>| holes(s).contains(w) implies names.to_set().contains(w) by {
        let i = choose|i: int| hole_at(s, i, w);
        lemma_listed(ps, i);
        let k = choose|k: int| 0 <= k < ps.len() && ps[k] == i;
        lemma_hole_unique(s, i, w, names[k]);
        assert(names[k] == w);
    }
    assert forall|w: Seq<char>| names.to_set().contains(w) implies holes(s).contains(w) by {
        let k = choose|k: int| 0 <= k < names.len() && names[k] == w;
        assert(hole_at(s, ps[k], w));
    }
    assert(holes(s) =~= names.to_set());
}

/// Every message has an English and a Russian text, neither empty, and both
/// carry the same placeholder names, so that filling one language fills the
/// other alike.
pub proof fn law_message_placeholders(m: M)
    ensures
        m.en().len() > 0,
        m.ru().len() > 0,
        holes(m.en()) == holes(m.ru()),
{
    match m {
        M::AppAbout => placeholders_app_about(),
        M::CmdAuth => placeholders_cmd_auth(),
        M::CmdDomains => placeholders_cmd_domains(),
        M::CmdDns => placeholders_cmd_dns(),
        M::CmdSites => placeholders_cmd_sites(),
        M::CmdProxy => placeholders_cmd_proxy(),
        M::CmdStats => placeholders_cmd_stats(),
        M::CmdBilling => placeholders_cmd_billing(),
        M::CmdCompletion => placeholders_cmd_completion(),
        M::Yes => placeholders_yes(),
        M::No => placeholders_no(),
        M::Dash => placeholders_dash(),
        M::Empty => placeholders_empty(),
        M::HValue => placeholders_h_value(),
        M::ErrorPrefix => placeholders_error_prefix(),
        M::ConfirmSuffix => placeholders_confirm_suffix(),
        M::ConfirmCancelled => placeholders_confirm_cancelled(),
        M::TokenPrompt => placeholders_token_prompt(),
        M::TokenWarnPrefix => placeholders_token_warn_prefix(),
        M::LblProfile => placeholders_lbl_profile(),
        M::LblApiUrl => placeholders_lbl_api_url(),
        M::LblToken => placeholders_lbl_token(),
        M::LblAccess => placeholders_lbl_access(),
        M::LblLang => placeholders_lbl_lang(),
        M::TokenSet => placeholders_token_set(),
        M::TokenUnset => placeholders_token_unset(),
        M::LoginHint => placeholders_login_hint(),
        M::TokenSavedOk => placeholders_token_saved_ok(),
        M::TokenSavedScoped => placeholders_token_saved_scoped(),
        M::TokenSavedCode => placeholders_token_saved_code(),
        M::TokenSavedProbeFail => placeholders_token_saved_probe_fail(),
        M::TokenRemoved => placeholders_token_removed(),
        M::ProfileNotFound => placeholders_profile_not_found(),
        M::AccessOk => placeholders_access_ok(),
        M::AccessInvalid => placeholders_access_invalid(),
        M::AccessForbidden => placeholders_access_forbidden(),
        M::AccessUnexpected => placeholders_access_unexpected(),
        M::NoToken => placeholders_no_token(),
        M::HId => placeholders_h_id(),
        M::HDomain => placeholders_h_domain(),
        M::HDelegated => placeholders_h_delegated(),
        M::HTariff => placeholders_h_tariff(),
        M::DomainCreated => placeholders_domain_created(),
        M::DomainDeleted => placeholders_domain_deleted(),
        M::DomainNotFound => placeholders_domain_not_found(),
        M::ConfirmDeleteDomain => placeholders_confirm_delete_domain(),
        M::DelegationOk => placeholders_delegation_ok(),
        M::DelegationNotDelegated => placeholders_delegation_not_delegated(),
        M::DelegationCurrentNs => placeholders_delegation_current_ns(),
        M::DelegationMissingNs => placeholders_delegation_missing_ns(),
        M::DelegationExtraNs => placeholders_delegation_extra_ns(),
        M::DelegationNoNs => placeholders_delegation_no_ns(),
        M::DelegationUnknown => placeholders_delegation_unknown(),
        M::DelegationPropagationNote => placeholders_delegation_propagation_note(),
        M::HName => placeholders_h_name(),
        M::HType => placeholders_h_type(),
        M::HTtl => placeholders_h_ttl(),
        M::HProxy => placeholders_h_proxy(),
        M::HValues => placeholders_h_values(),
        M::DnsAdded => placeholders_dns_added(),
        M::DnsSet => placeholders_dns_set(),
        M::DnsRemoved => placeholders_dns_removed(),
        M::RecordNotFound => placeholders_record_not_found(),
        M::NothingToDelete => placeholders_nothing_to_delete(),
        M::HHost => placeholders_h_host(),
        M::HStatus => placeholders_h_status(),
        M::HVersion => placeholders_h_version(),
        M::HSize => placeholders_h_size(),
        M::HPath => placeholders_h_path(),
        M::HEtag => placeholders_h_etag(),
        M::SiteCreated => placeholders_site_created(),
        M::SiteDisabled => placeholders_site_disabled(),
        M::PublishSummary => placeholders_publish_summary(),
        M::PublishNoChanges => placeholders_publish_no_changes(),
        M::PublishDryRun => placeholders_publish_dry_run(),
        M::Published => placeholders_published(),
        M::BucketPublishStarted => placeholders_bucket_publish_started(),
        M::BucketPublished => placeholders_bucket_published(),
        M::BucketPublishFailed => placeholders_bucket_publish_failed(),
        M::BucketPublishTimeout => placeholders_bucket_publish_timeout(),
        M::DeletedFiles => placeholders_deleted_files(),
        M::UploadBar => placeholders_upload_bar(),
        M::NotFoundSite => placeholders_not_found_site(),
        M::PublishNeedsSiteRef => placeholders_publish_needs_site_ref(),
        M::NotADir => placeholders_not_a_dir(),
        M::DirNotFound => placeholders_dir_not_found(),
        M::HMode => placeholders_h_mode(),
        M::HTarget => placeholders_h_target(),
        M::HSsl => placeholders_h_ssl(),
        M::HBotProt => placeholders_h_bot_prot(),
        M::ProxyCreated => placeholders_proxy_created(),
        M::ProxyUpdated => placeholders_proxy_updated(),
        M::ProxyRemoved => placeholders_proxy_removed(),
        M::ConfirmRemoveProxy => placeholders_confirm_remove_proxy(),
        M::NotFoundProxy => placeholders_not_found_proxy(),
        M::HCurrency => placeholders_h_currency(),
        M::HBalance => placeholders_h_balance(),
        M::HMetric => placeholders_h_metric(),
        M::HIp => placeholders_h_ip(),
        M::HReason => placeholders_h_reason(),
        M::HLastSeen => placeholders_h_last_seen(),
        M::HRequests => placeholders_h_requests(),
        M::NoBans => placeholders_no_bans(),
        M::ErrNetwork => placeholders_err_network(),
        M::ErrParse => placeholders_err_parse(),
        M::ErrUnauthorized => placeholders_err_unauthorized(),
        M::ErrForbidden => placeholders_err_forbidden(),
    }
}

// One lemma per message: both texts revealed, with the positions and names of
// their placeholders.

proof fn placeholders_app_about()
    ensures
        M::AppAbout.en().len() > 0,
        M::AppAbout.ru().len() > 0,
        holes(M::AppAbout.en()) == holes(M::AppAbout.ru()),
{
    reveal_strlit("WebShield command-line client");
    reveal_strlit("Клиент командной строки WebShield");
    lemma_holes_listed(M::AppAbout.en(), seq![], seq![]);
    lemma_holes_listed(M::AppAbout.ru(), seq![], seq![]);
}

proof fn placeholders_cmd_auth()
    ensures
        M::CmdAuth.en().len() > 0,
        M::CmdAuth.ru().len() > 0,
        holes(M::CmdAuth.en()) == holes(M::CmdAuth.ru()),
{
    reveal_strlit("Authentication and profiles");
    reveal_strlit("Аутентификация и профили");
    lemma_holes_listed(M::CmdAuth.en(), seq![], seq![]);
    lemma_holes_listed(M::CmdAuth.ru(), seq![], seq![]);
}

proof fn placeholders_cmd_domains()
    ensures
        M::CmdDomains.en().len() > 0,
        M::CmdDomains.ru().len() > 0,
        holes(M::CmdDomains.en()) == holes(M::CmdDomains.ru()),
{
    reveal_strlit("Domains (zones)");
    reveal_strlit("Домены (зоны)");
    lemma_holes_listed(M::CmdDomains.en(), seq![], seq![]);
    lemma_holes_listed(M::CmdDomains.ru(), seq![], seq![]);
}

proof fn placeholders_cmd_dns()
    ensures
        M::CmdDns.en().len() > 0,
        M::CmdDns.ru().len() > 0,
        holes(M::CmdDns.en()) == holes(M::CmdDns.ru()),
{
    reveal_strlit("DNS records");
    reveal_strlit("DNS-записи домена");
    lemma_holes_listed(M::CmdDns.en(), seq![], seq![]);
    lemma_holes_listed(M::CmdDns.ru(), seq![], seq![]);
}

proof fn placeholders_cmd_sites()
    ensures
        M::CmdSites.en().len() > 0,
        M::CmdSites.ru().len() > 0,
        holes(M::CmdSites.en()) == holes(M::CmdSites.ru()),
{
    reveal_strlit("Static sites and publishing");
    reveal_strlit("Статические сайты и публикация");
    lemma_holes_listed(M::CmdSites.en(), seq![], seq![]);
    lemma_holes_listed(M::CmdSites.ru(), seq![], seq![]);
}

proof fn placeholders_cmd_proxy()
    ensures
        M::CmdProxy.en().len() > 0,
        M::CmdProxy.ru().len() > 0,
        holes(M::CmdProxy.en()) == holes(M::CmdProxy.ru()),
{
    reveal_strlit("Proxy/redirect host edge settings");
    reveal_strlit("Edge-настройки прокси/редиректов");
    lemma_holes_listed(M::CmdProxy.en(), seq![], seq![]);
    lemma_holes_listed(M::CmdProxy.ru(), seq![], seq![]);
}

proof fn placeholders_cmd_stats()
    ensures
        M::CmdStats.en().len() > 0,
        M::CmdStats.ru().len() > 0,
        holes(M::CmdStats.en()) == holes(M::CmdStats.ru()),
{
    reveal_strlit("Statistics and protection");
    reveal_strlit("Статистика и защита");
    lemma_holes_listed(M::CmdStats.en(), seq![], seq![]);
    lemma_holes_listed(M::CmdStats.ru(), seq![], seq![]);
}

proof fn placeholders_cmd_billing()
    ensures
        M::CmdBilling.en().len() > 0,
        M::CmdBilling.ru().len() > 0,
        holes(M::CmdBilling.en()) == holes(M::CmdBilling.ru()),
{
    reveal_strlit("Billing (balance, usage, tariffs)");
    reveal_strlit("Биллинг (баланс, трафик, тарифы)");
    lemma_holes_listed(M::CmdBilling.en(), seq![], seq![]);
    lemma_holes_listed(M::CmdBilling.ru(), seq![], seq![]);
}

proof fn placeholders_cmd_completion()
    ensures
        M::CmdCompletion.en().len() > 0,
        M::CmdCompletion.ru().len() > 0,
        holes(M::CmdCompletion.en()) == holes(M::CmdCompletion.ru()),
{
    reveal_strlit("Generate a shell completion script");
    reveal_strlit("Скрипт автодополнения для оболочки");
    lemma_holes_listed(M::CmdCompletion.en(), seq![], seq![]);
    lemma_holes_listed(M::CmdCompletion.ru(), seq![], seq![]);
}

proof fn placeholders_yes()
    ensures
        M::Yes.en().len() > 0,
        M::Yes.ru().len() > 0,
        holes(M::Yes.en()) == holes(M::Yes.ru()),
{
    reveal_strlit("yes");
    reveal_strlit("да");
    lemma_holes_listed(M::Yes.en(), seq![], seq![]);
    lemma_holes_listed(M::Yes.ru(), seq![], seq![]);
}

proof fn placeholders_no()
    ensures
        M::No.en().len() > 0,
        M::No.ru().len() > 0,
        holes(M::No.en()) == holes(M::No.ru()),
{
    reveal_strlit("no");
    reveal_strlit("нет");
    lemma_holes_listed(M::No.en(), seq![], seq![]);
    lemma_holes_listed(M::No.ru(), seq![], seq![]);
}

proof fn placeholders_dash()
    ensures
        M::Dash.en().len() > 0,
        M::Dash.ru().len() > 0,
        holes(M::Dash.en()) == holes(M::Dash.ru()),
{
    reveal_strlit("—");
    reveal_strlit("—");
    lemma_holes_listed(M::Dash.en(), seq![], seq![]);
    lemma_holes_listed(M::Dash.ru(), seq![], seq![]);
}

proof fn placeholders_empty()
    ensures
        M::Empty.en().len() > 0,
        M::Empty.ru().len() > 0,
        holes(M::Empty.en()) == holes(M::Empty.ru()),
{
    reveal_strlit("— empty —");
    reveal_strlit("— пусто —");
    lemma_holes_listed(M::Empty.en(), seq![], seq![]);
    lemma_holes_listed(M::Empty.ru(), seq![], seq![]);
}

proof fn placeholders_h_value()
    ensures
        M::HValue.en().len() > 0,
        M::HValue.ru().len() > 0,
        holes(M::HValue.en()) == holes(M::HValue.ru()),
{
    reveal_strlit("Value");
    reveal_strlit("Значение");
    lemma_holes_listed(M::HValue.en(), seq![], seq![]);
    lemma_holes_listed(M::HValue.ru(), seq![], seq![]);
}

proof fn placeholders_error_prefix()
    ensures
        M::ErrorPrefix.en().len() > 0,
        M::ErrorPrefix.ru().len() > 0,
        holes(M::ErrorPrefix.en()) == holes(M::ErrorPrefix.ru()),
{
    reveal_strlit("error:");
    reveal_strlit("ошибка:");
    lemma_holes_listed(M::ErrorPrefix.en(), seq![], seq![]);
    lemma_holes_listed(M::ErrorPrefix.ru(), seq![], seq![]);
}

proof fn placeholders_confirm_suffix()
    ensures
        M::ConfirmSuffix.en().len() > 0,
        M::ConfirmSuffix.ru().len() > 0,
        holes(M::ConfirmSuffix.en()) == holes(M::ConfirmSuffix.ru()),
{
    reveal_strlit("[y/N]");
    reveal_strlit("[y/N]");
    lemma_holes_listed(M::ConfirmSuffix.en(), seq![], seq![]);
    lemma_holes_listed(M::ConfirmSuffix.ru(), seq![], seq![]);
}

proof fn placeholders_confirm_cancelled()
    ensures
        M::ConfirmCancelled.en().len() > 0,
        M::ConfirmCancelled.ru().len() > 0,
        holes(M::ConfirmCancelled.en()) == holes(M::ConfirmCancelled.ru()),
{
    reveal_strlit("cancelled by user");
    reveal_strlit("отменено пользователем");
    lemma_holes_listed(M::ConfirmCancelled.en(), seq![], seq![]);
    lemma_holes_listed(M::ConfirmCancelled.ru(), seq![], seq![]);
}

proof fn placeholders_token_prompt()
    ensures
        M::TokenPrompt.en().len() > 0,
        M::TokenPrompt.ru().len() > 0,
        holes(M::TokenPrompt.en()) == holes(M::TokenPrompt.ru()),
{
    reveal_strlit("Token wsk_…: ");
    reveal_strlit("Токен wsk_…: ");
    lemma_holes_listed(M::TokenPrompt.en(), seq![], seq![]);
    lemma_holes_listed(M::TokenPrompt.ru(), seq![], seq![]);
}

proof fn placeholders_token_warn_prefix()
    ensures
        M::TokenWarnPrefix.en().len() > 0,
        M::TokenWarnPrefix.ru().len() > 0,
        holes(M::TokenWarnPrefix.en()) == holes(M::TokenWarnPrefix.ru()),
{
    reveal_strlit("warning: a token usually starts with `wsk_`.");
    reveal_strlit("предупреждение: токен обычно начинается с `wsk_`.");
    lemma_holes_listed(M::TokenWarnPrefix.en(), seq![], seq![]);
    lemma_holes_listed(M::TokenWarnPrefix.ru(), seq![], seq![]);
}

proof fn placeholders_lbl_profile()
    ensures
        M::LblProfile.en().len() > 0,
        M::LblProfile.ru().len() > 0,
        holes(M::LblProfile.en()) == holes(M::LblProfile.ru()),
{
    reveal_strlit("Profile:");
    reveal_strlit("Профиль: ");
    lemma_holes_listed(M::LblProfile.en(), seq![], seq![]);
    lemma_holes_listed(M::LblProfile.ru(), seq![], seq![]);
}

proof fn placeholders_lbl_api_url()
    ensures
        M::LblApiUrl.en().len() > 0,
        M::LblApiUrl.ru().len() > 0,
        holes(M::LblApiUrl.en()) == holes(M::LblApiUrl.ru()),
{
    reveal_strlit("API URL:");
    reveal_strlit("API URL: ");
    lemma_holes_listed(M::LblApiUrl.en(), seq![], seq![]);
    lemma_holes_listed(M::LblApiUrl.ru(), seq![], seq![]);
}

proof fn placeholders_lbl_token()
    ensures
        M::LblToken.en().len() > 0,
        M::LblToken.ru().len() > 0,
        holes(M::LblToken.en()) == holes(M::LblToken.ru()),
{
    reveal_strlit("Token:  ");
    reveal_strlit("Токен:   ");
    lemma_holes_listed(M::LblToken.en(), seq![], seq![]);
    lemma_holes_listed(M::LblToken.ru(), seq![], seq![]);
}

proof fn placeholders_lbl_access()
    ensures
        M::LblAccess.en().len() > 0,
        M::LblAccess.ru().len() > 0,
        holes(M::LblAccess.en()) == holes(M::LblAccess.ru()),
{
    reveal_strlit("Access: ");
    reveal_strlit("Доступ:  ");
    lemma_holes_listed(M::LblAccess.en(), seq![], seq![]);
    lemma_holes_listed(M::LblAccess.ru(), seq![], seq![]);
}

proof fn placeholders_lbl_lang()
    ensures
        M::LblLang.en().len() > 0,
        M::LblLang.ru().len() > 0,
        holes(M::LblLang.en()) == holes(M::LblLang.ru()),
{
    reveal_strlit("Language:");
    reveal_strlit("Язык:    ");
    lemma_holes_listed(M::LblLang.en(), seq![], seq![]);
    lemma_holes_listed(M::LblLang.ru(), seq![], seq![]);
}

proof fn placeholders_token_set()
    ensures
        M::TokenSet.en().len() > 0,
        M::TokenSet.ru().len() > 0,
        holes(M::TokenSet.en()) == holes(M::TokenSet.ru()),
{
    reveal_strlit("set");
    reveal_strlit("задан");
    lemma_holes_listed(M::TokenSet.en(), seq![], seq![]);
    lemma_holes_listed(M::TokenSet.ru(), seq![], seq![]);
}

proof fn placeholders_token_unset()
    ensures
        M::TokenUnset.en().len() > 0,
        M::TokenUnset.ru().len() > 0,
        holes(M::TokenUnset.en()) == holes(M::TokenUnset.ru()),
{
    reveal_strlit("not set");
    reveal_strlit("не задан");
    lemma_holes_listed(M::TokenUnset.en(), seq![], seq![]);
    lemma_holes_listed(M::TokenUnset.ru(), seq![], seq![]);
}

proof fn placeholders_login_hint()
    ensures
        M::LoginHint.en().len() > 0,
        M::LoginHint.ru().len() > 0,
        holes(M::LoginHint.en()) == holes(M::LoginHint.ru()),
{
    reveal_strlit("Run `webshield auth login` to store a token.");
    reveal_strlit("Выполните `webshield auth login`, чтобы сохранить токен.");
    lemma_holes_listed(M::LoginHint.en(), seq![], seq![]);
    lemma_holes_listed(M::LoginHint.ru(), seq![], seq![]);
}

proof fn placeholders_token_saved_ok()
    ensures
        M::TokenSavedOk.en().len() > 0,
        M::TokenSavedOk.ru().len() > 0,
        holes(M::TokenSavedOk.en()) == holes(M::TokenSavedOk.ru()),
{
    reveal_strlit("token saved to profile `{profile}`, access confirmed.");
    reveal_strlit("токен сохранён в профиль `{profile}`, доступ подтверждён.");
    reveal_strlit("profile");
    reveal_with_fuel(listed, 2);
    lemma_holes_listed(M::TokenSavedOk.en(), seq![24], seq!["profile"@]);
    lemma_holes_listed(M::TokenSavedOk.ru(), seq![26], seq!["profile"@]);
}

proof fn placeholders_token_saved_scoped()
    ensures
        M::TokenSavedScoped.en().len() > 0,
        M::TokenSavedScoped.ru().len() > 0,
        holes(M::TokenSavedScoped.en()) == holes(M::TokenSavedScoped.ru()),
{
    reveal_strlit("token saved to profile `{profile}` (valid, but narrow scopes).");
    reveal_strlit("токен сохранён в профиль `{profile}` (валиден, но со суженными скоупами).");
    reveal_strlit("profile");
    reveal_with_fuel(listed, 2);
    lemma_holes_listed(M::TokenSavedScoped.en(), seq![24], seq!["profile"@]);
    lemma_holes_listed(M::TokenSavedScoped.ru(), seq![26], seq!["profile"@]);
}

proof fn placeholders_token_saved_code()
    ensures
        M::TokenSavedCode.en().len() > 0,
        M::TokenSavedCode.ru().len() > 0,
        holes(M::TokenSavedCode.en()) == holes(M::TokenSavedCode.ru()),
{
    reveal_strlit("token saved, but the check returned HTTP {code}.");
    reveal_strlit("токен сохранён, но проверка вернула HTTP {code}.");
    reveal_strlit("code");
    reveal_with_fuel(listed, 2);
    lemma_holes_listed(M::TokenSavedCode.en(), seq![41], seq!["code"@]);
    lemma_holes_listed(M::TokenSavedCode.ru(), seq![41], seq!["code"@]);
}

proof fn placeholders_token_saved_probe_fail()
    ensures
        M::TokenSavedProbeFail.en().len() > 0,
        M::TokenSavedProbeFail.ru().len() > 0,
        holes(M::TokenSavedProbeFail.en()) == holes(M::TokenSavedProbeFail.ru()),
{
    reveal_strlit("token saved, but the check failed: {err}");
    reveal_strlit("токен сохранён, но проверка не удалась: {err}");
    reveal_strlit("err");
    reveal_with_fuel(listed, 2);
    lemma_holes_listed(M::TokenSavedProbeFail.en(), seq![35], seq!["err"@]);
    lemma_holes_listed(M::TokenSavedProbeFail.ru(), seq![40], seq!["err"@]);
}

proof fn placeholders_token_removed()
    ensures
        M::TokenRemoved.en().len() > 0,
        M::TokenRemoved.ru().len() > 0,
        holes(M::TokenRemoved.en()) == holes(M::TokenRemoved.ru()),
{
    reveal_strlit("token removed from profile `{profile}`.");
    reveal_strlit("токен удалён из профиля `{profile}`.");
    reveal_strlit("profile");
    reveal_with_fuel(listed, 2);
    lemma_holes_listed(M::TokenRemoved.en(), seq![28], seq!["profile"@]);
    lemma_holes_listed(M::TokenRemoved.ru(), seq![25], seq!["profile"@]);
}

proof fn placeholders_profile_not_found()
    ensures
        M::ProfileNotFound.en().len() > 0,
        M::ProfileNotFound.ru().len() > 0,
        holes(M::ProfileNotFound.en()) == holes(M::ProfileNotFound.ru()),
{
    reveal_strlit("profile `{profile}` not found — nothing to remove.");
    reveal_strlit("профиль `{profile}` не найден — нечего удалять.");
    reveal_strlit("profile");
    reveal_with_fuel(listed, 2);
    lemma_holes_listed(M::ProfileNotFound.en(), seq![9], seq!["profile"@]);
    lemma_holes_listed(M::ProfileNotFound.ru(), seq![9], seq!["profile"@]);
}

proof fn placeholders_access_ok()
    ensures
        M::AccessOk.en().len() > 0,
        M::AccessOk.ru().len() > 0,
        holes(M::AccessOk.en()) == holes(M::AccessOk.ru()),
{
    reveal_strlit("API access confirmed");
    reveal_strlit("доступ к API подтверждён");
    lemma_holes_listed(M::AccessOk.en(), seq![], seq![]);
    lemma_holes_listed(M::AccessOk.ru(), seq![], seq![]);
}

proof fn placeholders_access_invalid()
    ensures
        M::AccessInvalid.en().len() > 0,
        M::AccessInvalid.ru().len() > 0,
        holes(M::AccessInvalid.en()) == holes(M::AccessInvalid.ru()),
{
    reveal_strlit("token is invalid (401)");
    reveal_strlit("токен недействителен (401)");
    lemma_holes_listed(M::AccessInvalid.en(), seq![], seq![]);
    lemma_holes_listed(M::AccessInvalid.ru(), seq![], seq![]);
}

proof fn placeholders_access_forbidden()
    ensures
        M::AccessForbidden.en().len() > 0,
        M::AccessForbidden.ru().len() > 0,
        holes(M::AccessForbidden.en()) == holes(M::AccessForbidden.ru()),
{
    reveal_strlit("token valid, but no access to domains (403)");
    reveal_strlit("токен валиден, но без доступа к доменам (403)");
    lemma_holes_listed(M::AccessForbidden.en(), seq![], seq![]);
    lemma_holes_listed(M::AccessForbidden.ru(), seq![], seq![]);
}

proof fn placeholders_access_unexpected()
    ensures
        M::AccessUnexpected.en().len() > 0,
        M::AccessUnexpected.ru().len() > 0,
        holes(M::AccessUnexpected.en()) == holes(M::AccessUnexpected.ru()),
{
    reveal_strlit("unexpected response HTTP {code}");
    reveal_strlit("неожиданный ответ HTTP {code}");
    reveal_strlit("code");
    reveal_with_fuel(listed, 2);
    lemma_holes_listed(M::AccessUnexpected.en(), seq![25], seq!["code"@]);
    lemma_holes_listed(M::AccessUnexpected.ru(), seq![23], seq!["code"@]);
}

proof fn placeholders_no_token()
    ensures
        M::NoToken.en().len() > 0,
        M::NoToken.ru().len() > 0,
        holes(M::NoToken.en()) == holes(M::NoToken.ru()),
{
    reveal_strlit("no token for profile `{profile}`.\nRun `webshield auth login --token wsk_…` or set env WS_TOKEN.");
    reveal_strlit("не найден токен для профиля `{profile}`.\nВыполните `webshield auth login --token wsk_…` или задайте env WS_TOKEN.");
    reveal_strlit("profile");
    reveal_with_fuel(listed, 2);
    lemma_holes_listed(M::NoToken.en(), seq![22], seq!["profile"@]);
    lemma_holes_listed(M::NoToken.ru(), seq![29], seq!["profile"@]);
}

proof fn placeholders_h_id()
    ensures
        M::HId.en().len() > 0,
        M::HId.ru().len() > 0,
        holes(M::HId.en()) == holes(M::HId.ru()),
{
    reveal_strlit("ID");
    reveal_strlit("ID");
    lemma_holes_listed(M::HId.en(), seq![], seq![]);
    lemma_holes_listed(M::HId.ru(), seq![], seq![]);
}

proof fn placeholders_h_domain()
    ensures
        M::HDomain.en().len() > 0,
        M::HDomain.ru().len() > 0,
        holes(M::HDomain.en()) == holes(M::HDomain.ru()),
{
    reveal_strlit("Domain");
    reveal_strlit("Домен");
    lemma_holes_listed(M::HDomain.en(), seq![], seq![]);
    lemma_holes_listed(M::HDomain.ru(), seq![], seq![]);
}

proof fn placeholders_h_delegated()
    ensures
        M::HDelegated.en().len() > 0,
        M::HDelegated.ru().len() > 0,
        holes(M::HDelegated.en()) == holes(M::HDelegated.ru()),
{
    reveal_strlit("Delegated");
    reveal_strlit("Делегирован");
    lemma_holes_listed(M::HDelegated.en(), seq![], seq![]);
    lemma_holes_listed(M::HDelegated.ru(), seq![], seq![]);
}

proof fn placeholders_h_tariff()
    ensures
        M::HTariff.en().len() > 0,
        M::HTariff.ru().len() > 0,
        holes(M::HTariff.en()) == holes(M::HTariff.ru()),
{
    reveal_strlit("Tariff");
    reveal_strlit("Тариф");
    lemma_holes_listed(M::HTariff.en(), seq![], seq![]);
    lemma_holes_listed(M::HTariff.ru(), seq![], seq![]);
}

proof fn placeholders_domain_created()
    ensures
        M::DomainCreated.en().len() > 0,
        M::DomainCreated.ru().len() > 0,
        holes(M::DomainCreated.en()) == holes(M::DomainCreated.ru()),
{
    reveal_strlit("domain `{name}` created (id {id}).");
    reveal_strlit("домен `{name}` создан (id {id}).");
    reveal_strlit("id");
    reveal_strlit("name");
    reveal_with_fuel(listed, 3);
    lemma_holes_listed(M::DomainCreated.en(), seq![8, 28], seq!["name"@, "id"@]);
    lemma_holes_listed(M::DomainCreated.ru(), seq![7, 26], seq!["name"@, "id"@]);
}

proof fn placeholders_domain_deleted()
    ensures
        M::DomainDeleted.en().len() > 0,
        M::DomainDeleted.ru().len() > 0,
        holes(M::DomainDeleted.en()) == holes(M::DomainDeleted.ru()),
{
    reveal_strlit("domain `{name}` deleted.");
    reveal_strlit("домен `{name}` удалён.");
    reveal_strlit("name");
    reveal_with_fuel(listed, 2);
    lemma_holes_listed(M::DomainDeleted.en(), seq![8], seq!["name"@]);
    lemma_holes_listed(M::DomainDeleted.ru(), seq![7], seq!["name"@]);
}

proof fn placeholders_domain_not_found()
    ensures
        M::DomainNotFound.en().len() > 0,
        M::DomainNotFound.ru().len() > 0,
        holes(M::DomainNotFound.en()) == holes(M::DomainNotFound.ru()),
{
    reveal_strlit("domain `{name}` not found among your domains");
    reveal_strlit("домен `{name}` не найден среди ваших доменов");
    reveal_strlit("name");
    reveal_with_fuel(listed, 2);
    lemma_holes_listed(M::DomainNotFound.en(), seq![8], seq!["name"@]);
    lemma_holes_listed(M::DomainNotFound.ru(), seq![7], seq!["name"@]);
}

proof fn placeholders_confirm_delete_domain()
    ensures
        M::ConfirmDeleteDomain.en().len() > 0,
        M::ConfirmDeleteDomain.ru().len() > 0,
        holes(M::ConfirmDeleteDomain.en()) == holes(M::ConfirmDeleteDomain.ru()),
{
    reveal_strlit("Delete domain `{name}` and its zone? This is irreversible.");
    reveal_strlit("Удалить домен `{name}` и его зону? Это необратимо.");
    reveal_strlit("name");
    reveal_with_fuel(listed, 2);
    lemma_holes_listed(M::ConfirmDeleteDomain.en(), seq![15], seq!["name"@]);
    lemma_holes_listed(M::ConfirmDeleteDomain.ru(), seq![15], seq!["name"@]);
}

proof fn placeholders_delegation_ok()
    ensures
        M::DelegationOk.en().len() > 0,
        M::DelegationOk.ru().len() > 0,
        holes(M::DelegationOk.en()) == holes(M::DelegationOk.ru()),
{
    reveal_strlit("domain `{name}` is delegated to WebShield.");
    reveal_strlit("домен `{name}` делегирован на WebShield.");
    reveal_strlit("name");
    reveal_with_fuel(listed, 2);
    lemma_holes_listed(M::DelegationOk.en(), seq![8], seq!["name"@]);
    lemma_holes_listed(M::DelegationOk.ru(), seq![7], seq!["name"@]);
}

proof fn placeholders_delegation_not_delegated()
    ensures
        M::DelegationNotDelegated.en().len() > 0,
        M::DelegationNotDelegated.ru().len() > 0,
        holes(M::DelegationNotDelegated.en()) == holes(M::DelegationNotDelegated.ru()),
{
    reveal_strlit("domain `{name}` is not delegated.");
    reveal_strlit("домен `{name}` не делегирован.");
    reveal_strlit("name");
    reveal_with_fuel(listed, 2);
    lemma_holes_listed(M::DelegationNotDelegated.en(), seq![8], seq!["name"@]);
    lemma_holes_listed(M::DelegationNotDelegated.ru(), seq![7], seq!["name"@]);
}

proof fn placeholders_delegation_current_ns()
    ensures
        M::DelegationCurrentNs.en().len() > 0,
        M::DelegationCurrentNs.ru().len() > 0,
        holes(M::DelegationCurrentNs.en()) == holes(M::DelegationCurrentNs.ru()),
{
    reveal_strlit("current NS at the parent zone: {ns}");
    reveal_strlit("текущие NS в родительской зоне: {ns}");
    reveal_strlit("ns");
    reveal_with_fuel(listed, 2);
    lemma_holes_listed(M::DelegationCurrentNs.en(), seq![31], seq!["ns"@]);
    lemma_holes_listed(M::DelegationCurrentNs.ru(), seq![32], seq!["ns"@]);
}

proof fn placeholders_delegation_missing_ns()
    ensures
        M::DelegationMissingNs.en().len() > 0,
        M::DelegationMissingNs.ru().len() > 0,
        holes(M::DelegationMissingNs.en()) == holes(M::DelegationMissingNs.ru()),
{
    reveal_strlit("WebShield nameservers are missing at the registrar: {ns}");
    reveal_strlit("у регистратора не указаны NS-серверы WebShield: {ns}");
    reveal_strlit("ns");
    reveal_with_fuel(listed, 2);
    lemma_holes_listed(M::DelegationMissingNs.en(), seq![52], seq!["ns"@]);
    lemma_holes_listed(M::DelegationMissingNs.ru(), seq![48], seq!["ns"@]);
}

proof fn placeholders_delegation_extra_ns()
    ensures
        M::DelegationExtraNs.en().len() > 0,
        M::DelegationExtraNs.ru().len() > 0,
        holes(M::DelegationExtraNs.en()) == holes(M::DelegationExtraNs.ru()),
{
    reveal_strlit("remove the other nameservers at the registrar: {ns}");
    reveal_strlit("уберите у регистратора посторонние NS-серверы: {ns}");
    reveal_strlit("ns");
    reveal_with_fuel(listed, 2);
    lemma_holes_listed(M::DelegationExtraNs.en(), seq![47], seq!["ns"@]);
    lemma_holes_listed(M::DelegationExtraNs.ru(), seq![47], seq!["ns"@]);
}

proof fn placeholders_delegation_no_ns()
    ensures
        M::DelegationNoNs.en().len() > 0,
        M::DelegationNoNs.ru().len() > 0,
        holes(M::DelegationNoNs.en()) == holes(M::DelegationNoNs.ru()),
{
    reveal_strlit("no NS delegation found in the parent zone.");
    reveal_strlit("NS-делегирование в родительской зоне не найдено.");
    lemma_holes_listed(M::DelegationNoNs.en(), seq![], seq![]);
    lemma_holes_listed(M::DelegationNoNs.ru(), seq![], seq![]);
}

proof fn placeholders_delegation_unknown()
    ensures
        M::DelegationUnknown.en().len() > 0,
        M::DelegationUnknown.ru().len() > 0,
        holes(M::DelegationUnknown.en()) == holes(M::DelegationUnknown.ru()),
{
    reveal_strlit("delegation status is unknown.");
    reveal_strlit("статус делегирования неизвестен.");
    lemma_holes_listed(M::DelegationUnknown.en(), seq![], seq![]);
    lemma_holes_listed(M::DelegationUnknown.ru(), seq![], seq![]);
}

proof fn placeholders_delegation_propagation_note()
    ensures
        M::DelegationPropagationNote.en().len() > 0,
        M::DelegationPropagationNote.ru().len() > 0,
        holes(M::DelegationPropagationNote.en()) == holes(M::DelegationPropagationNote.ru()),
{
    reveal_strlit("nameserver changes at the registrar can take up to 48 hours to propagate.");
    reveal_strlit("изменения NS у регистратора могут применяться до 48 часов.");
    lemma_holes_listed(M::DelegationPropagationNote.en(), seq![], seq![]);
    lemma_holes_listed(M::DelegationPropagationNote.ru(), seq![], seq![]);
}

proof fn placeholders_h_name()
    ensures
        M::HName.en().len() > 0,
        M::HName.ru().len() > 0,
        holes(M::HName.en()) == holes(M::HName.ru()),
{
    reveal_strlit("Name");
    reveal_strlit("Имя");
    lemma_holes_listed(M::HName.en(), seq![], seq![]);
    lemma_holes_listed(M::HName.ru(), seq![], seq![]);
}

proof fn placeholders_h_type()
    ensures
        M::HType.en().len() > 0,
        M::HType.ru().len() > 0,
        holes(M::HType.en()) == holes(M::HType.ru()),
{
    reveal_strlit("Type");
    reveal_strlit("Тип");
    lemma_holes_listed(M::HType.en(), seq![], seq![]);
    lemma_holes_listed(M::HType.ru(), seq![], seq![]);
}

proof fn placeholders_h_ttl()
    ensures
        M::HTtl.en().len() > 0,
        M::HTtl.ru().len() > 0,
        holes(M::HTtl.en()) == holes(M::HTtl.ru()),
{
    reveal_strlit("TTL");
    reveal_strlit("TTL");
    lemma_holes_listed(M::HTtl.en(), seq![], seq![]);
    lemma_holes_listed(M::HTtl.ru(), seq![], seq![]);
}

proof fn placeholders_h_proxy()
    ensures
        M::HProxy.en().len() > 0,
        M::HProxy.ru().len() > 0,
        holes(M::HProxy.en()) == holes(M::HProxy.ru()),
{
    reveal_strlit("Proxy");
    reveal_strlit("Прокси");
    lemma_holes_listed(M::HProxy.en(), seq![], seq![]);
    lemma_holes_listed(M::HProxy.ru(), seq![], seq![]);
}

proof fn placeholders_h_values()
    ensures
        M::HValues.en().len() > 0,
        M::HValues.ru().len() > 0,
        holes(M::HValues.en()) == holes(M::HValues.ru()),
{
    reveal_strlit("Values");
    reveal_strlit("Значения");
    lemma_holes_listed(M::HValues.en(), seq![], seq![]);
    lemma_holes_listed(M::HValues.ru(), seq![], seq![]);
}

proof fn placeholders_dns_added()
    ensures
        M::DnsAdded.en().len() > 0,
        M::DnsAdded.ru().len() > 0,
        holes(M::DnsAdded.en()) == holes(M::DnsAdded.ru()),
{
    reveal_strlit("{name} {type} {domain}: values added — {count}.");
    reveal_strlit("{name} {type} {domain}: добавлено значений — {count}.");
    reveal_strlit("count");
    reveal_strlit("domain");
    reveal_strlit("name");
    reveal_strlit("type");
    reveal_with_fuel(listed, 5);
    lemma_holes_listed(M::DnsAdded.en(), seq![0, 7, 14, 39], seq!["name"@, "type"@, "domain"@, "count"@]);
    lemma_holes_listed(M::DnsAdded.ru(), seq![0, 7, 14, 45], seq!["name"@, "type"@, "domain"@, "count"@]);
}

proof fn placeholders_dns_set()
    ensures
        M::DnsSet.en().len() > 0,
        M::DnsSet.ru().len() > 0,
        holes(M::DnsSet.en()) == holes(M::DnsSet.ru()),
{
    reveal_strlit("{name} {type} {domain}: values set — {count}.");
    reveal_strlit("{name} {type} {domain}: установлено значений — {count}.");
    reveal_strlit("count");
    reveal_strlit("domain");
    reveal_strlit("name");
    reveal_strlit("type");
    reveal_with_fuel(listed, 5);
    lemma_holes_listed(M::DnsSet.en(), seq![0, 7, 14, 37], seq!["name"@, "type"@, "domain"@, "count"@]);
    lemma_holes_listed(M::DnsSet.ru(), seq![0, 7, 14, 47], seq!["name"@, "type"@, "domain"@, "count"@]);
}

proof fn placeholders_dns_removed()
    ensures
        M::DnsRemoved.en().len() > 0,
        M::DnsRemoved.ru().len() > 0,
        holes(M::DnsRemoved.en()) == holes(M::DnsRemoved.ru()),
{
    reveal_strlit("{name} {type} {domain}: values removed — {count}.");
    reveal_strlit("{name} {type} {domain}: удалено значений — {count}.");
    reveal_strlit("count");
    reveal_strlit("domain");
    reveal_strlit("name");
    reveal_strlit("type");
    reveal_with_fuel(listed, 5);
    lemma_holes_listed(M::DnsRemoved.en(), seq![0, 7, 14, 41], seq!["name"@, "type"@, "domain"@, "count"@]);
    lemma_holes_listed(M::DnsRemoved.ru(), seq![0, 7, 14, 43], seq!["name"@, "type"@, "domain"@, "count"@]);
}

proof fn placeholders_record_not_found()
    ensures
        M::RecordNotFound.en().len() > 0,
        M::RecordNotFound.ru().len() > 0,
        holes(M::RecordNotFound.en()) == holes(M::RecordNotFound.ru()),
{
    reveal_strlit("record {name} {type} not found");
    reveal_strlit("запись {name} {type} не найдена");
    reveal_strlit("name");
    reveal_strlit("type");
    reveal_with_fuel(listed, 3);
    lemma_holes_listed(M::RecordNotFound.en(), seq![7, 14], seq!["name"@, "type"@]);
    lemma_holes_listed(M::RecordNotFound.ru(), seq![7, 14], seq!["name"@, "type"@]);
}

proof fn placeholders_nothing_to_delete()
    ensures
        M::NothingToDelete.en().len() > 0,
        M::NothingToDelete.ru().len() > 0,
        holes(M::NothingToDelete.en()) == holes(M::NothingToDelete.ru()),
{
    reveal_strlit("nothing to delete: record {name} {type} has no values");
    reveal_strlit("нечего удалять: у записи {name} {type} нет значений");
    reveal_strlit("name");
    reveal_strlit("type");
    reveal_with_fuel(listed, 3);
    lemma_holes_listed(M::NothingToDelete.en(), seq![26, 33], seq!["name"@, "type"@]);
    lemma_holes_listed(M::NothingToDelete.ru(), seq![25, 32], seq!["name"@, "type"@]);
}

proof fn placeholders_h_host()
    ensures
        M::HHost.en().len() > 0,
        M::HHost.ru().len() > 0,
        holes(M::HHost.en()) == holes(M::HHost.ru()),
{
    reveal_strlit("Host");
    reveal_strlit("Хост");
    lemma_holes_listed(M::HHost.en(), seq![], seq![]);
    lemma_holes_listed(M::HHost.ru(), seq![], seq![]);
}

proof fn placeholders_h_status()
    ensures
        M::HStatus.en().len() > 0,
        M::HStatus.ru().len() > 0,
        holes(M::HStatus.en()) == holes(M::HStatus.ru()),
{
    reveal_strlit("Status");
    reveal_strlit("Статус");
    lemma_holes_listed(M::HStatus.en(), seq![], seq![]);
    lemma_holes_listed(M::HStatus.ru(), seq![], seq![]);
}

proof fn placeholders_h_version()
    ensures
        M::HVersion.en().len() > 0,
        M::HVersion.ru().len() > 0,
        holes(M::HVersion.en()) == holes(M::HVersion.ru()),
{
    reveal_strlit("Version");
    reveal_strlit("Версия");
    lemma_holes_listed(M::HVersion.en(), seq![], seq![]);
    lemma_holes_listed(M::HVersion.ru(), seq![], seq![]);
}

proof fn placeholders_h_size()
    ensures
        M::HSize.en().len() > 0,
        M::HSize.ru().len() > 0,
        holes(M::HSize.en()) == holes(M::HSize.ru()),
{
    reveal_strlit("Size");
    reveal_strlit("Размер");
    lemma_holes_listed(M::HSize.en(), seq![], seq![]);
    lemma_holes_listed(M::HSize.ru(), seq![], seq![]);
}

proof fn placeholders_h_path()
    ensures
        M::HPath.en().len() > 0,
        M::HPath.ru().len() > 0,
        holes(M::HPath.en()) == holes(M::HPath.ru()),
{
    reveal_strlit("Path");
    reveal_strlit("Путь");
    lemma_holes_listed(M::HPath.en(), seq![], seq![]);
    lemma_holes_listed(M::HPath.ru(), seq![], seq![]);
}

proof fn placeholders_h_etag()
    ensures
        M::HEtag.en().len() > 0,
        M::HEtag.ru().len() > 0,
        holes(M::HEtag.en()) == holes(M::HEtag.ru()),
{
    reveal_strlit("ETag");
    reveal_strlit("ETag");
    lemma_holes_listed(M::HEtag.en(), seq![], seq![]);
    lemma_holes_listed(M::HEtag.ru(), seq![], seq![]);
}

proof fn placeholders_site_created()
    ensures
        M::SiteCreated.en().len() > 0,
        M::SiteCreated.ru().len() > 0,
        holes(M::SiteCreated.en()) == holes(M::SiteCreated.ru()),
{
    reveal_strlit("site `{host}` created (id {id}).");
    reveal_strlit("сайт `{host}` создан (id {id}).");
    reveal_strlit("host");
    reveal_strlit("id");
    reveal_with_fuel(listed, 3);
    lemma_holes_listed(M::SiteCreated.en(), seq![6, 26], seq!["host"@, "id"@]);
    lemma_holes_listed(M::SiteCreated.ru(), seq![6, 25], seq!["host"@, "id"@]);
}

proof fn placeholders_site_disabled()
    ensures
        M::SiteDisabled.en().len() > 0,
        M::SiteDisabled.ru().len() > 0,
        holes(M::SiteDisabled.en()) == holes(M::SiteDisabled.ru()),
{
    reveal_strlit("site `{host}` unpublished.");
    reveal_strlit("сайт `{host}` снят с публикации.");
    reveal_strlit("host");
    reveal_with_fuel(listed, 2);
    lemma_holes_listed(M::SiteDisabled.en(), seq![6], seq!["host"@]);
    lemma_holes_listed(M::SiteDisabled.ru(), seq![6], seq!["host"@]);
}

proof fn placeholders_publish_summary()
    ensures
        M::PublishSummary.en().len() > 0,
        M::PublishSummary.ru().len() > 0,
        holes(M::PublishSummary.en()) == holes(M::PublishSummary.ru()),
{
    reveal_strlit("Site #{id}: local {local}, server {server} — upload {up}, delete {del}, unchanged {same}.");
    reveal_strlit("Сайт #{id}: локально {local}, на сервере {server} — залить {up}, удалить {del}, без изменений {same}.");
    reveal_strlit("del");
    reveal_strlit("id");
    reveal_strlit("local");
    reveal_strlit("same");
    reveal_strlit("server");
    reveal_strlit("up");
    reveal_with_fuel(listed, 7);
    lemma_holes_listed(M::PublishSummary.en(), seq![6, 18, 34, 52, 65, 82], seq!["id"@, "local"@, "server"@, "up"@, "del"@, "same"@]);
    lemma_holes_listed(M::PublishSummary.ru(), seq![6, 21, 41, 59, 73, 94], seq!["id"@, "local"@, "server"@, "up"@, "del"@, "same"@]);
}

proof fn placeholders_publish_no_changes()
    ensures
        M::PublishNoChanges.en().len() > 0,
        M::PublishNoChanges.ru().len() > 0,
        holes(M::PublishNoChanges.en()) == holes(M::PublishNoChanges.ru()),
{
    reveal_strlit("no changes — nothing to publish.");
    reveal_strlit("изменений нет — публикация не требуется.");
    lemma_holes_listed(M::PublishNoChanges.en(), seq![], seq![]);
    lemma_holes_listed(M::PublishNoChanges.ru(), seq![], seq![]);
}

proof fn placeholders_publish_dry_run()
    ensures
        M::PublishDryRun.en().len() > 0,
        M::PublishDryRun.ru().len() > 0,
        holes(M::PublishDryRun.en()) == holes(M::PublishDryRun.ru()),
{
    reveal_strlit("dry-run: no changes applied.");
    reveal_strlit("dry-run: изменения не применяются.");
    lemma_holes_listed(M::PublishDryRun.en(), seq![], seq![]);
    lemma_holes_listed(M::PublishDryRun.ru(), seq![], seq![]);
}

proof fn placeholders_published()
    ensures
        M::Published.en().len() > 0,
        M::Published.ru().len() > 0,
        holes(M::Published.en()) == holes(M::Published.ru()),
{
    reveal_strlit("published.");
    reveal_strlit("опубликовано.");
    lemma_holes_listed(M::Published.en(), seq![], seq![]);
    lemma_holes_listed(M::Published.ru(), seq![], seq![]);
}

proof fn placeholders_bucket_publish_started()
    ensures
        M::BucketPublishStarted.en().len() > 0,
        M::BucketPublishStarted.ru().len() > 0,
        holes(M::BucketPublishStarted.en()) == holes(M::BucketPublishStarted.ru()),
{
    reveal_strlit("publishing from bucket…");
    reveal_strlit("публикация из бакета…");
    lemma_holes_listed(M::BucketPublishStarted.en(), seq![], seq![]);
    lemma_holes_listed(M::BucketPublishStarted.ru(), seq![], seq![]);
}

proof fn placeholders_bucket_published()
    ensures
        M::BucketPublished.en().len() > 0,
        M::BucketPublished.ru().len() > 0,
        holes(M::BucketPublished.en()) == holes(M::BucketPublished.ru()),
{
    reveal_strlit("published from bucket (version {version}).");
    reveal_strlit("опубликовано из бакета (версия {version}).");
    reveal_strlit("version");
    reveal_with_fuel(listed, 2);
    lemma_holes_listed(M::BucketPublished.en(), seq![31], seq!["version"@]);
    lemma_holes_listed(M::BucketPublished.ru(), seq![31], seq!["version"@]);
}

proof fn placeholders_bucket_publish_failed()
    ensures
        M::BucketPublishFailed.en().len() > 0,
        M::BucketPublishFailed.ru().len() > 0,
        holes(M::BucketPublishFailed.en()) == holes(M::BucketPublishFailed.ru()),
{
    reveal_strlit("bucket publish failed: {error}");
    reveal_strlit("публикация из бакета не удалась: {error}");
    reveal_strlit("error");
    reveal_with_fuel(listed, 2);
    lemma_holes_listed(M::BucketPublishFailed.en(), seq![23], seq!["error"@]);
    lemma_holes_listed(M::BucketPublishFailed.ru(), seq![33], seq!["error"@]);
}

proof fn placeholders_bucket_publish_timeout()
    ensures
        M::BucketPublishTimeout.en().len() > 0,
        M::BucketPublishTimeout.ru().len() > 0,
        holes(M::BucketPublishTimeout.en()) == holes(M::BucketPublishTimeout.ru()),
{
    reveal_strlit("bucket publish is still running; check the site status later.");
    reveal_strlit("публикация из бакета ещё идёт; проверьте статус сайта позже.");
    lemma_holes_listed(M::BucketPublishTimeout.en(), seq![], seq![]);
    lemma_holes_listed(M::BucketPublishTimeout.ru(), seq![], seq![]);
}

proof fn placeholders_deleted_files()
    ensures
        M::DeletedFiles.en().len() > 0,
        M::DeletedFiles.ru().len() > 0,
        holes(M::DeletedFiles.en()) == holes(M::DeletedFiles.ru()),
{
    reveal_strlit("files deleted: {count}");
    reveal_strlit("удалено файлов: {count}");
    reveal_strlit("count");
    reveal_with_fuel(listed, 2);
    lemma_holes_listed(M::DeletedFiles.en(), seq![15], seq!["count"@]);
    lemma_holes_listed(M::DeletedFiles.ru(), seq![16], seq!["count"@]);
}

proof fn placeholders_upload_bar()
    ensures
        M::UploadBar.en().len() > 0,
        M::UploadBar.ru().len() > 0,
        holes(M::UploadBar.en()) == holes(M::UploadBar.ru()),
{
    reveal_strlit("  upload [{bar:30}] {pos}/{len} files");
    reveal_strlit("  заливка [{bar:30}] {pos}/{len} файлов");
    reveal_strlit("bar:30");
    reveal_strlit("len");
    reveal_strlit("pos");
    reveal_with_fuel(listed, 4);
    lemma_holes_listed(M::UploadBar.en(), seq![10, 20, 26], seq!["bar:30"@, "pos"@, "len"@]);
    lemma_holes_listed(M::UploadBar.ru(), seq![11, 21, 27], seq!["bar:30"@, "pos"@, "len"@]);
}

proof fn placeholders_not_found_site()
    ensures
        M::NotFoundSite.en().len() > 0,
        M::NotFoundSite.ru().len() > 0,
        holes(M::NotFoundSite.en()) == holes(M::NotFoundSite.ru()),
{
    reveal_strlit("static site `{host}` not found");
    reveal_strlit("статический сайт `{host}` не найден");
    reveal_strlit("host");
    reveal_with_fuel(listed, 2);
    lemma_holes_listed(M::NotFoundSite.en(), seq![13], seq!["host"@]);
    lemma_holes_listed(M::NotFoundSite.ru(), seq![18], seq!["host"@]);
}

proof fn placeholders_publish_needs_site_ref()
    ensures
        M::PublishNeedsSiteRef.en().len() > 0,
        M::PublishNeedsSiteRef.ru().len() > 0,
        holes(M::PublishNeedsSiteRef.en()) == holes(M::PublishNeedsSiteRef.ru()),
{
    reveal_strlit("specify a site: pass a hostname or --site-id");
    reveal_strlit("укажите сайт: передайте hostname или --site-id");
    lemma_holes_listed(M::PublishNeedsSiteRef.en(), seq![], seq![]);
    lemma_holes_listed(M::PublishNeedsSiteRef.ru(), seq![], seq![]);
}

proof fn placeholders_not_a_dir()
    ensures
        M::NotADir.en().len() > 0,
        M::NotADir.ru().len() > 0,
        holes(M::NotADir.en()) == holes(M::NotADir.ru()),
{
    reveal_strlit("not a directory: {path}");
    reveal_strlit("не каталог: {path}");
    reveal_strlit("path");
    reveal_with_fuel(listed, 2);
    lemma_holes_listed(M::NotADir.en(), seq![17], seq!["path"@]);
    lemma_holes_listed(M::NotADir.ru(), seq![12], seq!["path"@]);
}

proof fn placeholders_dir_not_found()
    ensures
        M::DirNotFound.en().len() > 0,
        M::DirNotFound.ru().len() > 0,
        holes(M::DirNotFound.en()) == holes(M::DirNotFound.ru()),
{
    reveal_strlit("directory not found: {path}");
    reveal_strlit("каталог не найден: {path}");
    reveal_strlit("path");
    reveal_with_fuel(listed, 2);
    lemma_holes_listed(M::DirNotFound.en(), seq![21], seq!["path"@]);
    lemma_holes_listed(M::DirNotFound.ru(), seq![19], seq!["path"@]);
}

proof fn placeholders_h_mode()
    ensures
        M::HMode.en().len() > 0,
        M::HMode.ru().len() > 0,
        holes(M::HMode.en()) == holes(M::HMode.ru()),
{
    reveal_strlit("Mode");
    reveal_strlit("Режим");
    lemma_holes_listed(M::HMode.en(), seq![], seq![]);
    lemma_holes_listed(M::HMode.ru(), seq![], seq![]);
}

proof fn placeholders_h_target()
    ensures
        M::HTarget.en().len() > 0,
        M::HTarget.ru().len() > 0,
        holes(M::HTarget.en()) == holes(M::HTarget.ru()),
{
    reveal_strlit("Target");
    reveal_strlit("Цель");
    lemma_holes_listed(M::HTarget.en(), seq![], seq![]);
    lemma_holes_listed(M::HTarget.ru(), seq![], seq![]);
}

proof fn placeholders_h_ssl()
    ensures
        M::HSsl.en().len() > 0,
        M::HSsl.ru().len() > 0,
        holes(M::HSsl.en()) == holes(M::HSsl.ru()),
{
    reveal_strlit("SSL");
    reveal_strlit("SSL");
    lemma_holes_listed(M::HSsl.en(), seq![], seq![]);
    lemma_holes_listed(M::HSsl.ru(), seq![], seq![]);
}

proof fn placeholders_h_bot_prot()
    ensures
        M::HBotProt.en().len() > 0,
        M::HBotProt.ru().len() > 0,
        holes(M::HBotProt.en()) == holes(M::HBotProt.ru()),
{
    reveal_strlit("Bot protection");
    reveal_strlit("Бот-защита");
    lemma_holes_listed(M::HBotProt.en(), seq![], seq![]);
    lemma_holes_listed(M::HBotProt.ru(), seq![], seq![]);
}

proof fn placeholders_proxy_created()
    ensures
        M::ProxyCreated.en().len() > 0,
        M::ProxyCreated.ru().len() > 0,
        holes(M::ProxyCreated.en()) == holes(M::ProxyCreated.ru()),
{
    reveal_strlit("proxy config for `{host}` created.");
    reveal_strlit("конфиг прокси для `{host}` создан.");
    reveal_strlit("host");
    reveal_with_fuel(listed, 2);
    lemma_holes_listed(M::ProxyCreated.en(), seq![18], seq!["host"@]);
    lemma_holes_listed(M::ProxyCreated.ru(), seq![19], seq!["host"@]);
}

proof fn placeholders_proxy_updated()
    ensures
        M::ProxyUpdated.en().len() > 0,
        M::ProxyUpdated.ru().len() > 0,
        holes(M::ProxyUpdated.en()) == holes(M::ProxyUpdated.ru()),
{
    reveal_strlit("proxy config for `{host}` updated.");
    reveal_strlit("конфиг прокси для `{host}` обновлён.");
    reveal_strlit("host");
    reveal_with_fuel(listed, 2);
    lemma_holes_listed(M::ProxyUpdated.en(), seq![18], seq!["host"@]);
    lemma_holes_listed(M::ProxyUpdated.ru(), seq![19], seq!["host"@]);
}

proof fn placeholders_proxy_removed()
    ensures
        M::ProxyRemoved.en().len() > 0,
        M::ProxyRemoved.ru().len() > 0,
        holes(M::ProxyRemoved.en()) == holes(M::ProxyRemoved.ru()),
{
    reveal_strlit("proxy config for `{host}` removed.");
    reveal_strlit("конфиг прокси для `{host}` удалён.");
    reveal_strlit("host");
    reveal_with_fuel(listed, 2);
    lemma_holes_listed(M::ProxyRemoved.en(), seq![18], seq!["host"@]);
    lemma_holes_listed(M::ProxyRemoved.ru(), seq![19], seq!["host"@]);
}

proof fn placeholders_confirm_remove_proxy()
    ensures
        M::ConfirmRemoveProxy.en().len() > 0,
        M::ConfirmRemoveProxy.ru().len() > 0,
        holes(M::ConfirmRemoveProxy.en()) == holes(M::ConfirmRemoveProxy.ru()),
{
    reveal_strlit("Remove edge config for `{host}`?");
    reveal_strlit("Удалить edge-конфиг для `{host}`?");
    reveal_strlit("host");
    reveal_with_fuel(listed, 2);
    lemma_holes_listed(M::ConfirmRemoveProxy.en(), seq![24], seq!["host"@]);
    lemma_holes_listed(M::ConfirmRemoveProxy.ru(), seq![25], seq!["host"@]);
}

proof fn placeholders_not_found_proxy()
    ensures
        M::NotFoundProxy.en().len() > 0,
        M::NotFoundProxy.ru().len() > 0,
        holes(M::NotFoundProxy.en()) == holes(M::NotFoundProxy.ru()),
{
    reveal_strlit("proxy config for `{host}` not found");
    reveal_strlit("конфиг прокси для `{host}` не найден");
    reveal_strlit("host");
    reveal_with_fuel(listed, 2);
    lemma_holes_listed(M::NotFoundProxy.en(), seq![18], seq!["host"@]);
    lemma_holes_listed(M::NotFoundProxy.ru(), seq![19], seq!["host"@]);
}

proof fn placeholders_h_currency()
    ensures
        M::HCurrency.en().len() > 0,
        M::HCurrency.ru().len() > 0,
        holes(M::HCurrency.en()) == holes(M::HCurrency.ru()),
{
    reveal_strlit("Currency");
    reveal_strlit("Валюта");
    lemma_holes_listed(M::HCurrency.en(), seq![], seq![]);
    lemma_holes_listed(M::HCurrency.ru(), seq![], seq![]);
}

proof fn placeholders_h_balance()
    ensures
        M::HBalance.en().len() > 0,
        M::HBalance.ru().len() > 0,
        holes(M::HBalance.en()) == holes(M::HBalance.ru()),
{
    reveal_strlit("Balance");
    reveal_strlit("Баланс");
    lemma_holes_listed(M::HBalance.en(), seq![], seq![]);
    lemma_holes_listed(M::HBalance.ru(), seq![], seq![]);
}

proof fn placeholders_h_metric()
    ensures
        M::HMetric.en().len() > 0,
        M::HMetric.ru().len() > 0,
        holes(M::HMetric.en()) == holes(M::HMetric.ru()),
{
    reveal_strlit("Metric");
    reveal_strlit("Показатель");
    lemma_holes_listed(M::HMetric.en(), seq![], seq![]);
    lemma_holes_listed(M::HMetric.ru(), seq![], seq![]);
}

proof fn placeholders_h_ip()
    ensures
        M::HIp.en().len() > 0,
        M::HIp.ru().len() > 0,
        holes(M::HIp.en()) == holes(M::HIp.ru()),
{
    reveal_strlit("IP");
    reveal_strlit("IP");
    lemma_holes_listed(M::HIp.en(), seq![], seq![]);
    lemma_holes_listed(M::HIp.ru(), seq![], seq![]);
}

proof fn placeholders_h_reason()
    ensures
        M::HReason.en().len() > 0,
        M::HReason.ru().len() > 0,
        holes(M::HReason.en()) == holes(M::HReason.ru()),
{
    reveal_strlit("Reason");
    reveal_strlit("Причина");
    lemma_holes_listed(M::HReason.en(), seq![], seq![]);
    lemma_holes_listed(M::HReason.ru(), seq![], seq![]);
}

proof fn placeholders_h_last_seen()
    ensures
        M::HLastSeen.en().len() > 0,
        M::HLastSeen.ru().len() > 0,
        holes(M::HLastSeen.en()) == holes(M::HLastSeen.ru()),
{
    reveal_strlit("Last seen");
    reveal_strlit("Последний запрос");
    lemma_holes_listed(M::HLastSeen.en(), seq![], seq![]);
    lemma_holes_listed(M::HLastSeen.ru(), seq![], seq![]);
}

proof fn placeholders_h_requests()
    ensures
        M::HRequests.en().len() > 0,
        M::HRequests.ru().len() > 0,
        holes(M::HRequests.en()) == holes(M::HRequests.ru()),
{
    reveal_strlit("Requests");
    reveal_strlit("Запросов");
    lemma_holes_listed(M::HRequests.en(), seq![], seq![]);
    lemma_holes_listed(M::HRequests.ru(), seq![], seq![]);
}

proof fn placeholders_no_bans()
    ensures
        M::NoBans.en().len() > 0,
        M::NoBans.ru().len() > 0,
        holes(M::NoBans.en()) == holes(M::NoBans.ru()),
{
    reveal_strlit("no active bans");
    reveal_strlit("активных банов нет");
    lemma_holes_listed(M::NoBans.en(), seq![], seq![]);
    lemma_holes_listed(M::NoBans.ru(), seq![], seq![]);
}

proof fn placeholders_err_network()
    ensures
        M::ErrNetwork.en().len() > 0,
        M::ErrNetwork.ru().len() > 0,
        holes(M::ErrNetwork.en()) == holes(M::ErrNetwork.ru()),
{
    reveal_strlit("network error while calling the API");
    reveal_strlit("ошибка сети при запросе к API");
    lemma_holes_listed(M::ErrNetwork.en(), seq![], seq![]);
    lemma_holes_listed(M::ErrNetwork.ru(), seq![], seq![]);
}

proof fn placeholders_err_parse()
    ensures
        M::ErrParse.en().len() > 0,
        M::ErrParse.ru().len() > 0,
        holes(M::ErrParse.en()) == holes(M::ErrParse.ru()),
{
    reveal_strlit("failed to parse the API response");
    reveal_strlit("не удалось разобрать ответ API");
    lemma_holes_listed(M::ErrParse.en(), seq![], seq![]);
    lemma_holes_listed(M::ErrParse.ru(), seq![], seq![]);
}

proof fn placeholders_err_unauthorized()
    ensures
        M::ErrUnauthorized.en().len() > 0,
        M::ErrUnauthorized.ru().len() > 0,
        holes(M::ErrUnauthorized.en()) == holes(M::ErrUnauthorized.ru()),
{
    reveal_strlit("check the token (`webshield auth status`).");
    reveal_strlit("Проверьте токен (`webshield auth status`).");
    lemma_holes_listed(M::ErrUnauthorized.en(), seq![], seq![]);
    lemma_holes_listed(M::ErrUnauthorized.ru(), seq![], seq![]);
}

proof fn placeholders_err_forbidden()
    ensures
        M::ErrForbidden.en().len() > 0,
        M::ErrForbidden.ru().len() > 0,
        holes(M::ErrForbidden.en()) == holes(M::ErrForbidden.ru()),
{
    reveal_strlit("the token may lack the required scope or be bound to another domain/site.");
    reveal_strlit("Возможно, у токена нет нужного скоупа или он привязан к другому домену/сайту.");
    lemma_holes_listed(M::ErrForbidden.en(), seq![], seq![]);
    lemma_holes_listed(M::ErrForbidden.ru(), seq![], seq![]);
}


} // verus!
