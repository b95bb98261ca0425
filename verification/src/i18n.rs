//! Client localization (English/Russian).
//!
//! Every message has an English and a Russian text. The language is chosen once by
//! the program: `--lang` → `WS_LANG` → the language of the configuration → the
//! system locale (`locale::choose_locale`); the functions here take it as an
//! argument. `resolve_with` gives the same order without a configured language,
//! with the system locale read from the locale variables.
use crate::text::{
    ascii_lowercase, chars_are, chars_of, lemma_lower_of_ascii, concat, ends_with_seq, has_prefix, has_suffix, str_lower,
    lowercase_chars, replace_all, replace_chars, starts_with_seq, string_of, sub_chars,
    trim, trim_chars,
};
use vstd::prelude::*;

pub mod locale;
pub mod placeholders;

verus! {

/// Interface language.
#[derive(Clone, Copy, PartialEq, Eq, Debug)]
pub enum Lang {
    /// English
    En,
    /// Russian (русский)
    Ru,
}

/// Message keys. Each maps to an (English, Russian) pair.
#[derive(Clone, Copy, PartialEq, Eq, Debug)]
pub enum M {
    AppAbout,
    CmdAuth,
    CmdDomains,
    CmdDns,
    CmdSites,
    CmdProxy,
    CmdStats,
    CmdBilling,
    CmdCompletion,
    Yes,
    No,
    Dash,
    Empty,
    HValue,
    ErrorPrefix,
    ConfirmSuffix,
    ConfirmCancelled,
    TokenPrompt,
    TokenWarnPrefix,
    LblProfile,
    LblApiUrl,
    LblToken,
    LblAccess,
    LblLang,
    TokenSet,
    TokenUnset,
    LoginHint,
    TokenSavedOk,
    TokenSavedScoped,
    TokenSavedCode,
    TokenSavedProbeFail,
    TokenRemoved,
    ProfileNotFound,
    AccessOk,
    AccessInvalid,
    AccessForbidden,
    AccessUnexpected,
    NoToken,
    HId,
    HDomain,
    HDelegated,
    HTariff,
    DomainCreated,
    DomainDeleted,
    DomainNotFound,
    ConfirmDeleteDomain,
    DelegationOk,
    DelegationNotDelegated,
    DelegationCurrentNs,
    DelegationMissingNs,
    DelegationExtraNs,
    DelegationNoNs,
    DelegationUnknown,
    DelegationPropagationNote,
    HName,
    HType,
    HTtl,
    HProxy,
    HValues,
    DnsAdded,
    DnsSet,
    DnsRemoved,
    RecordNotFound,
    NothingToDelete,
    HHost,
    HStatus,
    HVersion,
    HSize,
    HPath,
    HEtag,
    SiteCreated,
    SiteDisabled,
    PublishSummary,
    PublishNoChanges,
    PublishDryRun,
    Published,
    BucketPublishStarted,
    BucketPublished,
    BucketPublishFailed,
    BucketPublishTimeout,
    DeletedFiles,
    UploadBar,
    NotFoundSite,
    PublishNeedsSiteRef,
    NotADir,
    DirNotFound,
    HMode,
    HTarget,
    HSsl,
    HBotProt,
    ProxyCreated,
    ProxyUpdated,
    ProxyRemoved,
    ConfirmRemoveProxy,
    NotFoundProxy,
    HCurrency,
    HBalance,
    HMetric,
    HIp,
    HReason,
    HLastSeen,
    HRequests,
    NoBans,
    ErrNetwork,
    ErrParse,
    ErrUnauthorized,
    ErrForbidden,
}

impl M {
    /// The English text of the message.
    pub open spec fn en(self) -> Seq<char> {
        match self {
            M::AppAbout => "WebShield command-line client"@,
            M::CmdAuth => "Authentication and profiles"@,
            M::CmdDomains => "Domains (zones)"@,
            M::CmdDns => "DNS records"@,
            M::CmdSites => "Static sites and publishing"@,
            M::CmdProxy => "Proxy/redirect host edge settings"@,
            M::CmdStats => "Statistics and protection"@,
            M::CmdBilling => "Billing (balance, usage, tariffs)"@,
            M::CmdCompletion => "Generate a shell completion script"@,
            M::Yes => "yes"@,
            M::No => "no"@,
            M::Dash => "—"@,
            M::Empty => "— empty —"@,
            M::HValue => "Value"@,
            M::ErrorPrefix => "error:"@,
            M::ConfirmSuffix => "[y/N]"@,
            M::ConfirmCancelled => "cancelled by user"@,
            M::TokenPrompt => "Token wsk_…: "@,
            M::TokenWarnPrefix => "warning: a token usually starts with `wsk_`."@,
            M::LblProfile => "Profile:"@,
            M::LblApiUrl => "API URL:"@,
            M::LblToken => "Token:  "@,
            M::LblAccess => "Access: "@,
            M::LblLang => "Language:"@,
            M::TokenSet => "set"@,
            M::TokenUnset => "not set"@,
            M::LoginHint => "Run `webshield auth login` to store a token."@,
            M::TokenSavedOk => "token saved to profile `{profile}`, access confirmed."@,
            M::TokenSavedScoped => "token saved to profile `{profile}` (valid, but narrow scopes)."@,
            M::TokenSavedCode => "token saved, but the check returned HTTP {code}."@,
            M::TokenSavedProbeFail => "token saved, but the check failed: {err}"@,
            M::TokenRemoved => "token removed from profile `{profile}`."@,
            M::ProfileNotFound => "profile `{profile}` not found — nothing to remove."@,
            M::AccessOk => "API access confirmed"@,
            M::AccessInvalid => "token is invalid (401)"@,
            M::AccessForbidden => "token valid, but no access to domains (403)"@,
            M::AccessUnexpected => "unexpected response HTTP {code}"@,
            M::NoToken => "no token for profile `{profile}`.\nRun `webshield auth login --token wsk_…` or set env WS_TOKEN."@,
            M::HId => "ID"@,
            M::HDomain => "Domain"@,
            M::HDelegated => "Delegated"@,
            M::HTariff => "Tariff"@,
            M::DomainCreated => "domain `{name}` created (id {id})."@,
            M::DomainDeleted => "domain `{name}` deleted."@,
            M::DomainNotFound => "domain `{name}` not found among your domains"@,
            M::ConfirmDeleteDomain => "Delete domain `{name}` and its zone? This is irreversible."@,
            M::DelegationOk => "domain `{name}` is delegated to WebShield."@,
            M::DelegationNotDelegated => "domain `{name}` is not delegated."@,
            M::DelegationCurrentNs => "current NS at the parent zone: {ns}"@,
            M::DelegationMissingNs => "WebShield nameservers are missing at the registrar: {ns}"@,
            M::DelegationExtraNs => "remove the other nameservers at the registrar: {ns}"@,
            M::DelegationNoNs => "no NS delegation found in the parent zone."@,
            M::DelegationUnknown => "delegation status is unknown."@,
            M::DelegationPropagationNote => "nameserver changes at the registrar can take up to 48 hours to propagate."@,
            M::HName => "Name"@,
            M::HType => "Type"@,
            M::HTtl => "TTL"@,
            M::HProxy => "Proxy"@,
            M::HValues => "Values"@,
            M::DnsAdded => "{name} {type} {domain}: values added — {count}."@,
            M::DnsSet => "{name} {type} {domain}: values set — {count}."@,
            M::DnsRemoved => "{name} {type} {domain}: values removed — {count}."@,
            M::RecordNotFound => "record {name} {type} not found"@,
            M::NothingToDelete => "nothing to delete: record {name} {type} has no values"@,
            M::HHost => "Host"@,
            M::HStatus => "Status"@,
            M::HVersion => "Version"@,
            M::HSize => "Size"@,
            M::HPath => "Path"@,
            M::HEtag => "ETag"@,
            M::SiteCreated => "site `{host}` created (id {id})."@,
            M::SiteDisabled => "site `{host}` unpublished."@,
            M::PublishSummary => "Site #{id}: local {local}, server {server} — upload {up}, delete {del}, unchanged {same}."@,
            M::PublishNoChanges => "no changes — nothing to publish."@,
            M::PublishDryRun => "dry-run: no changes applied."@,
            M::Published => "published."@,
            M::BucketPublishStarted => "publishing from bucket…"@,
            M::BucketPublished => "published from bucket (version {version})."@,
            M::BucketPublishFailed => "bucket publish failed: {error}"@,
            M::BucketPublishTimeout => "bucket publish is still running; check the site status later."@,
            M::DeletedFiles => "files deleted: {count}"@,
            M::UploadBar => "  upload [{bar:30}] {pos}/{len} files"@,
            M::NotFoundSite => "static site `{host}` not found"@,
            M::PublishNeedsSiteRef => "specify a site: pass a hostname or --site-id"@,
            M::NotADir => "not a directory: {path}"@,
            M::DirNotFound => "directory not found: {path}"@,
            M::HMode => "Mode"@,
            M::HTarget => "Target"@,
            M::HSsl => "SSL"@,
            M::HBotProt => "Bot protection"@,
            M::ProxyCreated => "proxy config for `{host}` created."@,
            M::ProxyUpdated => "proxy config for `{host}` updated."@,
            M::ProxyRemoved => "proxy config for `{host}` removed."@,
            M::ConfirmRemoveProxy => "Remove edge config for `{host}`?"@,
            M::NotFoundProxy => "proxy config for `{host}` not found"@,
            M::HCurrency => "Currency"@,
            M::HBalance => "Balance"@,
            M::HMetric => "Metric"@,
            M::HIp => "IP"@,
            M::HReason => "Reason"@,
            M::HLastSeen => "Last seen"@,
            M::HRequests => "Requests"@,
            M::NoBans => "no active bans"@,
            M::ErrNetwork => "network error while calling the API"@,
            M::ErrParse => "failed to parse the API response"@,
            M::ErrUnauthorized => "check the token (`webshield auth status`)."@,
            M::ErrForbidden => "the token may lack the required scope or be bound to another domain/site."@,
        }
    }

    /// The Russian text of the message.
    pub open spec fn ru(self) -> Seq<char> {
        match self {
            M::AppAbout => "Клиент командной строки WebShield"@,
            M::CmdAuth => "Аутентификация и профили"@,
            M::CmdDomains => "Домены (зоны)"@,
            M::CmdDns => "DNS-записи домена"@,
            M::CmdSites => "Статические сайты и публикация"@,
            M::CmdProxy => "Edge-настройки прокси/редиректов"@,
            M::CmdStats => "Статистика и защита"@,
            M::CmdBilling => "Биллинг (баланс, трафик, тарифы)"@,
            M::CmdCompletion => "Скрипт автодополнения для оболочки"@,
            M::Yes => "да"@,
            M::No => "нет"@,
            M::Dash => "—"@,
            M::Empty => "— пусто —"@,
            M::HValue => "Значение"@,
            M::ErrorPrefix => "ошибка:"@,
            M::ConfirmSuffix => "[y/N]"@,
            M::ConfirmCancelled => "отменено пользователем"@,
            M::TokenPrompt => "Токен wsk_…: "@,
            M::TokenWarnPrefix => "предупреждение: токен обычно начинается с `wsk_`."@,
            M::LblProfile => "Профиль: "@,
            M::LblApiUrl => "API URL: "@,
            M::LblToken => "Токен:   "@,
            M::LblAccess => "Доступ:  "@,
            M::LblLang => "Язык:    "@,
            M::TokenSet => "задан"@,
            M::TokenUnset => "не задан"@,
            M::LoginHint => "Выполните `webshield auth login`, чтобы сохранить токен."@,
            M::TokenSavedOk => "токен сохранён в профиль `{profile}`, доступ подтверждён."@,
            M::TokenSavedScoped => "токен сохранён в профиль `{profile}` (валиден, но со суженными скоупами)."@,
            M::TokenSavedCode => "токен сохранён, но проверка вернула HTTP {code}."@,
            M::TokenSavedProbeFail => "токен сохранён, но проверка не удалась: {err}"@,
            M::TokenRemoved => "токен удалён из профиля `{profile}`."@,
            M::ProfileNotFound => "профиль `{profile}` не найден — нечего удалять."@,
            M::AccessOk => "доступ к API подтверждён"@,
            M::AccessInvalid => "токен недействителен (401)"@,
            M::AccessForbidden => "токен валиден, но без доступа к доменам (403)"@,
            M::AccessUnexpected => "неожиданный ответ HTTP {code}"@,
            M::NoToken => "не найден токен для профиля `{profile}`.\nВыполните `webshield auth login --token wsk_…` или задайте env WS_TOKEN."@,
            M::HId => "ID"@,
            M::HDomain => "Домен"@,
            M::HDelegated => "Делегирован"@,
            M::HTariff => "Тариф"@,
            M::DomainCreated => "домен `{name}` создан (id {id})."@,
            M::DomainDeleted => "домен `{name}` удалён."@,
            M::DomainNotFound => "домен `{name}` не найден среди ваших доменов"@,
            M::ConfirmDeleteDomain => "Удалить домен `{name}` и его зону? Это необратимо."@,
            M::DelegationOk => "домен `{name}` делегирован на WebShield."@,
            M::DelegationNotDelegated => "домен `{name}` не делегирован."@,
            M::DelegationCurrentNs => "текущие NS в родительской зоне: {ns}"@,
            M::DelegationMissingNs => "у регистратора не указаны NS-серверы WebShield: {ns}"@,
            M::DelegationExtraNs => "уберите у регистратора посторонние NS-серверы: {ns}"@,
            M::DelegationNoNs => "NS-делегирование в родительской зоне не найдено."@,
            M::DelegationUnknown => "статус делегирования неизвестен."@,
            M::DelegationPropagationNote => "изменения NS у регистратора могут применяться до 48 часов."@,
            M::HName => "Имя"@,
            M::HType => "Тип"@,
            M::HTtl => "TTL"@,
            M::HProxy => "Прокси"@,
            M::HValues => "Значения"@,
            M::DnsAdded => "{name} {type} {domain}: добавлено значений — {count}."@,
            M::DnsSet => "{name} {type} {domain}: установлено значений — {count}."@,
            M::DnsRemoved => "{name} {type} {domain}: удалено значений — {count}."@,
            M::RecordNotFound => "запись {name} {type} не найдена"@,
            M::NothingToDelete => "нечего удалять: у записи {name} {type} нет значений"@,
            M::HHost => "Хост"@,
            M::HStatus => "Статус"@,
            M::HVersion => "Версия"@,
            M::HSize => "Размер"@,
            M::HPath => "Путь"@,
            M::HEtag => "ETag"@,
            M::SiteCreated => "сайт `{host}` создан (id {id})."@,
            M::SiteDisabled => "сайт `{host}` снят с публикации."@,
            M::PublishSummary => "Сайт #{id}: локально {local}, на сервере {server} — залить {up}, удалить {del}, без изменений {same}."@,
            M::PublishNoChanges => "изменений нет — публикация не требуется."@,
            M::PublishDryRun => "dry-run: изменения не применяются."@,
            M::Published => "опубликовано."@,
            M::BucketPublishStarted => "публикация из бакета…"@,
            M::BucketPublished => "опубликовано из бакета (версия {version})."@,
            M::BucketPublishFailed => "публикация из бакета не удалась: {error}"@,
            M::BucketPublishTimeout => "публикация из бакета ещё идёт; проверьте статус сайта позже."@,
            M::DeletedFiles => "удалено файлов: {count}"@,
            M::UploadBar => "  заливка [{bar:30}] {pos}/{len} файлов"@,
            M::NotFoundSite => "статический сайт `{host}` не найден"@,
            M::PublishNeedsSiteRef => "укажите сайт: передайте hostname или --site-id"@,
            M::NotADir => "не каталог: {path}"@,
            M::DirNotFound => "каталог не найден: {path}"@,
            M::HMode => "Режим"@,
            M::HTarget => "Цель"@,
            M::HSsl => "SSL"@,
            M::HBotProt => "Бот-защита"@,
            M::ProxyCreated => "конфиг прокси для `{host}` создан."@,
            M::ProxyUpdated => "конфиг прокси для `{host}` обновлён."@,
            M::ProxyRemoved => "конфиг прокси для `{host}` удалён."@,
            M::ConfirmRemoveProxy => "Удалить edge-конфиг для `{host}`?"@,
            M::NotFoundProxy => "конфиг прокси для `{host}` не найден"@,
            M::HCurrency => "Валюта"@,
            M::HBalance => "Баланс"@,
            M::HMetric => "Показатель"@,
            M::HIp => "IP"@,
            M::HReason => "Причина"@,
            M::HLastSeen => "Последний запрос"@,
            M::HRequests => "Запросов"@,
            M::NoBans => "активных банов нет"@,
            M::ErrNetwork => "ошибка сети при запросе к API"@,
            M::ErrParse => "не удалось разобрать ответ API"@,
            M::ErrUnauthorized => "Проверьте токен (`webshield auth status`)."@,
            M::ErrForbidden => "Возможно, у токена нет нужного скоупа или он привязан к другому домену/сайту."@,
        }
    }

    /// The (English, Russian) texts of the message.
    pub fn pair(self) -> (r: (&'static str, &'static str))
        ensures
            r.0@ == self.en(),
            r.1@ == self.ru(),
    {
        match self {
            M::AppAbout => ("WebShield command-line client", "Клиент командной строки WebShield"),
            M::CmdAuth => ("Authentication and profiles", "Аутентификация и профили"),
            M::CmdDomains => ("Domains (zones)", "Домены (зоны)"),
            M::CmdDns => ("DNS records", "DNS-записи домена"),
            M::CmdSites => ("Static sites and publishing", "Статические сайты и публикация"),
            M::CmdProxy => ("Proxy/redirect host edge settings", "Edge-настройки прокси/редиректов"),
            M::CmdStats => ("Statistics and protection", "Статистика и защита"),
            M::CmdBilling => ("Billing (balance, usage, tariffs)", "Биллинг (баланс, трафик, тарифы)"),
            M::CmdCompletion => ("Generate a shell completion script", "Скрипт автодополнения для оболочки"),
            M::Yes => ("yes", "да"),
            M::No => ("no", "нет"),
            M::Dash => ("—", "—"),
            M::Empty => ("— empty —", "— пусто —"),
            M::HValue => ("Value", "Значение"),
            M::ErrorPrefix => ("error:", "ошибка:"),
            M::ConfirmSuffix => ("[y/N]", "[y/N]"),
            M::ConfirmCancelled => ("cancelled by user", "отменено пользователем"),
            M::TokenPrompt => ("Token wsk_…: ", "Токен wsk_…: "),
            M::TokenWarnPrefix => ("warning: a token usually starts with `wsk_`.", "предупреждение: токен обычно начинается с `wsk_`."),
            M::LblProfile => ("Profile:", "Профиль: "),
            M::LblApiUrl => ("API URL:", "API URL: "),
            M::LblToken => ("Token:  ", "Токен:   "),
            M::LblAccess => ("Access: ", "Доступ:  "),
            M::LblLang => ("Language:", "Язык:    "),
            M::TokenSet => ("set", "задан"),
            M::TokenUnset => ("not set", "не задан"),
            M::LoginHint => ("Run `webshield auth login` to store a token.", "Выполните `webshield auth login`, чтобы сохранить токен."),
            M::TokenSavedOk => ("token saved to profile `{profile}`, access confirmed.", "токен сохранён в профиль `{profile}`, доступ подтверждён."),
            M::TokenSavedScoped => ("token saved to profile `{profile}` (valid, but narrow scopes).", "токен сохранён в профиль `{profile}` (валиден, но со суженными скоупами)."),
            M::TokenSavedCode => ("token saved, but the check returned HTTP {code}.", "токен сохранён, но проверка вернула HTTP {code}."),
            M::TokenSavedProbeFail => ("token saved, but the check failed: {err}", "токен сохранён, но проверка не удалась: {err}"),
            M::TokenRemoved => ("token removed from profile `{profile}`.", "токен удалён из профиля `{profile}`."),
            M::ProfileNotFound => ("profile `{profile}` not found — nothing to remove.", "профиль `{profile}` не найден — нечего удалять."),
            M::AccessOk => ("API access confirmed", "доступ к API подтверждён"),
            M::AccessInvalid => ("token is invalid (401)", "токен недействителен (401)"),
            M::AccessForbidden => ("token valid, but no access to domains (403)", "токен валиден, но без доступа к доменам (403)"),
            M::AccessUnexpected => ("unexpected response HTTP {code}", "неожиданный ответ HTTP {code}"),
            M::NoToken => ("no token for profile `{profile}`.\nRun `webshield auth login --token wsk_…` or set env WS_TOKEN.", "не найден токен для профиля `{profile}`.\nВыполните `webshield auth login --token wsk_…` или задайте env WS_TOKEN."),
            M::HId => ("ID", "ID"),
            M::HDomain => ("Domain", "Домен"),
            M::HDelegated => ("Delegated", "Делегирован"),
            M::HTariff => ("Tariff", "Тариф"),
            M::DomainCreated => ("domain `{name}` created (id {id}).", "домен `{name}` создан (id {id})."),
            M::DomainDeleted => ("domain `{name}` deleted.", "домен `{name}` удалён."),
            M::DomainNotFound => ("domain `{name}` not found among your domains", "домен `{name}` не найден среди ваших доменов"),
            M::ConfirmDeleteDomain => ("Delete domain `{name}` and its zone? This is irreversible.", "Удалить домен `{name}` и его зону? Это необратимо."),
            M::DelegationOk => ("domain `{name}` is delegated to WebShield.", "домен `{name}` делегирован на WebShield."),
            M::DelegationNotDelegated => ("domain `{name}` is not delegated.", "домен `{name}` не делегирован."),
            M::DelegationCurrentNs => ("current NS at the parent zone: {ns}", "текущие NS в родительской зоне: {ns}"),
            M::DelegationMissingNs => ("WebShield nameservers are missing at the registrar: {ns}", "у регистратора не указаны NS-серверы WebShield: {ns}"),
            M::DelegationExtraNs => ("remove the other nameservers at the registrar: {ns}", "уберите у регистратора посторонние NS-серверы: {ns}"),
            M::DelegationNoNs => ("no NS delegation found in the parent zone.", "NS-делегирование в родительской зоне не найдено."),
            M::DelegationUnknown => ("delegation status is unknown.", "статус делегирования неизвестен."),
            M::DelegationPropagationNote => ("nameserver changes at the registrar can take up to 48 hours to propagate.", "изменения NS у регистратора могут применяться до 48 часов."),
            M::HName => ("Name", "Имя"),
            M::HType => ("Type", "Тип"),
            M::HTtl => ("TTL", "TTL"),
            M::HProxy => ("Proxy", "Прокси"),
            M::HValues => ("Values", "Значения"),
            M::DnsAdded => ("{name} {type} {domain}: values added — {count}.", "{name} {type} {domain}: добавлено значений — {count}."),
            M::DnsSet => ("{name} {type} {domain}: values set — {count}.", "{name} {type} {domain}: установлено значений — {count}."),
            M::DnsRemoved => ("{name} {type} {domain}: values removed — {count}.", "{name} {type} {domain}: удалено значений — {count}."),
            M::RecordNotFound => ("record {name} {type} not found", "запись {name} {type} не найдена"),
            M::NothingToDelete => ("nothing to delete: record {name} {type} has no values", "нечего удалять: у записи {name} {type} нет значений"),
            M::HHost => ("Host", "Хост"),
            M::HStatus => ("Status", "Статус"),
            M::HVersion => ("Version", "Версия"),
            M::HSize => ("Size", "Размер"),
            M::HPath => ("Path", "Путь"),
            M::HEtag => ("ETag", "ETag"),
            M::SiteCreated => ("site `{host}` created (id {id}).", "сайт `{host}` создан (id {id})."),
            M::SiteDisabled => ("site `{host}` unpublished.", "сайт `{host}` снят с публикации."),
            M::PublishSummary => ("Site #{id}: local {local}, server {server} — upload {up}, delete {del}, unchanged {same}.", "Сайт #{id}: локально {local}, на сервере {server} — залить {up}, удалить {del}, без изменений {same}."),
            M::PublishNoChanges => ("no changes — nothing to publish.", "изменений нет — публикация не требуется."),
            M::PublishDryRun => ("dry-run: no changes applied.", "dry-run: изменения не применяются."),
            M::Published => ("published.", "опубликовано."),
            M::BucketPublishStarted => ("publishing from bucket…", "публикация из бакета…"),
            M::BucketPublished => ("published from bucket (version {version}).", "опубликовано из бакета (версия {version})."),
            M::BucketPublishFailed => ("bucket publish failed: {error}", "публикация из бакета не удалась: {error}"),
            M::BucketPublishTimeout => ("bucket publish is still running; check the site status later.", "публикация из бакета ещё идёт; проверьте статус сайта позже."),
            M::DeletedFiles => ("files deleted: {count}", "удалено файлов: {count}"),
            M::UploadBar => ("  upload [{bar:30}] {pos}/{len} files", "  заливка [{bar:30}] {pos}/{len} файлов"),
            M::NotFoundSite => ("static site `{host}` not found", "статический сайт `{host}` не найден"),
            M::PublishNeedsSiteRef => ("specify a site: pass a hostname or --site-id", "укажите сайт: передайте hostname или --site-id"),
            M::NotADir => ("not a directory: {path}", "не каталог: {path}"),
            M::DirNotFound => ("directory not found: {path}", "каталог не найден: {path}"),
            M::HMode => ("Mode", "Режим"),
            M::HTarget => ("Target", "Цель"),
            M::HSsl => ("SSL", "SSL"),
            M::HBotProt => ("Bot protection", "Бот-защита"),
            M::ProxyCreated => ("proxy config for `{host}` created.", "конфиг прокси для `{host}` создан."),
            M::ProxyUpdated => ("proxy config for `{host}` updated.", "конфиг прокси для `{host}` обновлён."),
            M::ProxyRemoved => ("proxy config for `{host}` removed.", "конфиг прокси для `{host}` удалён."),
            M::ConfirmRemoveProxy => ("Remove edge config for `{host}`?", "Удалить edge-конфиг для `{host}`?"),
            M::NotFoundProxy => ("proxy config for `{host}` not found", "конфиг прокси для `{host}` не найден"),
            M::HCurrency => ("Currency", "Валюта"),
            M::HBalance => ("Balance", "Баланс"),
            M::HMetric => ("Metric", "Показатель"),
            M::HIp => ("IP", "IP"),
            M::HReason => ("Reason", "Причина"),
            M::HLastSeen => ("Last seen", "Последний запрос"),
            M::HRequests => ("Requests", "Запросов"),
            M::NoBans => ("no active bans", "активных банов нет"),
            M::ErrNetwork => ("network error while calling the API", "ошибка сети при запросе к API"),
            M::ErrParse => ("failed to parse the API response", "не удалось разобрать ответ API"),
            M::ErrUnauthorized => ("check the token (`webshield auth status`).", "Проверьте токен (`webshield auth status`)."),
            M::ErrForbidden => ("the token may lack the required scope or be bound to another domain/site.", "Возможно, у токена нет нужного скоупа или он привязан к другому домену/сайту."),
        }
    }
}

/// The text of `m` in `lang`.
pub open spec fn message(m: M, lang: Lang) -> Seq<char> {
    match lang {
        Lang::En => m.en(),
        Lang::Ru => m.ru(),
    }
}

/// Localized fixed string.
pub fn tr(lang: Lang, m: M) -> (r: &'static str)
    ensures
        r@ == message(m, lang),
{
    let (en, ru) = m.pair();
    match lang {
        Lang::En => en,
        Lang::Ru => ru,
    }
}

/// `{key}`: the placeholder of a template argument.
pub open spec fn placeholder(key: Seq<char>) -> Seq<char> {
    seq!['{'] + key + seq!['}']
}

/// `s` with every `{key}` replaced by its value, argument by argument in order.
pub open spec fn fill(s: Seq<char>, args: Seq<(Seq<char>, Seq<char>)>) -> Seq<char>
    decreases args.len(),
{
    if args.len() == 0 {
        s
    } else {
        fill(replace_all(s, placeholder(args[0].0), args[0].1), args.drop_first())
    }
}

/// The view of template arguments.
pub open spec fn args_view(args: Seq<(&str, &str)>) -> Seq<(Seq<char>, Seq<char>)> {
    args.map_values(|a: (&str, &str)| (a.0@, a.1@))
}

/// Localized string with named `{key}` placeholder interpolation.
pub fn f(lang: Lang, m: M, args: &[(&str, &str)]) -> (r: String)
    ensures
        r@ == fill(message(m, lang), args_view(args@)),
{
    let mut s = chars_of(tr(lang, m));
    let ghost all = args_view(args@);
    let mut i: usize = 0;
    assert(all.skip(0) =~= all);
    while i < args.len()
        invariant
            i <= args.len(),
            all == args_view(args@),
            fill(message(m, lang), all) == fill(s@, all.skip(i as int)),
        decreases args.len() - i,
    {
        let (k, v) = args[i];
        let mut pat: Vec<char> = vec!['{'];
        pat = concat(&pat, &chars_of(k));
        pat.push('}');
        assert(pat@ =~= placeholder(k@));
        let val = chars_of(v);
        let ghost rest = all.skip(i as int);
        assert(rest[0] == (k@, v@));
        assert(rest.drop_first() =~= all.skip(i + 1));
        s = replace_chars(&s, &pat, &val);
        i += 1;
    }
    assert(all.skip(i as int) =~= Seq::<(Seq<char>, Seq<char>)>::empty());
    string_of(&s)
}

/// Localized string with one `{key}` placeholder filled in.
pub fn f1(lang: Lang, m: M, key: &str, value: &str) -> (r: String)
    ensures
        r@ == fill(message(m, lang), seq![(key@, value@)]),
{
    let args = [(key, value)];
    let r = f(lang, m, &args);
    assert(args_view(args@) =~= seq![(key@, value@)]);
    r
}

/// The language named by `v` (trimmed, any case), if any.
pub open spec fn lang_named(v: Seq<char>) -> Option<Lang> {
    let k = str_lower(trim(v));
    if k == "ru"@ || k == "rus"@ || k == "russian"@ || k == "русский"@ {
        Some(Lang::Ru)
    } else if k == "en"@ || k == "eng"@ || k == "english"@ {
        Some(Lang::En)
    } else {
        None
    }
}

/// The language named by `v` (trimmed, any case), if any.
pub fn parse(v: &str) -> (r: Option<Lang>)
    ensures
        r == lang_named(v@),
{
    let t = trim_chars(&chars_of(v));
    let k = lowercase_chars(&t);
    if chars_are(&k, "ru") || chars_are(&k, "rus") || chars_are(&k, "russian") || chars_are(
        &k,
        "русский",
    ) {
        Some(Lang::Ru)
    } else if chars_are(&k, "en") || chars_are(&k, "eng") || chars_are(&k, "english") {
        Some(Lang::En)
    } else {
        None
    }
}

/// The language implied by the system locale variables (`LC_ALL`, `LC_MESSAGES`,
/// `LANG`, in that order; `None` for an unset variable). A variable starting with
/// `ru` means Russian; any other non-empty value except `C`/`POSIX` means English;
/// empty, `C` and `POSIX` defer to the next variable.
pub open spec fn lang_of_locale_vars(vars: Seq<Option<Seq<char>>>) -> Lang
    decreases vars.len(),
{
    if vars.len() == 0 {
        Lang::En
    } else {
        match vars[0] {
            Some(raw) => {
                let v = str_lower(raw);
                if has_prefix(v, "ru"@) {
                    Lang::Ru
                } else if v.len() > 0 && v != "c"@ && v != "posix"@ {
                    Lang::En
                } else {
                    lang_of_locale_vars(vars.drop_first())
                }
            },
            None => lang_of_locale_vars(vars.drop_first()),
        }
    }
}

/// The view of the locale variables.
pub open spec fn vars_view(vars: Seq<Option<String>>) -> Seq<Option<Seq<char>>> {
    vars.map_values(|v: Option<String>| match v {
        Some(s) => Some(s@),
        None => None,
    })
}

/// The resolved language: the flag when it names one, then `WS_LANG`, then the
/// locale variables.
pub open spec fn resolved_lang(
    flag: Option<Seq<char>>,
    ws_lang: Option<Seq<char>>,
    vars: Seq<Option<Seq<char>>>,
) -> Lang {
    if flag is Some && lang_named(flag->0) is Some {
        lang_named(flag->0)->0
    } else if ws_lang is Some && lang_named(ws_lang->0) is Some {
        lang_named(ws_lang->0)->0
    } else {
        lang_of_locale_vars(vars)
    }
}

/// Resolves the language from the flag, the `WS_LANG` value and the locale
/// variables (read by the caller).
pub fn resolve_with(flag: Option<&str>, ws_lang: Option<&str>, locale_vars: &[Option<String>]) -> (r:
    Lang)
    ensures
        r == resolved_lang(
            match flag {
                Some(s) => Some(s@),
                None => None,
            },
            match ws_lang {
                Some(s) => Some(s@),
                None => None,
            },
            vars_view(locale_vars@),
        ),
{
    if let Some(fl) = flag {
        if let Some(l) = parse(fl) {
            return l;
        }
    }
    if let Some(w) = ws_lang {
        if let Some(l) = parse(w) {
            return l;
        }
    }
    let ghost all = vars_view(locale_vars@);
    let ghost fv = match flag {
        Some(s) => Some(s@),
        None => None,
    };
    let ghost wv = match ws_lang {
        Some(s) => Some(s@),
        None => None,
    };
    assert(resolved_lang(fv, wv, all) == lang_of_locale_vars(all));
    let mut i: usize = 0;
    assert(all.skip(0) =~= all);
    while i < locale_vars.len()
        invariant
            i <= locale_vars.len(),
            all == vars_view(locale_vars@),
            resolved_lang(fv, wv, all) == lang_of_locale_vars(all),
            fv == match flag {
                Some(s) => Some(s@),
                None => None,
            },
            wv == match ws_lang {
                Some(s) => Some(s@),
                None => None,
            },
            lang_of_locale_vars(all) == lang_of_locale_vars(all.skip(i as int)),
        decreases locale_vars.len() - i,
    {
        let ghost rest = all.skip(i as int);
        assert(rest.drop_first() =~= all.skip(i + 1));
        assert(rest[0] == all[i as int]);
        match &locale_vars[i] {
            Some(raw) => {
                assert(rest[0] == Some(raw@));
                let v = lowercase_chars(&chars_of(raw.as_str()));
                if starts_with_seq(&v, &chars_of("ru")) {
                    return Lang::Ru;
                }
                if v.len() > 0 && !chars_are(&v, "c") && !chars_are(&v, "posix") {
                    return Lang::En;
                }
            },
            None => {},
        }
        i += 1;
    }
    Lang::En
}

/// The value of the first `--lang` option in `args`: `--lang=<v>` or `--lang <v>`.
pub open spec fn lang_option(args: Seq<Seq<char>>) -> Option<Seq<char>>
    decreases args.len(),
{
    if args.len() == 0 {
        None
    } else if has_prefix(args[0], "--lang="@) {
        Some(args[0].skip("--lang="@.len() as int))
    } else if args[0] == "--lang"@ {
        if args.len() > 1 {
            Some(args[1])
        } else {
            None
        }
    } else {
        lang_option(args.drop_first())
    }
}

/// Pre-extracts the `--lang` value from raw arguments (before full parsing,
/// so that help prints in the right language straight away).
pub fn prescan_lang(args: &[String]) -> (r: Option<String>)
    ensures
        match r {
            Some(v) => lang_option(args@.map_values(|a: String| a@)) == Some(v@),
            None => lang_option(args@.map_values(|a: String| a@)) is None,
        },
{
    let ghost all = args@.map_values(|a: String| a@);
    let prefix = chars_of("--lang=");
    let mut i: usize = 0;
    assert(all.skip(0) =~= all);
    while i < args.len()
        invariant
            i <= args.len(),
            all == args@.map_values(|a: String| a@),
            prefix@ == "--lang="@,
            lang_option(all) == lang_option(all.skip(i as int)),
        decreases args.len() - i,
    {
        let ghost rest = all.skip(i as int);
        assert(rest.drop_first() =~= all.skip(i + 1));
        assert(rest[0] == args@[i as int]@);
        let a = chars_of(args[i].as_str());
        if starts_with_seq(&a, &prefix) {
            let v = sub_chars(&a, prefix.len(), a.len());
            assert(v@ =~= a@.skip(prefix@.len() as int));
            return Some(string_of(&v));
        }
        if chars_are(&a, "--lang") {
            if i + 1 < args.len() {
                assert(rest[1] == args@[i + 1]@);
                return Some(args[i + 1].clone());
            } else {
                return None;
            }
        }
        i += 1;
    }
    None
}

/// Russian short description of a command by its path; the group entries use
/// the message table in `lang`.
pub open spec fn about_ru(lang: Lang, rel: Seq<char>) -> Option<Seq<char>> {
    if rel == "help"@ || has_suffix(rel, " help"@) {
        Some("Показать справку по команде"@)
    } else if rel == ""@ {
        Some(message(M::AppAbout, lang))
    } else if rel == "auth"@ {
        Some(message(M::CmdAuth, lang))
    } else if rel == "auth login"@ {
        Some("Сохранить токен wsk_… в профиль и проверить его."@)
    } else if rel == "auth status"@ {
        Some("Показать активный профиль и проверить доступ к API."@)
    } else if rel == "auth logout"@ {
        Some("Удалить токен из активного профиля."@)
    } else if rel == "domains"@ {
        Some(message(M::CmdDomains, lang))
    } else if rel == "domains list"@ {
        Some("Список ваших доменов."@)
    } else if rel == "domains add"@ {
        Some("Добавить домен (создать зону)."@)
    } else if rel == "domains get"@ {
        Some("Показать домен."@)
    } else if rel == "domains remove"@ {
        Some("Удалить домен и его зону."@)
    } else if rel == "domains check"@ {
        Some("Проверить делегирование (NS указывают на нас)."@)
    } else if rel == "dns"@ {
        Some(message(M::CmdDns, lang))
    } else if rel == "dns list"@ {
        Some("Список DNS-записей домена."@)
    } else if rel == "dns add"@ {
        Some("Добавить значение(я) к записи (для A/AAAA/TXT дополняет существующие)."@)
    } else if rel == "dns set"@ {
        Some("Заменить запись ровно на указанные значения."@)
    } else if rel == "dns remove"@ {
        Some("Удалить значение(я) записи; без значений — удалить весь набор."@)
    } else if rel == "dns dnssec"@ {
        Some("Управление DNSSEC."@)
    } else if rel == "dns dnssec status"@ {
        Some("Статус DNSSEC и DS-записи для регистратора."@)
    } else if rel == "dns dnssec enable"@ {
        Some("Включить онлайн-подписывание зоны."@)
    } else if rel == "dns dnssec disable"@ {
        Some("Выключить DNSSEC (заблокировано при живом DS у родителя; см. --force)."@)
    } else if rel == "sites"@ {
        Some(message(M::CmdSites, lang))
    } else if rel == "sites list"@ {
        Some("Список статических сайтов."@)
    } else if rel == "sites create"@ {
        Some("Создать статический сайт на хосте."@)
    } else if rel == "sites publish"@ {
        Some("Инкрементально опубликовать каталог как содержимое сайта."@)
    } else if rel == "sites files"@ {
        Some("Список файлов текущего draft."@)
    } else if rel == "sites disable"@ {
        Some("Снять сайт с публикации."@)
    } else if rel == "proxy"@ {
        Some(message(M::CmdProxy, lang))
    } else if rel == "proxy list"@ {
        Some("Список конфигов прокси/редирект-хостов."@)
    } else if rel == "proxy get"@ {
        Some("Показать конфиг хоста."@)
    } else if rel == "proxy set"@ {
        Some("Создать или обновить конфиг хоста (частичное обновление, если существует)."@)
    } else if rel == "proxy remove"@ {
        Some("Удалить конфиг хоста."@)
    } else if rel == "stats"@ {
        Some(message(M::CmdStats, lang))
    } else if rel == "stats summary"@ {
        Some("Сводка по трафику/запросам домена."@)
    } else if rel == "stats bans"@ {
        Some("Активные баны/челленджи домена."@)
    } else if rel == "billing"@ {
        Some(message(M::CmdBilling, lang))
    } else if rel == "billing balance"@ {
        Some("Баланс счёта по валютам."@)
    } else if rel == "billing usage"@ {
        Some("Потребление трафика домена относительно лимита тарифа."@)
    } else if rel == "billing tariffs"@ {
        Some("Текущий и доступные тарифы домена."@)
    } else if rel == "completion"@ {
        Some(message(M::CmdCompletion, lang))
    } else {
        None
    }
}

/// Russian description of an argument by command path and argument id.
pub open spec fn arg_help_ru(rel: Seq<char>, id: Seq<char>) -> Option<Seq<char>> {
    if rel == "auth login"@ && id == "token"@ {
        Some("Токен wsk_… (спросим интерактивно, если не задан)"@)
    } else if rel == "auth login"@ && id == "api_url"@ {
        Some("Базовый URL API для профиля"@)
    } else if rel == "sites create"@ && id == "domain"@ {
        Some("Домен-владелец"@)
    } else if rel == "proxy set"@ && id == "domain"@ {
        Some("Домен-владелец (обязателен при создании)"@)
    } else if rel == "dns remove"@ && id == "value"@ {
        Some("Конкретные значения для удаления (иначе удаляется весь набор)"@)
    } else if has_prefix(rel, "domains "@) && id == "name"@ {
        Some("Имя домена"@)
    } else if has_prefix(rel, "dns "@) && id == "name"@ {
        Some("Имя записи относительно домена или `@` для апекса"@)
    } else if id == "help"@ {
        Some("Показать справку"@)
    } else if id == "version"@ {
        Some("Показать версию"@)
    } else if id == "profile"@ {
        Some("Профиль конфигурации (по умолчанию активный из config.toml)"@)
    } else if id == "api_url"@ {
        Some("Базовый URL API (переопределяет профиль)"@)
    } else if id == "token"@ {
        Some("Персональный токен `wsk_…` (переопределяет профиль)"@)
    } else if id == "lang"@ {
        Some("Язык интерфейса (en/ru); по умолчанию WS_LANG или системная локаль"@)
    } else if id == "output"@ {
        Some("Формат вывода"@)
    } else if id == "yes"@ {
        Some("Не спрашивать подтверждения для разрушительных операций"@)
    } else if id == "domain"@ {
        Some("Домен"@)
    } else if id == "import"@ {
        Some("Импорт записей при создании: scan | none"@)
    } else if id == "rr_type"@ {
        Some("Фильтр по типу записи (A, AAAA, CNAME, …)"@)
    } else if id == "TYPE"@ {
        Some("Тип записи"@)
    } else if id == "value"@ {
        Some("Одно или несколько значений"@)
    } else if id == "ttl"@ {
        Some("TTL записи (секунды)"@)
    } else if id == "force"@ {
        Some("Снять подпись даже при живом DS у родителя (риск SERVFAIL)"@)
    } else if id == "hostname"@ {
        Some("Hostname хоста"@)
    } else if id == "dir"@ {
        Some("Каталог собранного сайта"@)
    } else if id == "dry_run"@ {
        Some("Показать план без изменений"@)
    } else if id == "range"@ {
        Some("Период, например 24h, 7d"@)
    } else if id == "mode"@ {
        Some("Режим: proxy | redirect"@)
    } else if id == "redirect_target"@ {
        Some("Целевой hostname редиректа (для mode=redirect)"@)
    } else if id == "ssl"@ {
        Some("Требовать HTTPS (true/false)"@)
    } else if id == "bot_protection"@ {
        Some("Бот-защита (true/false)"@)
    } else if id == "captcha"@ {
        Some("Проверка капчей (true/false)"@)
    } else if id == "http2"@ {
        Some("HTTP/2 (true/false)"@)
    } else if id == "http3"@ {
        Some("HTTP/3 (true/false)"@)
    } else if id == "max_body_mb"@ {
        Some("Максимальный размер тела запроса, МБ (0 = без лимита)"@)
    } else if id == "block_bots"@ {
        Some("Слаги блокируемых ботов через запятую (см. `webshield bots`)"@)
    } else if id == "shell"@ {
        Some("Оболочка: bash, zsh, fish, powershell, elvish, nushell"@)
    } else {
        None
    }
}

/// Russian short description of a command by its path (`""` is the root,
/// `"dns add"` a nested command).
pub fn cmd_about_ru(lang: Lang, rel: &str) -> (r: Option<&'static str>)
    ensures
        r matches Some(s) ==> about_ru(lang, rel@) == Some(s@),
        r is None ==> about_ru(lang, rel@) is None,
{
    let v = chars_of(rel);
    let help_suffix = chars_of(" help");
    if chars_are(&v, "help") || ends_with_seq(&v, &help_suffix) {
        Some("Показать справку по команде")
    } else if chars_are(&v, "") {
        Some(tr(lang, M::AppAbout))
    } else if chars_are(&v, "auth") {
        Some(tr(lang, M::CmdAuth))
    } else if chars_are(&v, "auth login") {
        Some("Сохранить токен wsk_… в профиль и проверить его.")
    } else if chars_are(&v, "auth status") {
        Some("Показать активный профиль и проверить доступ к API.")
    } else if chars_are(&v, "auth logout") {
        Some("Удалить токен из активного профиля.")
    } else if chars_are(&v, "domains") {
        Some(tr(lang, M::CmdDomains))
    } else if chars_are(&v, "domains list") {
        Some("Список ваших доменов.")
    } else if chars_are(&v, "domains add") {
        Some("Добавить домен (создать зону).")
    } else if chars_are(&v, "domains get") {
        Some("Показать домен.")
    } else if chars_are(&v, "domains remove") {
        Some("Удалить домен и его зону.")
    } else if chars_are(&v, "domains check") {
        Some("Проверить делегирование (NS указывают на нас).")
    } else if chars_are(&v, "dns") {
        Some(tr(lang, M::CmdDns))
    } else if chars_are(&v, "dns list") {
        Some("Список DNS-записей домена.")
    } else if chars_are(&v, "dns add") {
        Some("Добавить значение(я) к записи (для A/AAAA/TXT дополняет существующие).")
    } else if chars_are(&v, "dns set") {
        Some("Заменить запись ровно на указанные значения.")
    } else if chars_are(&v, "dns remove") {
        Some("Удалить значение(я) записи; без значений — удалить весь набор.")
    } else if chars_are(&v, "dns dnssec") {
        Some("Управление DNSSEC.")
    } else if chars_are(&v, "dns dnssec status") {
        Some("Статус DNSSEC и DS-записи для регистратора.")
    } else if chars_are(&v, "dns dnssec enable") {
        Some("Включить онлайн-подписывание зоны.")
    } else if chars_are(&v, "dns dnssec disable") {
        Some("Выключить DNSSEC (заблокировано при живом DS у родителя; см. --force).")
    } else if chars_are(&v, "sites") {
        Some(tr(lang, M::CmdSites))
    } else if chars_are(&v, "sites list") {
        Some("Список статических сайтов.")
    } else if chars_are(&v, "sites create") {
        Some("Создать статический сайт на хосте.")
    } else if chars_are(&v, "sites publish") {
        Some("Инкрементально опубликовать каталог как содержимое сайта.")
    } else if chars_are(&v, "sites files") {
        Some("Список файлов текущего draft.")
    } else if chars_are(&v, "sites disable") {
        Some("Снять сайт с публикации.")
    } else if chars_are(&v, "proxy") {
        Some(tr(lang, M::CmdProxy))
    } else if chars_are(&v, "proxy list") {
        Some("Список конфигов прокси/редирект-хостов.")
    } else if chars_are(&v, "proxy get") {
        Some("Показать конфиг хоста.")
    } else if chars_are(&v, "proxy set") {
        Some("Создать или обновить конфиг хоста (частичное обновление, если существует).")
    } else if chars_are(&v, "proxy remove") {
        Some("Удалить конфиг хоста.")
    } else if chars_are(&v, "stats") {
        Some(tr(lang, M::CmdStats))
    } else if chars_are(&v, "stats summary") {
        Some("Сводка по трафику/запросам домена.")
    } else if chars_are(&v, "stats bans") {
        Some("Активные баны/челленджи домена.")
    } else if chars_are(&v, "billing") {
        Some(tr(lang, M::CmdBilling))
    } else if chars_are(&v, "billing balance") {
        Some("Баланс счёта по валютам.")
    } else if chars_are(&v, "billing usage") {
        Some("Потребление трафика домена относительно лимита тарифа.")
    } else if chars_are(&v, "billing tariffs") {
        Some("Текущий и доступные тарифы домена.")
    } else if chars_are(&v, "completion") {
        Some(tr(lang, M::CmdCompletion))
    } else {
        None
    }
}

/// Russian description of an argument by command path and argument id.
pub fn arg_ru(rel: &str, id: &str) -> (r: Option<&'static str>)
    ensures
        r matches Some(s) ==> arg_help_ru(rel@, id@) == Some(s@),
        r is None ==> arg_help_ru(rel@, id@) is None,
{
    let rv = chars_of(rel);
    let iv = chars_of(id);
    if chars_are(&rv, "auth login") && chars_are(&iv, "token") {
        Some("Токен wsk_… (спросим интерактивно, если не задан)")
    } else if chars_are(&rv, "auth login") && chars_are(&iv, "api_url") {
        Some("Базовый URL API для профиля")
    } else if chars_are(&rv, "sites create") && chars_are(&iv, "domain") {
        Some("Домен-владелец")
    } else if chars_are(&rv, "proxy set") && chars_are(&iv, "domain") {
        Some("Домен-владелец (обязателен при создании)")
    } else if chars_are(&rv, "dns remove") && chars_are(&iv, "value") {
        Some("Конкретные значения для удаления (иначе удаляется весь набор)")
    } else if starts_with_seq(&rv, &chars_of("domains ")) && chars_are(&iv, "name") {
        Some("Имя домена")
    } else if starts_with_seq(&rv, &chars_of("dns ")) && chars_are(&iv, "name") {
        Some("Имя записи относительно домена или `@` для апекса")
    } else if chars_are(&iv, "help") {
        Some("Показать справку")
    } else if chars_are(&iv, "version") {
        Some("Показать версию")
    } else if chars_are(&iv, "profile") {
        Some("Профиль конфигурации (по умолчанию активный из config.toml)")
    } else if chars_are(&iv, "api_url") {
        Some("Базовый URL API (переопределяет профиль)")
    } else if chars_are(&iv, "token") {
        Some("Персональный токен `wsk_…` (переопределяет профиль)")
    } else if chars_are(&iv, "lang") {
        Some("Язык интерфейса (en/ru); по умолчанию WS_LANG или системная локаль")
    } else if chars_are(&iv, "output") {
        Some("Формат вывода")
    } else if chars_are(&iv, "yes") {
        Some("Не спрашивать подтверждения для разрушительных операций")
    } else if chars_are(&iv, "domain") {
        Some("Домен")
    } else if chars_are(&iv, "import") {
        Some("Импорт записей при создании: scan | none")
    } else if chars_are(&iv, "rr_type") {
        Some("Фильтр по типу записи (A, AAAA, CNAME, …)")
    } else if chars_are(&iv, "TYPE") {
        Some("Тип записи")
    } else if chars_are(&iv, "value") {
        Some("Одно или несколько значений")
    } else if chars_are(&iv, "ttl") {
        Some("TTL записи (секунды)")
    } else if chars_are(&iv, "force") {
        Some("Снять подпись даже при живом DS у родителя (риск SERVFAIL)")
    } else if chars_are(&iv, "hostname") {
        Some("Hostname хоста")
    } else if chars_are(&iv, "dir") {
        Some("Каталог собранного сайта")
    } else if chars_are(&iv, "dry_run") {
        Some("Показать план без изменений")
    } else if chars_are(&iv, "range") {
        Some("Период, например 24h, 7d")
    } else if chars_are(&iv, "mode") {
        Some("Режим: proxy | redirect")
    } else if chars_are(&iv, "redirect_target") {
        Some("Целевой hostname редиректа (для mode=redirect)")
    } else if chars_are(&iv, "ssl") {
        Some("Требовать HTTPS (true/false)")
    } else if chars_are(&iv, "bot_protection") {
        Some("Бот-защита (true/false)")
    } else if chars_are(&iv, "captcha") {
        Some("Проверка капчей (true/false)")
    } else if chars_are(&iv, "http2") {
        Some("HTTP/2 (true/false)")
    } else if chars_are(&iv, "http3") {
        Some("HTTP/3 (true/false)")
    } else if chars_are(&iv, "max_body_mb") {
        Some("Максимальный размер тела запроса, МБ (0 = без лимита)")
    } else if chars_are(&iv, "block_bots") {
        Some("Слаги блокируемых ботов через запятую (см. `webshield bots`)")
    } else if chars_are(&iv, "shell") {
        Some("Оболочка: bash, zsh, fish, powershell, elvish, nushell")
    } else {
        None
    }
}
/// The `--lang` flag wins: when it names a language, that is the language,
/// whatever `WS_LANG` and the locale variables hold. Without a usable flag, a
/// `WS_LANG` that names a language wins over the locale variables.
pub proof fn law_flag_then_env(flag: Option<Seq<char>>, ws_lang: Option<Seq<char>>, vars: Seq<Option<Seq<char>>>)
    ensures
        (flag is Some && lang_named(flag->0) is Some) ==> resolved_lang(flag, ws_lang, vars) == lang_named(
            flag->0,
        )->0,
        (!(flag is Some && lang_named(flag->0) is Some) && ws_lang is Some && lang_named(ws_lang->0) is Some)
            ==> resolved_lang(flag, ws_lang, vars) == lang_named(ws_lang->0)->0,
{
}

/// Without a usable flag or `WS_LANG`, the locale variables decide in order:
/// none at all means English; an unset, empty, `C` or `POSIX` variable passes
/// the decision to the next one; a variable starting with `ru` (in any case)
/// means Russian, and any other value English.
pub proof fn law_locale_vars(vars: Seq<Option<Seq<char>>>)
    ensures
        vars.len() == 0 ==> lang_of_locale_vars(vars) == Lang::En,
        (vars.len() > 0 && (vars[0] is None || str_lower(vars[0]->0).len() == 0 || str_lower(vars[0]->0) == "c"@
            || str_lower(vars[0]->0) == "posix"@)) ==> lang_of_locale_vars(vars) == lang_of_locale_vars(
            vars.drop_first(),
        ),
        (vars.len() > 0 && vars[0] is Some && has_prefix(str_lower(vars[0]->0), "ru"@)) ==> lang_of_locale_vars(vars)
            == Lang::Ru,
        (vars.len() > 0 && vars[0] is Some && !has_prefix(str_lower(vars[0]->0), "ru"@) && str_lower(vars[0]->0).len()
            > 0 && str_lower(vars[0]->0) != "c"@ && str_lower(vars[0]->0) != "posix"@) ==> lang_of_locale_vars(vars)
            == Lang::En,
{
    reveal_strlit("ru");
    reveal_strlit("c");
    reveal_strlit("posix");
    if vars.len() > 0 && vars[0] is Some {
        let v = str_lower(vars[0]->0);
        if v == "posix"@ {
            assert(v.take(2)[0] == 'p');
            assert(("ru"@)[0] == 'r');
        }
    }
}

/// Some of the language names the flag and `WS_LANG` accept, and one they do not.
pub proof fn law_language_names()
    ensures
        lang_named("en"@) == Some(Lang::En),
        lang_named("english"@) == Some(Lang::En),
        lang_named("ru"@) == Some(Lang::Ru),
        lang_named("russian"@) == Some(Lang::Ru),
        lang_named("de"@) is None,
{
    reveal_strlit("en");
    reveal_strlit("eng");
    reveal_strlit("english");
    reveal_strlit("ru");
    reveal_strlit("rus");
    reveal_strlit("russian");
    reveal_strlit("русский");
    reveal_strlit("de");
    lemma_lower_of_ascii("en"@);
    lemma_lower_of_ascii("english"@);
    lemma_lower_of_ascii("ru"@);
    lemma_lower_of_ascii("russian"@);
    lemma_lower_of_ascii("de"@);
    assert(ascii_lowercase("en"@) =~= "en"@);
    assert(ascii_lowercase("english"@) =~= "english"@);
    assert(ascii_lowercase("ru"@) =~= "ru"@);
    assert(ascii_lowercase("russian"@) =~= "russian"@);
    assert(ascii_lowercase("de"@) =~= "de"@);
}

} // verus!
