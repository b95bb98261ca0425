//! Authentication: storing a token in the active profile, removing it, and
//! judging the answer of a token check.
use crate::commands::Level;
use crate::config::{active_name, named, opt_str_view, opt_view, Config, Profile, DEFAULT_API_URL};
use crate::i18n::{f1, fill, message, tr, Lang, M};
use crate::text::{chars_of, decimal, has_prefix, owned, starts_with_seq, trim, trim_str, u64_to_string};
use vstd::prelude::*;

verus! {

/// The token as given, trimmed.
pub fn login_token(raw: &str) -> (r: String)
    ensures
        r@ == trim(raw@),
{
    trim_str(raw)
}

/// Whether a token has the personal-token prefix `wsk_` (a token without it is
/// stored all the same, after a warning).
pub fn has_token_prefix(token: &str) -> (r: bool)
    ensures
        r == has_prefix(token@, "wsk_"@),
{
    starts_with_seq(&chars_of(token), &chars_of("wsk_"))
}

/// Stores a login in profile `name`: its API URL and token are replaced (the
/// profile is created when missing), other profiles stay as they were, and the
/// profile becomes the default when none is set.
pub fn store_login(cfg: &mut Config, name: String, api_url: String, token: String)
    ensures
        old(cfg).wf() ==> final(cfg).wf(),
        forall|m: Seq<char>|
            #[trigger] named(final(cfg).profiles@, m) == if m == name@ {
                Some(Profile { api_url: api_url, token: Some(token) })
            } else {
                named(old(cfg).profiles@, m)
            },
        final(cfg).default_profile == match old(cfg).default_profile {
            Some(d) => Some(d),
            None => Some(name),
        },
{
    if cfg.default_profile.is_none() {
        cfg.default_profile = Some(name.clone());
    }
    cfg.set_profile(name, Profile { api_url, token: Some(token) });
}

/// Removes the token of profile `name`, keeping its API URL; `false` (and nothing
/// changed) when there is no such profile.
pub fn remove_token(cfg: &mut Config, name: &str) -> (r: bool)
    ensures
        old(cfg).wf() ==> final(cfg).wf(),
        r == (named(old(cfg).profiles@, name@) is Some),
        final(cfg).default_profile == old(cfg).default_profile,
        forall|m: Seq<char>|
            #[trigger] named(final(cfg).profiles@, m) == match named(old(cfg).profiles@, m) {
                Some(p) => if m == name@ {
                    Some(Profile { api_url: p.api_url, token: None })
                } else {
                    Some(p)
                },
                None => None,
            },
{
    let api_url = match cfg.profile(name) {
        Some(p) => p.api_url.clone(),
        None => {
            return false;
        },
    };
    cfg.set_profile(owned(name), Profile { api_url, token: None });
    true
}

/// The report after a logout.
pub fn logout_message(lang: Lang, name: &str, removed: bool) -> (r: (Level, String))
    ensures
        removed ==> r.0 == Level::Success && r.1@ == fill(message(M::TokenRemoved, lang), seq![("profile"@, name@)]),
        !removed ==> r.0 == Level::Info && r.1@ == fill(message(M::ProfileNotFound, lang), seq![("profile"@, name@)]),
{
    if removed {
        (Level::Success, f1(lang, M::TokenRemoved, "profile", name))
    } else {
        (Level::Info, f1(lang, M::ProfileNotFound, "profile", name))
    }
}

/// The report after a login, from the token check: the HTTP status it got, or
/// why it failed. A success confirms access; 403 means a valid token with narrow
/// scopes; any other status, or a failed check, is reported as such (the token is
/// stored in every case).
pub fn login_message(lang: Lang, name: &str, probe: Result<u16, String>) -> (r: (Level, String))
    ensures
        match probe {
            Ok(code) => if 200 <= code <= 299 {
                r.0 == Level::Success && r.1@ == fill(message(M::TokenSavedOk, lang), seq![("profile"@, name@)])
            } else if code == 403 {
                r.0 == Level::Success && r.1@ == fill(message(M::TokenSavedScoped, lang), seq![("profile"@, name@)])
            } else {
                r.0 == Level::Info && r.1@ == fill(message(M::TokenSavedCode, lang), seq![("code"@, decimal(code as int))])
            },
            Err(e) => r.0 == Level::Info && r.1@ == fill(message(M::TokenSavedProbeFail, lang), seq![("err"@, e@)]),
        },
{
    match probe {
        Ok(code) => if 200 <= code && code <= 299 {
            (Level::Success, f1(lang, M::TokenSavedOk, "profile", name))
        } else if code == 403 {
            (Level::Success, f1(lang, M::TokenSavedScoped, "profile", name))
        } else {
            let c = u64_to_string(code as u64);
            (Level::Info, f1(lang, M::TokenSavedCode, "code", c.as_str()))
        },
        Err(e) => (Level::Info, f1(lang, M::TokenSavedProbeFail, "err", e.as_str())),
    }
}

/// How a status check of the API access turned out: a success, an HTTP error with
/// its status, or another failure.
#[derive(Clone, Copy, Debug, PartialEq, Eq)]
pub enum AccessProbe {
    Reached,
    Status(u16),
    Failed,
}

/// The debug text of an optional status code, as the unexpected-answer line shows it.
pub open spec fn code_debug(code: Option<u16>) -> Seq<char> {
    match code {
        Some(c) => "Some("@ + decimal(c as int) + ")"@,
        None => "None"@,
    }
}

/// The colour a verdict is shown in.
#[derive(Clone, Copy, Debug, PartialEq, Eq)]
pub enum Tone {
    Green,
    Red,
    Yellow,
}

/// The access verdict of `auth status`: confirmed, invalid token (401), no access
/// (403), or an unexpected answer.
pub fn access_verdict(lang: Lang, probe: AccessProbe) -> (r: (Tone, String))
    ensures
        match probe {
            AccessProbe::Reached => r.0 == Tone::Green && r.1@ == message(M::AccessOk, lang),
            AccessProbe::Status(401) => r.0 == Tone::Red && r.1@ == message(M::AccessInvalid, lang),
            AccessProbe::Status(403) => r.0 == Tone::Yellow && r.1@ == message(M::AccessForbidden, lang),
            AccessProbe::Status(c) => r.0 == Tone::Yellow && r.1@ == fill(
                message(M::AccessUnexpected, lang),
                seq![("code"@, code_debug(Some(c)))],
            ),
            AccessProbe::Failed => r.0 == Tone::Yellow && r.1@ == fill(
                message(M::AccessUnexpected, lang),
                seq![("code"@, code_debug(None))],
            ),
        },
{
    match probe {
        AccessProbe::Reached => (Tone::Green, owned(tr(lang, M::AccessOk))),
        AccessProbe::Status(401) => (Tone::Red, owned(tr(lang, M::AccessInvalid))),
        AccessProbe::Status(403) => (Tone::Yellow, owned(tr(lang, M::AccessForbidden))),
        AccessProbe::Status(c) => {
            let d = crate::text::concat(
                &crate::text::concat(&chars_of("Some("), &crate::text::u64_to_chars(c as u64)),
                &chars_of(")"),
            );
            let s = crate::text::string_of(&d);
            (Tone::Yellow, f1(lang, M::AccessUnexpected, "code", s.as_str()))
        },
        AccessProbe::Failed => (Tone::Yellow, f1(lang, M::AccessUnexpected, "code", "None")),
    }
}

/// What `auth status` reports of the active profile: its name, the API URL in
/// use and the token, if any.
#[derive(Clone, Debug)]
pub struct AuthStatus {
    pub name: String,
    pub api_url: String,
    pub token: Option<String>,
}

/// The API URL in use: the flag, else the profile's, else the default.
pub open spec fn status_api_url(flag: Option<Seq<char>>, p: Option<Profile>) -> Seq<char> {
    match flag {
        Some(u) => u,
        None => match p {
            Some(p) => p.api_url@,
            None => DEFAULT_API_URL@,
        },
    }
}

/// The token in use: the flag, else the profile's.
pub open spec fn status_token(flag: Option<Seq<char>>, p: Option<Profile>) -> Option<Seq<char>> {
    match flag {
        Some(t) => Some(t),
        None => match p {
            Some(p) => opt_view(p.token),
            None => None,
        },
    }
}

/// Resolves what `auth status` shows from the configuration and the global flags.
pub fn auth_status(
    cfg: &Config,
    profile_flag: Option<&str>,
    api_url_flag: Option<&str>,
    token_flag: Option<&str>,
) -> (r: AuthStatus)
    ensures
        r.name@ == active_name(opt_str_view(profile_flag), opt_view(cfg.default_profile)),
        r.api_url@ == status_api_url(opt_str_view(api_url_flag), named(cfg.profiles@, r.name@)),
        opt_view(r.token) == status_token(opt_str_view(token_flag), named(cfg.profiles@, r.name@)),
{
    let name = cfg.active_profile_name(profile_flag);
    let profile = cfg.profile(name.as_str());
    let api_url = match api_url_flag {
        Some(u) => owned(u),
        None => match profile {
            Some(p) => p.api_url.clone(),
            None => owned(DEFAULT_API_URL),
        },
    };
    let token = match token_flag {
        Some(t) => Some(owned(t)),
        None => match profile {
            Some(p) => p.token.clone(),
            None => None,
        },
    };
    AuthStatus { name, api_url, token }
}

} // verus!
