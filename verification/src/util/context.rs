//! The settings a command runs with: the active profile, the API base URL and the
//! token, each from a flag (or its environment variable) first, then the profile.
use crate::config::{active_name, named, opt_str_view, opt_view};
use crate::i18n::{args_view, f, fill, message, Lang, M};
use crate::text::owned;
use crate::util::config::{Profile, ProfileConfig, DEFAULT_API_URL};
use vstd::prelude::*;

verus! {

/// The active profile name: the flag, else the configured default, else `default`.
pub fn get_profile_name(cfg: &ProfileConfig, profile_string: Option<&str>) -> (r: String)
    ensures
        r@ == active_name(opt_str_view(profile_string), opt_view(cfg.default_profile)),
{
    cfg.active_profile_name(profile_string)
}

/// The active profile, if the configuration has it.
pub fn get_profile_from_cfg<'a>(cfg: &'a ProfileConfig, profile_string: Option<&str>) -> (r: Option<&'a Profile>)
    ensures
        match r {
            Some(p) => named(
                cfg.profiles@,
                active_name(opt_str_view(profile_string), opt_view(cfg.default_profile)),
            ) == Some(*p),
            None => named(
                cfg.profiles@,
                active_name(opt_str_view(profile_string), opt_view(cfg.default_profile)),
            ) is None,
        },
{
    let name = get_profile_name(cfg, profile_string);
    cfg.profile(name.as_str())
}

/// Where the API lives and the token to call it with.
#[derive(Debug, Clone)]
pub struct ClientSettings {
    pub api_url: String,
    pub token: String,
}

/// The token a command uses: the flag, else the active profile's.
pub open spec fn token_of(token_flag: Option<Seq<char>>, profile: Option<Profile>) -> Option<Seq<char>> {
    match token_flag {
        Some(t) => Some(t),
        None => match profile {
            Some(p) => opt_view(p.token),
            None => None,
        },
    }
}

/// The API base URL a command uses: the flag, else the active profile's, else the
/// production URL.
pub open spec fn api_url_of(url_flag: Option<Seq<char>>, profile: Option<Profile>) -> Seq<char> {
    match url_flag {
        Some(u) => u,
        None => match profile {
            Some(p) => match p.api_url {
                Some(u) => u@,
                None => DEFAULT_API_URL@,
            },
            None => DEFAULT_API_URL@,
        },
    }
}

/// Resolves the API URL and token for the active profile; `None` when no token is
/// set anywhere.
pub fn client_settings(
    cfg: &ProfileConfig,
    profile_flag: Option<&str>,
    api_url_flag: Option<&str>,
    token_flag: Option<&str>,
) -> (r: Option<ClientSettings>)
    ensures
        ({
            let p = named(
                cfg.profiles@,
                active_name(opt_str_view(profile_flag), opt_view(cfg.default_profile)),
            );
            match token_of(opt_str_view(token_flag), p) {
                Some(t) => r matches Some(s) && s.token@ == t && s.api_url@ == api_url_of(
                    opt_str_view(api_url_flag),
                    p,
                ),
                None => r is None,
            }
        }),
{
    let profile = get_profile_from_cfg(cfg, profile_flag);
    let token = match token_flag {
        Some(t) => owned(t),
        None => match profile {
            Some(p) => match &p.token {
                Some(t) => t.clone(),
                None => {
                    return None;
                },
            },
            None => {
                return None;
            },
        },
    };
    let api_url = match api_url_flag {
        Some(u) => owned(u),
        None => match profile {
            Some(p) => match &p.api_url {
                Some(u) => u.clone(),
                None => owned(DEFAULT_API_URL),
            },
            None => owned(DEFAULT_API_URL),
        },
    };
    Some(ClientSettings { api_url, token })
}

/// The error when no token is set; `profile` is the profile flag as shown to the
/// user.
pub fn no_token_message(lang: Lang, profile: &str) -> (r: String)
    ensures
        r@ == fill(message(M::NoToken, lang), seq![("profile"@, profile@)]),
{
    let args = [("profile", profile)];
    let r = f(lang, M::NoToken, &args);
    assert(args_view(args@) =~= seq![("profile"@, profile@)]);
    r
}

} // verus!
