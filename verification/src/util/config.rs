//! Profiles of the configuration file (`~/.config/webshield/config.toml`), with
//! the interface language.
//!
//! A profile stores the API base URL and a personal `wsk_…` token, both optional;
//! what is missing falls back to the defaults when the settings are resolved.
use crate::config::{active_name, find_named, named, names_distinct, opt_str_view, opt_view, put_named};
use crate::i18n::locale::LocaleCode;
use crate::text::owned;
use vstd::prelude::*;

verus! {

/// The production API base URL.
pub const DEFAULT_API_URL: &'static str = "https://webshield.pro";

/// One profile: API base URL and token, each optional.
#[derive(Debug, Clone)]
pub struct Profile {
    pub api_url: Option<String>,
    pub token: Option<String>,
}

impl Default for Profile {
    fn default() -> (r: Self)
        ensures
            r.api_url is None,
            r.token is None,
    {
        Profile { api_url: None, token: None }
    }
}

/// The configuration file: profiles by name, the default profile and the
/// interface language.
#[derive(Debug)]
pub struct ProfileConfig {
    /// Profile used when no name is given.
    pub default_profile: Option<String>,
    /// Interface language; unset follows the environment.
    pub lang: Option<LocaleCode>,
    /// Profiles by name.
    pub profiles: Vec<(String, Profile)>,
}

impl Default for ProfileConfig {
    fn default() -> (r: Self)
        ensures
            r.default_profile is None,
            r.lang is None,
            r.profiles@.len() == 0,
            r.wf(),
    {
        ProfileConfig { default_profile: None, lang: None, profiles: Vec::new() }
    }
}

impl ProfileConfig {
    /// No profile name occurs twice.
    pub open spec fn wf(self) -> bool {
        names_distinct(self.profiles@)
    }

    /// Active profile name, honoring the override.
    pub fn active_profile_name(&self, override_name: Option<&str>) -> (r: String)
        ensures
            r@ == active_name(opt_str_view(override_name), opt_view(self.default_profile)),
    {
        match override_name {
            Some(n) => owned(n),
            None => match &self.default_profile {
                Some(d) => d.clone(),
                None => owned("default"),
            },
        }
    }

    /// The profile called `name`.
    pub fn profile(&self, name: &str) -> (r: Option<&Profile>)
        ensures
            match r {
                Some(p) => named(self.profiles@, name@) == Some(*p),
                None => named(self.profiles@, name@) is None,
            },
    {
        match find_named(&self.profiles, name) {
            Some(i) => Some(&self.profiles[i].1),
            None => None,
        }
    }

    /// Sets the interface language (`None` follows the environment again).
    pub fn set_lang(&mut self, lang: Option<LocaleCode>)
        ensures
            final(self).lang == lang,
            final(self).default_profile == old(self).default_profile,
            final(self).profiles == old(self).profiles,
    {
        self.lang = lang;
    }

    /// Stores `p` as the profile called `name`; the other profiles stay as they were.
    pub fn set_profile(&mut self, name: String, p: Profile)
        ensures
            old(self).wf() ==> final(self).wf(),
            final(self).default_profile == old(self).default_profile,
            final(self).lang == old(self).lang,
            forall|m: Seq<char>|
                #[trigger] named(final(self).profiles@, m) == if m == name@ {
                    Some(p)
                } else {
                    named(old(self).profiles@, m)
                },
    {
        put_named(&mut self.profiles, name, p);
    }
}

} // verus!
