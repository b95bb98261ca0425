//! Edge settings of proxied and redirect hosts: finding a host's config, and the
//! create-or-update decision.
use crate::api::models::proxy::{ProxyData, ProxyInfo};
use crate::i18n::{f1, fill, message, Lang, M};
use crate::text::{str_lower, to_lowercase, trim, trim_str};
use vstd::prelude::*;

verus! {

/// The arguments of `proxy set`: the host, its owner domain (used when creating)
/// and the settings to apply.
#[derive(Clone, Debug)]
pub struct SetImpl {
    pub hostname: String,
    pub domain: String,
    pub info: ProxyInfo,
}

/// The lookup key of a hostname: trimmed and lowercased.
pub fn proxy_needle(hostname: &str) -> (r: String)
    ensures
        r@ == str_lower(trim(hostname@)),
{
    let t = trim_str(hostname);
    to_lowercase(t.as_str())
}

/// The config a lookup by hostname settles on: the first result the server
/// returned; with no result, the not-found error naming `hostname`.
pub fn first_proxy(lang: Lang, hostname: &str, configs: Vec<ProxyData>) -> (r: Result<ProxyData, String>)
    ensures
        configs@.len() > 0 ==> r == Ok::<ProxyData, String>(configs@[0]),
        configs@.len() == 0 ==> (r matches Err(e) && e@ == fill(
            message(M::NotFoundProxy, lang),
            seq![("host"@, hostname@)],
        )),
{
    let mut configs = configs;
    if configs.len() > 0 {
        Ok(configs.remove(0))
    } else {
        Err(proxy_not_found(lang, hostname))
    }
}

/// What `proxy set` sends.
#[derive(Clone, Copy, Debug, PartialEq, Eq)]
pub enum ProxySetAction {
    /// A partial update of the existing config with this id.
    Patch(i64),
    /// A new config, on the owner domain.
    Create,
}

/// Upsert: update the first config the hostname lookup returned, otherwise
/// create one.
pub fn proxy_set_action(configs: &Vec<ProxyData>) -> (r: ProxySetAction)
    ensures
        configs@.len() > 0 ==> r == ProxySetAction::Patch(configs@[0].id),
        configs@.len() == 0 ==> r == ProxySetAction::Create,
{
    if configs.len() > 0 {
        ProxySetAction::Patch(configs[0].id)
    } else {
        ProxySetAction::Create
    }
}

/// The report of `proxy set`.
pub fn proxy_set_message(lang: Lang, action: ProxySetAction, hostname: &str) -> (r: String)
    ensures
        r@ == fill(
            message(
                match action {
                    ProxySetAction::Patch(_) => M::ProxyUpdated,
                    ProxySetAction::Create => M::ProxyCreated,
                },
                lang,
            ),
            seq![("host"@, hostname@)],
        ),
{
    match action {
        ProxySetAction::Patch(_) => f1(lang, M::ProxyUpdated, "host", hostname),
        ProxySetAction::Create => f1(lang, M::ProxyCreated, "host", hostname),
    }
}

/// The error when a host has no config.
pub fn proxy_not_found(lang: Lang, hostname: &str) -> (r: String)
    ensures
        r@ == fill(message(M::NotFoundProxy, lang), seq![("host"@, hostname@)]),
{
    f1(lang, M::NotFoundProxy, "host", hostname)
}

/// The question asked before removing a config.
pub fn confirm_remove_proxy(lang: Lang, hostname: &str) -> (r: String)
    ensures
        r@ == fill(message(M::ConfirmRemoveProxy, lang), seq![("host"@, hostname@)]),
{
    f1(lang, M::ConfirmRemoveProxy, "host", hostname)
}

/// The report after a config was removed.
pub fn proxy_removed(lang: Lang, hostname: &str) -> (r: String)
    ensures
        r@ == fill(message(M::ProxyRemoved, lang), seq![("host"@, hostname@)]),
{
    f1(lang, M::ProxyRemoved, "host", hostname)
}

} // verus!
