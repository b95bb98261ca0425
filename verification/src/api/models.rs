//! Typed models of `/api/v1` requests and responses, with the endpoints that
//! carry them; below, the models shared by several endpoints.
pub mod billing;
pub mod dns;
pub mod domain;
pub mod dyndns;
pub mod hosts;
pub mod proxy;
pub mod sites;
pub mod stats;

use crate::api::models::domain::Tariff;
use vstd::prelude::*;

verus! {

/// One page of a paginated list (`next` is the URL of the following page).
#[derive(Clone, Debug)]
pub struct Page<T> {
    pub next: Option<String>,
    pub results: Vec<T>,
}

/// A domain.
#[derive(Clone, Debug)]
pub struct Domain {
    pub id: i64,
    pub name: String,
    /// Delegation status: `None` until the NS delegation is checked.
    pub delegated: Option<bool>,
    pub current_tariff: Option<Tariff>,
}

/// The record sets of a zone, and the record quota.
#[derive(Clone, Debug)]
pub struct RecordsResponse {
    pub rrsets: Vec<crate::api::models::dns::RRSet>,
    pub records_used: Option<i64>,
    pub records_limit: Option<i64>,
}

/// A static site.
#[derive(Clone, Debug)]
pub struct StaticSite {
    pub id: i64,
    pub hostname: String,
    pub domain_name: Option<String>,
    pub status: Option<String>,
    pub content_version: Option<i64>,
    pub size_bytes: Option<i64>,
}

/// The draft files of a static site.
#[derive(Clone, Debug)]
pub struct FilesResponse {
    pub files: Vec<ServerFile>,
}

/// One draft entry: a file with its etag, or a directory.
#[derive(Clone, Debug)]
pub struct ServerFile {
    pub path: String,
    pub etag: Option<String>,
    pub is_dir: bool,
}

/// Edge configuration of a proxied or redirect host.
#[derive(Clone, Debug)]
pub struct ProxyConfig {
    pub id: i64,
    pub hostname: String,
    pub domain_name: Option<String>,
    pub mode: Option<String>,
    pub redirect_target: Option<String>,
    pub ssl_required: Option<bool>,
    pub bot_protection_enabled: Option<bool>,
    pub captcha_check_enabled: Option<bool>,
    pub http2_enabled: Option<bool>,
    pub http3_enabled: Option<bool>,
    pub max_body_size_mb: Option<i64>,
    pub blocked_bots: Option<Vec<String>>,
}

} // verus!
