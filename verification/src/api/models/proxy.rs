//! Proxied and redirect hosts (`/nginx-configs`).
use crate::api::request_desc::{path_with_id, path_with_text, HttpMethod, RequestDesc};
use crate::api::table::{headers_view, row_view, rows_view, DisplayTable};
use crate::i18n::{message, tr, Lang, M};
use crate::text::{decimal, owned};
use vstd::prelude::*;

verus! {

/// The settings of a proxied host; each is optional, and an absent one is left
/// as it is.
#[derive(Clone, Debug)]
pub struct ProxyInfo {
    pub mode: Option<String>,
    pub redirect_target: Option<String>,
    pub ssl: Option<bool>,
    pub bot_protection: Option<bool>,
    pub captcha: Option<bool>,
    pub http2: Option<bool>,
    pub http3: Option<bool>,
    pub max_body_mb: Option<i64>,
    pub block_bots: Option<Vec<String>>,
}

/// Body of `ProxyNew`: the host, its domain and its settings.
#[derive(Clone, Debug)]
pub struct ProxyDecl {
    pub hostname: String,
    pub domain_id: i64,
    pub inner: ProxyInfo,
}

/// A proxied host as the API describes it.
#[derive(Clone, Debug)]
pub struct ProxyData {
    /// Config id: the `/nginx-configs/{id}` key (not the domain id).
    pub id: i64,
    pub hostname: String,
    pub domain_name: String,
    pub inner: ProxyInfo,
    pub domain_id: i64,
}

/// A list of proxied hosts.
#[derive(Clone, Debug)]
pub struct Proxies {
    pub results: Vec<ProxyData>,
}

impl Proxies {
    /// The hosts.
    pub fn into_inner(self) -> (r: Vec<ProxyData>)
        ensures
            r@ == self.results@,
    {
        self.results
    }
}

impl From<Vec<ProxyData>> for Proxies {
    fn from(configs: Vec<ProxyData>) -> (r: Proxies) {
        Proxies { results: configs }
    }
}

impl vstd::std_specs::convert::FromSpecImpl<Vec<ProxyData>> for Proxies {
    open spec fn obeys_from_spec() -> bool {
        true
    }

    open spec fn from_spec(configs: Vec<ProxyData>) -> Proxies {
        Proxies { results: configs }
    }
}

/// The text of an optional string: the string, or nothing.
pub open spec fn text_or_empty(o: Option<String>) -> Seq<char> {
    match o {
        Some(s) => s@,
        None => Seq::empty(),
    }
}

/// The table row of a proxied host: hostname, domain, mode, redirect target, and
/// a yes mark for SSL and for bot protection when they are on.
pub open spec fn proxy_row(c: ProxyData, lang: Lang) -> Seq<Seq<char>> {
    seq![
        c.hostname@,
        c.domain_name@,
        text_or_empty(c.inner.mode),
        text_or_empty(c.inner.redirect_target),
        if c.inner.ssl == Some(true) { message(M::Yes, lang) } else { Seq::empty() },
        if c.inner.bot_protection == Some(true) { message(M::Yes, lang) } else { Seq::empty() },
    ]
}

fn text_of(o: &Option<String>) -> (r: String)
    ensures
        r@ == text_or_empty(*o),
{
    match o {
        Some(s) => s.clone(),
        None => String::new(),
    }
}

fn proxy_row_exec(c: &ProxyData, lang: Lang) -> (r: Vec<String>)
    ensures
        row_view(r) == proxy_row(*c, lang),
{
    let ssl = match c.inner.ssl {
        Some(true) => owned(tr(lang, M::Yes)),
        _ => String::new(),
    };
    let bots = match c.inner.bot_protection {
        Some(true) => owned(tr(lang, M::Yes)),
        _ => String::new(),
    };
    let r = vec![
        c.hostname.clone(),
        c.domain_name.clone(),
        text_of(&c.inner.mode),
        text_of(&c.inner.redirect_target),
        ssl,
        bots,
    ];
    assert(row_view(r) =~= proxy_row(*c, lang));
    r
}

/// The headers of the proxied-host table.
pub open spec fn proxy_headers(lang: Lang) -> Seq<Seq<char>> {
    seq![
        message(M::HHost, lang),
        message(M::HDomain, lang),
        message(M::HMode, lang),
        message(M::HTarget, lang),
        message(M::HSsl, lang),
        message(M::HBotProt, lang),
    ]
}

fn proxy_headers_exec(lang: Lang) -> (r: Vec<&'static str>)
    ensures
        headers_view(r@) == proxy_headers(lang),
{
    let r = vec![
        tr(lang, M::HHost),
        tr(lang, M::HDomain),
        tr(lang, M::HMode),
        tr(lang, M::HTarget),
        tr(lang, M::HSsl),
        tr(lang, M::HBotProt),
    ];
    assert(headers_view(r@) =~= proxy_headers(lang));
    r
}

impl DisplayTable for Proxies {
    fn headers(&self, lang: Lang) -> (r: Vec<&'static str>)
        ensures
            headers_view(r@) == proxy_headers(lang),
    {
        proxy_headers_exec(lang)
    }

    fn rows(&self, lang: Lang) -> (r: Vec<Vec<String>>)
        ensures
            rows_view(r@) == self.results@.map_values(|c: ProxyData| proxy_row(c, lang)),
    {
        let mut out: Vec<Vec<String>> = Vec::new();
        let mut i: usize = 0;
        while i < self.results.len()
            invariant
                i <= self.results.len(),
                rows_view(out@) == self.results@.take(i as int).map_values(|c: ProxyData| proxy_row(c, lang)),
            decreases self.results.len() - i,
        {
            let ghost before = out@;
            let row = proxy_row_exec(&self.results[i], lang);
            out.push(row);
            proof {
                assert(rows_view(out@) =~= rows_view(before).push(row_view(row)));
                assert(self.results@.take(i + 1).map_values(|c: ProxyData| proxy_row(c, lang)) =~= self.results@.take(
                    i as int,
                ).map_values(|c: ProxyData| proxy_row(c, lang)).push(proxy_row(self.results@[i as int], lang)));
            }
            i += 1;
        }
        assert(self.results@.take(self.results.len() as int) =~= self.results@);
        out
    }
}

impl DisplayTable for ProxyData {
    fn headers(&self, lang: Lang) -> (r: Vec<&'static str>)
        ensures
            headers_view(r@) == proxy_headers(lang),
    {
        proxy_headers_exec(lang)
    }

    fn rows(&self, lang: Lang) -> (r: Vec<Vec<String>>)
        ensures
            rows_view(r@) == seq![proxy_row(*self, lang)],
    {
        let r = vec![proxy_row_exec(self, lang)];
        assert(rows_view(r@) =~= seq![proxy_row(*self, lang)]);
        r
    }
}

/// `PATCH nginx-configs/{id}`: change some settings.
pub struct ProxyPatch;

impl RequestDesc for ProxyPatch {
    type Params = i64;
    type Request = ProxyInfo;
    type Response = ();

    fn get_url(id: i64) -> (r: String)
        ensures
            r@ == "nginx-configs/"@ + decimal(id as int),
    {
        let r = path_with_id("nginx-configs/", id, "");
        proof {
            reveal_strlit("");
        }
        assert(r@ =~= "nginx-configs/"@ + decimal(id as int));
        r
    }

    fn method() -> (r: HttpMethod)
        ensures
            r == HttpMethod::Patch,
    {
        HttpMethod::Patch
    }
}

/// `POST nginx-configs`: proxy a new host.
pub struct ProxyNew;

impl RequestDesc for ProxyNew {
    type Params = ();
    type Request = ProxyDecl;
    type Response = ();

    fn get_url(_p: ()) -> (r: String)
        ensures
            r@ == "nginx-configs"@,
    {
        owned("nginx-configs")
    }

    fn method() -> (r: HttpMethod)
        ensures
            r == HttpMethod::Post,
    {
        HttpMethod::Post
    }
}

/// `DELETE nginx-configs/{id}`.
pub struct ProxyDelete;

impl RequestDesc for ProxyDelete {
    type Params = i64;
    type Request = ();
    type Response = ();

    fn get_url(id: i64) -> (r: String)
        ensures
            r@ == "nginx-configs/"@ + decimal(id as int),
    {
        let r = path_with_id("nginx-configs/", id, "");
        proof {
            reveal_strlit("");
        }
        assert(r@ =~= "nginx-configs/"@ + decimal(id as int));
        r
    }

    fn method() -> (r: HttpMethod)
        ensures
            r == HttpMethod::Delete,
    {
        HttpMethod::Delete
    }
}

/// `GET nginx-configs?hostname={host}`: the proxied hosts with that name.
pub struct ProxyResolve;

impl RequestDesc for ProxyResolve {
    type Params = String;
    type Request = ();
    type Response = Proxies;

    fn get_url(text: String) -> (r: String)
        ensures
            r@ == "nginx-configs?hostname="@ + text@,
    {
        let r = path_with_text("nginx-configs?hostname=", text.as_str(), "");
        proof {
            reveal_strlit("");
        }
        assert(r@ =~= "nginx-configs?hostname="@ + text@);
        r
    }

    fn method() -> (r: HttpMethod)
        ensures
            r == HttpMethod::Get,
    {
        HttpMethod::Get
    }
}

/// `GET nginx-configs?page={n}`: one page of proxied hosts.
pub struct Proxy;

impl RequestDesc for Proxy {
    type Params = u32;
    type Request = ();
    type Response = Proxies;

    fn get_url(page: u32) -> (r: String)
        ensures
            r@ == "nginx-configs?page="@ + decimal(page as int),
    {
        let r = path_with_id("nginx-configs?page=", page as i64, "");
        proof {
            reveal_strlit("");
        }
        assert(r@ =~= "nginx-configs?page="@ + decimal(page as int));
        r
    }

    fn method() -> (r: HttpMethod)
        ensures
            r == HttpMethod::Get,
    {
        HttpMethod::Get
    }
}
} // verus!
