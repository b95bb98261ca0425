//! Static sites (`/static-sites`): listing, creation, draft files, publishing.
use crate::api::request_desc::{path_with_id, path_with_text, HttpMethod, RequestDesc};
use crate::api::table::{headers_view, row_view, rows_view, DisplayTable};
use crate::i18n::{args_view, f, fill, message, tr, Lang, M};
use crate::text::{decimal, i64_to_string, owned};
use vstd::prelude::*;

verus! {

/// `POST static-sites`: create a site on a host.
pub struct SiteAdd;

/// Body of `SiteAdd`.
#[derive(Clone, Debug)]
pub struct SiteAddReq {
    pub hostname: String,
    pub domain_id: i64,
}

/// A static site as the API describes it.
#[derive(Clone, Debug)]
pub struct SitesListInner {
    pub id: i64,
    pub hostname: String,
    pub domain_name: Option<String>,
    pub status: Option<String>,
    pub content_version: Option<i64>,
    pub size_bytes: Option<i64>,
    pub publish_error: Option<String>,
}

/// The text of an optional string: the string, or nothing.
pub open spec fn opt_text(o: Option<String>) -> Seq<char> {
    match o {
        Some(s) => s@,
        None => Seq::empty(),
    }
}

/// The decimal text of an optional number: the number, or nothing.
pub open spec fn opt_number(o: Option<i64>) -> Seq<char> {
    match o {
        Some(n) => decimal(n as int),
        None => Seq::empty(),
    }
}

/// `opt_text` computed.
pub fn opt_string(o: &Option<String>) -> (r: String)
    ensures
        r@ == opt_text(*o),
{
    match o {
        Some(s) => s.clone(),
        None => String::new(),
    }
}

/// `opt_number` computed.
pub fn opt_number_string(o: Option<i64>) -> (r: String)
    ensures
        r@ == opt_number(o),
{
    match o {
        Some(n) => i64_to_string(n),
        None => String::new(),
    }
}

impl SitesListInner {
    /// The report after a site was created.
    pub fn created_message(&self, lang: Lang) -> (r: String)
        ensures
            r@ == fill(
                message(M::SiteCreated, lang),
                seq![("host"@, self.hostname@), ("id"@, decimal(self.id as int))],
            ),
    {
        let id = i64_to_string(self.id);
        let args = [("host", self.hostname.as_str()), ("id", id.as_str())];
        let r = f(lang, M::SiteCreated, &args);
        assert(args_view(args@) =~= seq![("host"@, self.hostname@), ("id"@, decimal(self.id as int))]);
        r
    }
}

impl RequestDesc for SiteAdd {
    type Params = ();
    type Request = SiteAddReq;
    type Response = SitesListInner;

    fn get_url(_p: ()) -> (r: String)
        ensures
            r@ == "static-sites"@,
    {
        owned("static-sites")
    }

    fn method() -> (r: HttpMethod)
        ensures
            r == HttpMethod::Post,
    {
        HttpMethod::Post
    }
}

/// `GET static-sites?page={n}`: one page of the site list.
pub struct Sites;

impl RequestDesc for Sites {
    type Params = u32;
    type Request = ();
    type Response = SitesList;

    fn get_url(page: u32) -> (r: String)
        ensures
            r@ == "static-sites?page="@ + decimal(page as int),
    {
        let r = path_with_id("static-sites?page=", page as i64, "");
        proof {
            reveal_strlit("");
        }
        assert(r@ =~= "static-sites?page="@ + decimal(page as int));
        r
    }

    fn method() -> (r: HttpMethod)
        ensures
            r == HttpMethod::Get,
    {
        HttpMethod::Get
    }
}

/// `GET static-sites?hostname={host}`: the sites with that hostname.
pub struct SitesResolve;

impl RequestDesc for SitesResolve {
    type Params = String;
    type Request = ();
    type Response = SitesList;

    fn get_url(host: String) -> (r: String)
        ensures
            r@ == "static-sites?hostname="@ + host@,
    {
        let r = path_with_text("static-sites?hostname=", host.as_str(), "");
        proof {
            reveal_strlit("");
        }
        assert(r@ =~= "static-sites?hostname="@ + host@);
        r
    }

    fn method() -> (r: HttpMethod)
        ensures
            r == HttpMethod::Get,
    {
        HttpMethod::Get
    }
}

/// A list of sites.
#[derive(Clone, Debug)]
pub struct SitesList {
    pub results: Vec<SitesListInner>,
}

/// The headers of the site table.
pub fn sites_headers(lang: Lang) -> (r: Vec<&'static str>)
    ensures
        headers_view(r@) == seq![
            message(M::HId, lang),
            message(M::HHost, lang),
            message(M::HDomain, lang),
            message(M::HStatus, lang),
            message(M::HVersion, lang),
            message(M::HSize, lang),
        ],
{
    let r = vec![
        tr(lang, M::HId),
        tr(lang, M::HHost),
        tr(lang, M::HDomain),
        tr(lang, M::HStatus),
        tr(lang, M::HVersion),
        tr(lang, M::HSize),
    ];
    assert(headers_view(r@) =~= seq![
        message(M::HId, lang),
        message(M::HHost, lang),
        message(M::HDomain, lang),
        message(M::HStatus, lang),
        message(M::HVersion, lang),
        message(M::HSize, lang),
    ]);
    r
}

/// The leading cells of a site row: id, host, domain, status, version (the size
/// cell, a human-readable byte count, follows them).
pub open spec fn site_cells_spec(s: SitesListInner) -> Seq<Seq<char>> {
    seq![
        decimal(s.id as int),
        s.hostname@,
        opt_text(s.domain_name),
        opt_text(s.status),
        opt_number(s.content_version),
    ]
}

/// `site_cells_spec` computed.
pub fn site_cells(s: &SitesListInner) -> (r: Vec<String>)
    ensures
        row_view(r) == site_cells_spec(*s),
{
    let r = vec![
        i64_to_string(s.id),
        s.hostname.clone(),
        opt_string(&s.domain_name),
        opt_string(&s.status),
        opt_number_string(s.content_version),
    ];
    assert(row_view(r) =~= site_cells_spec(*s));
    r
}

/// `GET static-sites/{id}/files`: the draft files.
pub struct SiteFiles;

impl RequestDesc for SiteFiles {
    type Params = i64;
    type Request = ();
    type Response = FilesResponseSite;

    fn get_url(id: i64) -> (r: String)
        ensures
            r@ == "static-sites/"@ + decimal(id as int) + "/files"@,
    {
        path_with_id("static-sites/", id, "/files")
    }

    fn method() -> (r: HttpMethod)
        ensures
            r == HttpMethod::Get,
    {
        HttpMethod::Get
    }
}

/// The draft files of a site.
#[derive(Clone, Debug)]
pub struct FilesResponseSite {
    pub files: Vec<ServerFileSite>,
}

/// One draft entry: a file with its etag (hex MD5), or a directory.
#[derive(Clone, Debug)]
pub struct ServerFileSite {
    pub path: String,
    pub etag: Option<String>,
    pub is_dir: bool,
}

/// The rows of the file table: one per file (directories are left out), its path
/// and its etag.
pub open spec fn file_rows(files: Seq<ServerFileSite>) -> Seq<Seq<Seq<char>>>
    decreases files.len(),
{
    if files.len() == 0 {
        Seq::empty()
    } else {
        let rest = file_rows(files.drop_last());
        let fl = files.last();
        if fl.is_dir {
            rest
        } else {
            rest.push(seq![fl.path@, opt_text(fl.etag)])
        }
    }
}

impl DisplayTable for FilesResponseSite {
    fn headers(&self, lang: Lang) -> (r: Vec<&'static str>)
        ensures
            headers_view(r@) == seq![message(M::HPath, lang), message(M::HEtag, lang)],
    {
        let r = vec![tr(lang, M::HPath), tr(lang, M::HEtag)];
        assert(headers_view(r@) =~= seq![message(M::HPath, lang), message(M::HEtag, lang)]);
        r
    }

    fn rows(&self, lang: Lang) -> (r: Vec<Vec<String>>)
        ensures
            rows_view(r@) == file_rows(self.files@),
    {
        let mut out: Vec<Vec<String>> = Vec::new();
        let mut i: usize = 0;
        while i < self.files.len()
            invariant
                i <= self.files.len(),
                rows_view(out@) == file_rows(self.files@.take(i as int)),
            decreases self.files.len() - i,
        {
            let ghost before = out@;
            let fl = &self.files[i];
            proof {
                assert(self.files@.take(i + 1).drop_last() =~= self.files@.take(i as int));
            }
            if !fl.is_dir {
                let row = vec![fl.path.clone(), opt_string(&fl.etag)];
                out.push(row);
                proof {
                    assert(row_view(row) =~= seq![fl.path@, opt_text(fl.etag)]);
                    assert(rows_view(out@) =~= rows_view(before).push(row_view(row)));
                }
            }
            i += 1;
        }
        assert(self.files@.take(self.files.len() as int) =~= self.files@);
        out
    }
}

/// `POST static-sites/{id}/disable`: unpublish.
pub struct SiteDisable;

impl RequestDesc for SiteDisable {
    type Params = i64;
    type Request = ();
    type Response = ();

    fn get_url(id: i64) -> (r: String)
        ensures
            r@ == "static-sites/"@ + decimal(id as int) + "/disable"@,
    {
        path_with_id("static-sites/", id, "/disable")
    }

    fn method() -> (r: HttpMethod)
        ensures
            r == HttpMethod::Post,
    {
        HttpMethod::Post
    }
}

/// `POST static-sites/{id}/publish`: publish the draft as a snapshot.
pub struct SitePublish;

impl RequestDesc for SitePublish {
    type Params = i64;
    type Request = ();
    type Response = ();

    fn get_url(id: i64) -> (r: String)
        ensures
            r@ == "static-sites/"@ + decimal(id as int) + "/publish"@,
    {
        path_with_id("static-sites/", id, "/publish")
    }

    fn method() -> (r: HttpMethod)
        ensures
            r == HttpMethod::Post,
    {
        HttpMethod::Post
    }
}

/// `GET static-sites/{id}`: one site.
pub struct SiteGet;

impl RequestDesc for SiteGet {
    type Params = i64;
    type Request = ();
    type Response = SitesListInner;

    fn get_url(id: i64) -> (r: String)
        ensures
            r@ == "static-sites/"@ + decimal(id as int),
    {
        let r = path_with_id("static-sites/", id, "");
        proof {
            reveal_strlit("");
        }
        assert(r@ =~= "static-sites/"@ + decimal(id as int));
        r
    }

    fn method() -> (r: HttpMethod)
        ensures
            r == HttpMethod::Get,
    {
        HttpMethod::Get
    }
}

/// `POST static-sites/{id}/publish-from-bucket`: publish from an object-storage
/// bucket; the server works on it asynchronously.
pub struct SitePublishFromBucket;

/// Body of `SitePublishFromBucket`.
#[derive(Clone, Debug)]
pub struct SitePublishBucketReq {
    pub bucket: String,
    pub path: String,
}

impl RequestDesc for SitePublishFromBucket {
    type Params = i64;
    type Request = SitePublishBucketReq;
    type Response = SitesListInner;

    fn get_url(id: i64) -> (r: String)
        ensures
            r@ == "static-sites/"@ + decimal(id as int) + "/publish-from-bucket"@,
    {
        path_with_id("static-sites/", id, "/publish-from-bucket")
    }

    fn method() -> (r: HttpMethod)
        ensures
            r == HttpMethod::Post,
    {
        HttpMethod::Post
    }
}

/// `POST static-sites/{id}/upload`: a multipart batch of files, `paths[i]`
/// paired with `files[i]`.
pub struct SiteFilesUploadBatch;

impl RequestDesc for SiteFilesUploadBatch {
    type Params = i64;
    type Request = ();
    type Response = ();

    fn get_url(id: i64) -> (r: String)
        ensures
            r@ == "static-sites/"@ + decimal(id as int) + "/upload"@,
    {
        path_with_id("static-sites/", id, "/upload")
    }

    fn method() -> (r: HttpMethod)
        ensures
            r == HttpMethod::Post,
    {
        HttpMethod::Post
    }
}

/// `POST static-sites/{id}/delete-files`: delete draft files by path.
pub struct SiteFilesDeleteBatch;

/// Body of `SiteFilesDeleteBatch`.
#[derive(Clone, Debug)]
pub struct SiteFilesPaths {
    pub paths: Vec<String>,
}

impl RequestDesc for SiteFilesDeleteBatch {
    type Params = i64;
    type Request = SiteFilesPaths;
    type Response = ();

    fn get_url(id: i64) -> (r: String)
        ensures
            r@ == "static-sites/"@ + decimal(id as int) + "/delete-files"@,
    {
        path_with_id("static-sites/", id, "/delete-files")
    }

    fn method() -> (r: HttpMethod)
        ensures
            r == HttpMethod::Post,
    {
        HttpMethod::Post
    }
}

} // verus!
