//! URLs of the `/api/v1` API: the base derived from the configured API URL, and
//! the full URL of an endpoint path.
use crate::text::{chars_of, concat, string_of, trim_end_char, trim_end_matches, trim_start_char, trim_start_matches};
use vstd::prelude::*;

verus! {

/// The API base: the configured URL without trailing slashes, then `/api/v1`.
pub open spec fn api_base_of(api_url: Seq<char>) -> Seq<char> {
    trim_end_char(api_url, '/') + "/api/v1"@
}

/// The full URL of `path` under `base`: one slash between them, however many
/// `path` starts with.
pub open spec fn url_of(base: Seq<char>, path: Seq<char>) -> Seq<char> {
    base + "/"@ + trim_start_char(path, '/')
}

/// `api_base_of` computed.
pub fn api_base(api_url: &str) -> (r: String)
    ensures
        r@ == api_base_of(api_url@),
{
    let trimmed = trim_end_matches(&chars_of(api_url), '/');
    string_of(&concat(&trimmed, &chars_of("/api/v1")))
}

/// `url_of` computed.
pub fn join_url(base: &str, path: &str) -> (r: String)
    ensures
        r@ == url_of(base@, path@),
{
    let p = trim_start_matches(&chars_of(path), '/');
    string_of(&concat(&concat(&chars_of(base), &chars_of("/")), &p))
}

/// Slashes do not double up at the join: trailing slashes of the configured URL
/// and leading slashes of the path change nothing.
pub proof fn law_slashes_do_not_double(api_url: Seq<char>, path: Seq<char>)
    ensures
        api_base_of(api_url.push('/')) == api_base_of(api_url),
        url_of(api_base_of(api_url), seq!['/'] + path) == url_of(api_base_of(api_url), path),
{
    assert(api_url.push('/').drop_last() =~= api_url);
    assert((seq!['/'] + path).drop_first() =~= path);
}

} // verus!
