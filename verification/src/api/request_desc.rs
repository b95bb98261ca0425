//! What a request to `/api/v1` looks like: its path (relative to the API base) and
//! its HTTP method. Sending is the program's business.
use crate::text::{chars_of, concat, decimal, i64_to_chars, string_of};
use vstd::prelude::*;

verus! {

/// HTTP method of a request.
#[derive(Clone, Copy, PartialEq, Eq, Debug)]
pub enum HttpMethod {
    Get,
    Post,
    Patch,
    Delete,
}

/// An endpoint: the parameters its path is built from, the body it takes and the
/// body it answers with.
pub trait RequestDesc {
    type Params;
    type Request;
    type Response;

    /// Path of the endpoint relative to the API base.
    fn get_url(params: Self::Params) -> String;

    fn method() -> HttpMethod;
}

/// `prefix`, the decimal `id`, then `suffix`.
pub fn path_with_id(prefix: &str, id: i64, suffix: &str) -> (r: String)
    ensures
        r@ == prefix@ + decimal(id as int) + suffix@,
{
    let out = concat(&concat(&chars_of(prefix), &i64_to_chars(id)), &chars_of(suffix));
    string_of(&out)
}

/// `prefix`, `text`, then `suffix`.
pub fn path_with_text(prefix: &str, text: &str, suffix: &str) -> (r: String)
    ensures
        r@ == prefix@ + text@ + suffix@,
{
    let out = concat(&concat(&chars_of(prefix), &chars_of(text)), &chars_of(suffix));
    string_of(&out)
}

/// `prefix`, the decimal `id`, `mid`, `text`, then `suffix`.
pub fn path_with_id_text(prefix: &str, id: i64, mid: &str, text: &str, suffix: &str) -> (r: String)
    ensures
        r@ == prefix@ + decimal(id as int) + mid@ + text@ + suffix@,
{
    let a = concat(&concat(&chars_of(prefix), &i64_to_chars(id)), &chars_of(mid));
    let out = concat(&concat(&a, &chars_of(text)), &chars_of(suffix));
    string_of(&out)
}

} // verus!
