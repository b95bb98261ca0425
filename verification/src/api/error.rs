//! API errors: the HTTP status check, and the readable text of a DRF error body
//! (`{"detail": …}` or a map of field errors).
use crate::i18n::{message, tr, Lang, M};
use crate::text::{chars_of, concat, decimal, join, join_chars, owned, str_eq, string_of, u64_to_chars};
use vstd::prelude::*;

verus! {

/// A parsed JSON document. Numbers keep their text; the members of an object
/// come in the order the parser yields them.
#[derive(Debug)]
pub enum JsonValue {
    Null,
    Bool(bool),
    Number(String),
    Str(String),
    Array(Vec<JsonValue>),
    Object(Vec<JsonMember>),
}

/// One member of a JSON object.
#[derive(Debug)]
pub struct JsonMember {
    pub key: String,
    pub value: JsonValue,
}

/// The messages of a DRF error value: a string is itself, `null` is empty, a
/// number or boolean is its JSON text, and an array or object joins the messages
/// of its elements (values) with `"; "`, leaving out the empty ones. Nested
/// serializers answer e.g. `{"rrsets": [{"non_field_errors": ["…"]}]}`, where the
/// valid items are empty objects.
pub open spec fn flatten_spec(v: JsonValue) -> Seq<char>
    decreases v, 1int,
{
    match v {
        JsonValue::Null => Seq::empty(),
        JsonValue::Bool(b) => if b { "true"@ } else { "false"@ },
        JsonValue::Number(n) => n@,
        JsonValue::Str(s) => s@,
        JsonValue::Array(items) => join(flatten_items(items@), "; "@),
        JsonValue::Object(members) => join(flatten_members(members@), "; "@),
    }
}

/// The non-empty messages of a list of values, in order.
pub open spec fn flatten_items(items: Seq<JsonValue>) -> Seq<Seq<char>>
    decreases items, 0int,
{
    if items.len() == 0 {
        Seq::empty()
    } else {
        let rest = flatten_items(items.drop_last());
        let m = flatten_spec(items.last());
        if m.len() == 0 {
            rest
        } else {
            rest.push(m)
        }
    }
}

/// The non-empty messages of the values of an object's members, in order.
pub open spec fn flatten_members(members: Seq<JsonMember>) -> Seq<Seq<char>>
    decreases members, 0int,
{
    if members.len() == 0 {
        Seq::empty()
    } else {
        let rest = flatten_members(members.drop_last());
        let m = flatten_spec(members.last().value);
        if m.len() == 0 {
            rest
        } else {
            rest.push(m)
        }
    }
}

/// The character sequences of a list of parts.
pub open spec fn parts_view(parts: Seq<Vec<char>>) -> Seq<Seq<char>> {
    parts.map_values(|p: Vec<char>| p@)
}

/// `flatten_spec` computed.
pub fn flatten_errors(v: &JsonValue) -> (r: String)
    ensures
        r@ == flatten_spec(*v),
    decreases v,
{
    match v {
        JsonValue::Null => String::new(),
        JsonValue::Bool(b) => if *b {
            owned("true")
        } else {
            owned("false")
        },
        JsonValue::Number(n) => n.clone(),
        JsonValue::Str(s) => s.clone(),
        JsonValue::Array(items) => {
            let mut parts: Vec<Vec<char>> = Vec::new();
            let mut i: usize = 0;
            while i < items.len()
                invariant
                    i <= items.len(),
                    *v == JsonValue::Array(*items),
                    parts_view(parts@) == flatten_items(items@.take(i as int)),
                decreases items.len() - i,
            {
                proof {
                    assert(decreases_to!(*v => (*v)->Array_0));
                    assert(decreases_to!(*items => items@));
                    assert(decreases_to!(items@ => items@[i as int]));
                    assert(decreases_to!(*v => items@[i as int]));
                }
                let m = flatten_errors(&items[i]);
                let ghost before = parts@;
                proof {
                    assert(items@.take(i + 1).drop_last() =~= items@.take(i as int));
                }
                let c = chars_of(m.as_str());
                if c.len() > 0 {
                    parts.push(c);
                    assert(parts_view(parts@) =~= parts_view(before).push(m@));
                }
                i += 1;
            }
            assert(items@.take(items.len() as int) =~= items@);
            string_of(&join_chars(&parts, &chars_of("; ")))
        },
        JsonValue::Object(members) => {
            let mut parts: Vec<Vec<char>> = Vec::new();
            let mut i: usize = 0;
            while i < members.len()
                invariant
                    i <= members.len(),
                    *v == JsonValue::Object(*members),
                    parts_view(parts@) == flatten_members(members@.take(i as int)),
                decreases members.len() - i,
            {
                proof {
                    assert(decreases_to!(*v => (*v)->Object_0));
                    assert(decreases_to!(*members => members@));
                    assert(decreases_to!(members@ => members@[i as int]));
                    assert(decreases_to!(members@[i as int] => members@[i as int].value));
                    assert(decreases_to!(*v => members@[i as int].value));
                }
                let m = flatten_errors(&members[i].value);
                let ghost before = parts@;
                proof {
                    assert(members@.take(i + 1).drop_last() =~= members@.take(i as int));
                }
                let c = chars_of(m.as_str());
                if c.len() > 0 {
                    parts.push(c);
                    assert(parts_view(parts@) =~= parts_view(before).push(m@));
                }
                i += 1;
            }
            assert(members@.take(members.len() as int) =~= members@);
            string_of(&join_chars(&parts, &chars_of("; ")))
        },
    }
}

/// The value of the first member named `key`.
pub open spec fn member_named(ms: Seq<JsonMember>, key: Seq<char>) -> Option<JsonValue>
    decreases ms.len(),
{
    if ms.len() == 0 {
        None
    } else if ms[0].key@ == key {
        Some(ms[0].value)
    } else {
        member_named(ms.drop_first(), key)
    }
}

/// `field: messages` for each member with messages, in order.
pub open spec fn field_parts(ms: Seq<JsonMember>) -> Seq<Seq<char>>
    decreases ms.len(),
{
    if ms.len() == 0 {
        Seq::empty()
    } else {
        let rest = field_parts(ms.drop_last());
        let m = flatten_spec(ms.last().value);
        if m.len() == 0 {
            rest
        } else {
            rest.push(ms.last().key@ + ": "@ + m)
        }
    }
}

/// The readable text of a DRF error body, when it is a JSON object: its string
/// `detail`, or else its field errors joined by `" | "` (none when there are none).
pub open spec fn detail_of(parsed: Option<JsonValue>) -> Option<Seq<char>> {
    match parsed {
        Some(JsonValue::Object(ms)) => match member_named(ms@, "detail"@) {
            Some(JsonValue::Str(d)) => Some(d@),
            _ => {
                let parts = field_parts(ms@);
                if parts.len() == 0 {
                    None
                } else {
                    Some(join(parts, " | "@))
                }
            },
        },
        _ => None,
    }
}

fn detail_member(ms: &Vec<JsonMember>) -> (r: Option<String>)
    ensures
        match r {
            Some(d) => member_named(ms@, "detail"@) matches Some(JsonValue::Str(x)) && x@ == d@,
            None => !(member_named(ms@, "detail"@) matches Some(JsonValue::Str(_))),
        },
{
    let mut i: usize = 0;
    assert(ms@.skip(0) =~= ms@);
    while i < ms.len()
        invariant
            i <= ms@.len(),
            member_named(ms@, "detail"@) == member_named(ms@.skip(i as int), "detail"@),
        decreases ms.len() - i,
    {
        if str_eq(ms[i].key.as_str(), "detail") {
            return match &ms[i].value {
                JsonValue::Str(d) => Some(d.clone()),
                _ => None,
            };
        }
        assert(ms@.skip(i as int).drop_first() =~= ms@.skip(i + 1));
        i += 1;
    }
    None
}

/// Extracts `detail`, or joins the field errors of a DRF error body into one line;
/// `parsed` is the body parsed as JSON (`None` when it is not JSON).
pub fn extract_detail(parsed: &Option<JsonValue>) -> (r: Option<String>)
    ensures
        match r {
            Some(d) => detail_of(*parsed) == Some(d@),
            None => detail_of(*parsed) is None,
        },
{
    match parsed {
        Some(JsonValue::Object(ms)) => {
            match detail_member(ms) {
                Some(d) => {
                    return Some(d);
                },
                None => {},
            }
            let mut parts: Vec<Vec<char>> = Vec::new();
            let mut i: usize = 0;
            while i < ms.len()
                invariant
                    i <= ms.len(),
                    parts_view(parts@) == field_parts(ms@.take(i as int)),
                decreases ms.len() - i,
            {
                let m = chars_of(flatten_errors(&ms[i].value).as_str());
                let ghost before = parts@;
                proof {
                    assert(ms@.take(i + 1).drop_last() =~= ms@.take(i as int));
                }
                if m.len() > 0 {
                    let part = concat(&concat(&chars_of(ms[i].key.as_str()), &chars_of(": ")), &m);
                    parts.push(part);
                    assert(parts_view(parts@) =~= parts_view(before).push(ms@[i as int].key@ + ": "@ + m@));
                }
                i += 1;
            }
            assert(ms@.take(ms.len() as int) =~= ms@);
            if parts.len() == 0 {
                None
            } else {
                Some(string_of(&join_chars(&parts, &chars_of(" | "))))
            }
        },
        _ => None,
    }
}

/// Whether an HTTP status is a success (2xx).
pub fn is_success(status: u16) -> (r: bool)
    ensures
        r == (200 <= status <= 299),
{
    200 <= status && status <= 299
}

/// An HTTP error answer, with the readable text of its body.
#[derive(Clone, Debug)]
pub struct HttpError {
    pub status: u16,
    pub detail: String,
}

/// The error for a failed answer with status `status` and body `body`; `parsed`
/// is the body parsed as JSON. The detail is the extracted DRF text, or else the
/// raw body.
pub fn http_error(status: u16, body: String, parsed: &Option<JsonValue>) -> (r: HttpError)
    ensures
        r.status == status,
        r.detail@ == match detail_of(*parsed) {
            Some(d) => d,
            None => body@,
        },
{
    let detail = match extract_detail(parsed) {
        Some(d) => d,
        None => body,
    };
    HttpError { status, detail }
}

/// The standard reason phrase of a status code, if it has one.
pub uninterp spec fn canonical_reason(code: u16) -> Option<Seq<char>>;

/// `StatusCode::from_u16(code)` then `canonical_reason()`: the standard reason
/// phrase of a status code; none for a code the crate does not accept (outside
/// 100 to 999) or one without a phrase.
#[verifier::external_body]
fn reason_phrase(code: u16) -> (r: Option<String>)
    ensures
        match r {
            Some(s) => canonical_reason(code) == Some(s@),
            None => canonical_reason(code) is None,
        },
        !(100 <= code <= 999) ==> r is None,
{
    match reqwest::StatusCode::from_u16(code) {
        Ok(s) => match s.canonical_reason() {
            Some(t) => Some(t.to_string()),
            None => None,
        },
        Err(_) => None,
    }
}

/// The text of an HTTP error, given the reason phrase of its status: 401 and
/// 403 name the status and add a hint; any other status shows its code, the
/// phrase (empty when there is none) and the detail.
pub open spec fn http_error_text_with(
    status: u16,
    detail: Seq<char>,
    phrase: Option<Seq<char>>,
    lang: Lang,
) -> Seq<char> {
    if status == 401 {
        "401 Unauthorized: "@ + detail + "\n"@ + message(M::ErrUnauthorized, lang)
    } else if status == 403 {
        "403 Forbidden: "@ + detail + "\n"@ + message(M::ErrForbidden, lang)
    } else {
        decimal(status as int) + " "@ + match phrase {
            Some(p) => p,
            None => Seq::empty(),
        } + ": "@ + detail
    }
}

/// The text of an HTTP error, with the standard reason phrase of its status.
pub open spec fn http_error_text(status: u16, detail: Seq<char>, lang: Lang) -> Seq<char> {
    http_error_text_with(status, detail, canonical_reason(status), lang)
}

/// The text of an HTTP error whose status has the reason phrase `phrase`.
pub fn http_error_message(status: u16, detail: &str, phrase: Option<String>, lang: Lang) -> (r: String)
    ensures
        r@ == http_error_text_with(
            status,
            detail@,
            match phrase {
                Some(p) => Some(p@),
                None => None,
            },
            lang,
        ),
{
    let d = chars_of(detail);
    if status == 401 {
        let a = concat(&concat(&chars_of("401 Unauthorized: "), &d), &chars_of("\n"));
        string_of(&concat(&a, &chars_of(tr(lang, M::ErrUnauthorized))))
    } else if status == 403 {
        let a = concat(&concat(&chars_of("403 Forbidden: "), &d), &chars_of("\n"));
        string_of(&concat(&a, &chars_of(tr(lang, M::ErrForbidden))))
    } else {
        let p = match phrase {
            Some(p) => chars_of(p.as_str()),
            None => Vec::new(),
        };
        let a = concat(&concat(&u64_to_chars(status as u64), &chars_of(" ")), &p);
        string_of(&concat(&concat(&a, &chars_of(": ")), &d))
    }
}

impl HttpError {
    /// The text shown for the error.
    pub fn message(&self, lang: Lang) -> (r: String)
        ensures
            r@ == http_error_text(self.status, self.detail@, lang),
    {
        let phrase = reason_phrase(self.status);
        http_error_message(self.status, self.detail.as_str(), phrase, lang)
    }
}

} // verus!
