//! Record types the client can write, plus normalization of their values to the
//! canonical form the API validates and stores.
use crate::text::{
    lemma_capitals_upper, str_upper,
    is_white_space, lemma_join_ends, lemma_trim_end_shape, lemma_trim_idempotent, lemma_trim_noop,
    lemma_trim_start_shape, lemma_with_trailing_dot, lemma_words_of_join, lemma_words_proper,
    proper_words, trim_start,
    chars_of, concat, join, join_chars, push_trailing_dot, split_whitespace, string_of, trim,
    trim_chars, with_trailing_dot, words,
};
use vstd::prelude::*;

verus! {

/// A DNS record type accepted by the write commands.
#[derive(Clone, Copy, PartialEq, Eq, Debug)]
pub enum RrType {
    A,
    Aaaa,
    Cname,
    Txt,
    Mx,
    Ns,
    Ptr,
    Srv,
    Caa,
}

impl RrType {
    /// The API spelling of the type.
    pub open spec fn spec_name(self) -> Seq<char> {
        match self {
            RrType::A => "A"@,
            RrType::Aaaa => "AAAA"@,
            RrType::Cname => "CNAME"@,
            RrType::Txt => "TXT"@,
            RrType::Mx => "MX"@,
            RrType::Ns => "NS"@,
            RrType::Ptr => "PTR"@,
            RrType::Srv => "SRV"@,
            RrType::Caa => "CAA"@,
        }
    }

    /// The API spelling of the type.
    pub fn as_str(&self) -> (r: &'static str)
        ensures
            r@ == self.spec_name(),
    {
        match self {
            RrType::A => "A",
            RrType::Aaaa => "AAAA",
            RrType::Cname => "CNAME",
            RrType::Txt => "TXT",
            RrType::Mx => "MX",
            RrType::Ns => "NS",
            RrType::Ptr => "PTR",
            RrType::Srv => "SRV",
            RrType::Caa => "CAA",
        }
    }

    /// CNAME/NS/PTR — an FQDN with a trailing dot, MX/SRV — a trailing dot on the
    /// target token, TXT — wrapped in quotes. Everything else goes as typed.
    pub fn normalize(&self, value: &str) -> (r: String)
        ensures
            r@ == normalized(*self, value@),
    {
        let raw = chars_of(value);
        let v = trim_chars(&raw);
        let out = normalize_trimmed(*self, &v);
        string_of(&out)
    }
}

/// `v` with the `n`-th whitespace-separated word dotted and the words re-joined
/// by single spaces; a value with fewer words is left as it is, for the server
/// to report the format error.
pub open spec fn dot_nth(v: Seq<char>, n: int) -> Seq<char> {
    let ws = words(v);
    if 0 <= n < ws.len() {
        join(ws.update(n, with_trailing_dot(ws[n])), seq![' '])
    } else {
        v
    }
}

/// A TXT value as stored: already-quoted values are kept, others are quoted.
pub open spec fn quoted(v: Seq<char>) -> Seq<char> {
    if v.len() >= 2 && v[0] == '"' && v.last() == '"' {
        v
    } else {
        seq!['"'] + v + seq!['"']
    }
}

/// Canonical form of an already trimmed value of type `t`.
pub open spec fn normalized_trimmed(t: RrType, v: Seq<char>) -> Seq<char> {
    if v.len() == 0 {
        v
    } else {
        match t {
            RrType::Cname | RrType::Ns | RrType::Ptr => with_trailing_dot(v),
            RrType::Txt => quoted(v),
            RrType::Mx => dot_nth(v, 1),
            RrType::Srv => dot_nth(v, 3),
            RrType::A | RrType::Aaaa | RrType::Caa => v,
        }
    }
}

/// Canonical form of a value of type `t`, as typed by the user.
pub open spec fn normalized(t: RrType, value: Seq<char>) -> Seq<char> {
    normalized_trimmed(t, trim(value))
}


/// Dotting a word keeps the words proper.
proof fn lemma_dotted_words(ws: Seq<Seq<char>>, n: int)
    requires
        proper_words(ws),
        0 <= n < ws.len(),
    ensures
        proper_words(ws.update(n, with_trailing_dot(ws[n]))),
{
    let d = with_trailing_dot(ws[n]);
    assert(d.len() > 0);
    assert forall|i: int| 0 <= i < d.len() implies !is_white_space(#[trigger] d[i]) by {
        if i < ws[n].len() {
            assert(!is_white_space(ws[n][i]));
        }
    }
}

/// `dot_nth` of a trimmed value is trimmed, empty only when the value is, and a
/// fixed point of itself.
proof fn lemma_dot_nth_idempotent(v: Seq<char>, n: int)
    requires
        n >= 0,
        trim(v) == v,
    ensures
        trim(dot_nth(v, n)) == dot_nth(v, n),
        dot_nth(dot_nth(v, n), n) == dot_nth(v, n),
        dot_nth(v, n).len() == 0 <==> v.len() == 0,
{
    let ws = words(v);
    lemma_words_proper(v);
    if n < ws.len() {
        let ws2 = ws.update(n, with_trailing_dot(ws[n]));
        lemma_dotted_words(ws, n);
        let y = join(ws2, seq![' ']);
        lemma_join_ends(ws2);
        lemma_trim_noop(y);
        lemma_words_of_join(ws2);
        lemma_with_trailing_dot(ws[n]);
        assert(ws2.update(n, with_trailing_dot(ws2[n])) =~= ws2);
        if y.len() == 0 {
            assert(words(Seq::<char>::empty()) =~= Seq::<Seq<char>>::empty());
        }
        if v.len() == 0 {
            assert(words(Seq::<char>::empty()) =~= Seq::<Seq<char>>::empty());
        }
    }
}

/// Normalizing a normalized value changes nothing.
pub proof fn lemma_normalized_idempotent(t: RrType, value: Seq<char>)
    ensures
        normalized(t, normalized(t, value)) == normalized(t, value),
{
    let v = trim(value);
    lemma_trim_start_shape(value);
    lemma_trim_end_shape(trim_start(value));
    lemma_trim_idempotent(value);
    let y = normalized(t, value);
    if v.len() == 0 {
        lemma_trim_noop(v);
    } else {
        crate::text::lemma_trim_end_keeps_first(trim_start(value));
        assert(!is_white_space(v[0]) && !is_white_space(v.last()));
        match t {
            RrType::Cname | RrType::Ns | RrType::Ptr => {
                lemma_with_trailing_dot(v);
                assert(y[0] == v[0]);
                lemma_trim_noop(y);
            },
            RrType::Txt => {
                if !(v.len() >= 2 && v[0] == '"' && v.last() == '"') {
                    let q = seq!['"'] + v + seq!['"'];
                    assert(q[0] == '"' && q.last() == '"' && q.len() >= 2);
                    lemma_trim_noop(q);
                }
            },
            RrType::Mx => {
                lemma_trim_noop(v);
                lemma_dot_nth_idempotent(v, 1);
            },
            RrType::Srv => {
                lemma_trim_noop(v);
                lemma_dot_nth_idempotent(v, 3);
            },
            RrType::A | RrType::Aaaa | RrType::Caa => {},
        }
    }
}

/// A normalized value has no surrounding whitespace, and it is empty exactly when
/// the value is blank.
pub proof fn law_normalized_shape(t: RrType, value: Seq<char>)
    ensures
        trim(normalized(t, value)) == normalized(t, value),
        normalized(t, value).len() == 0 <==> trim(value).len() == 0,
{
    let v = trim(value);
    lemma_trim_start_shape(value);
    lemma_trim_end_shape(trim_start(value));
    lemma_trim_idempotent(value);
    let y = normalized(t, value);
    if v.len() > 0 {
        crate::text::lemma_trim_end_keeps_first(trim_start(value));
        assert(!is_white_space(v[0]) && !is_white_space(v.last()));
        lemma_trim_noop(v);
        match t {
            RrType::Cname | RrType::Ns | RrType::Ptr => {
                lemma_with_trailing_dot(v);
                assert(y[0] == v[0]);
                lemma_trim_noop(y);
            },
            RrType::Txt => {
                if !(v.len() >= 2 && v[0] == '"' && v.last() == '"') {
                    let q = seq!['"'] + v + seq!['"'];
                    assert(q[0] == '"' && q.last() == '"' && q.len() >= 2);
                    lemma_trim_noop(q);
                }
            },
            RrType::Mx => {
                lemma_dot_nth_idempotent(v, 1);
            },
            RrType::Srv => {
                lemma_dot_nth_idempotent(v, 3);
            },
            RrType::A | RrType::Aaaa | RrType::Caa => {},
        }
    }
}

/// `s` with a trailing dot added unless it already ends with one.
pub fn ensure_trailing_dot(s: &str) -> (r: String)
    ensures
        r@ == with_trailing_dot(s@),
{
    let v = chars_of(s);
    let d = push_trailing_dot(&v);
    string_of(&d)
}

/// Appends a trailing dot to the `n`-th whitespace-separated token (the FQDN target
/// of MX/SRV). Values with fewer tokens are left as they are, for the server to
/// report the format error.
pub fn dot_nth_token(value: &Vec<char>, n: usize) -> (r: Vec<char>)
    ensures
        r@ == dot_nth(value@, n as int),
{
    let mut parts = split_whitespace(value);
    let ghost ws = words(value@);
    if n < parts.len() {
        let dotted = push_trailing_dot(&parts[n]);
        parts.set(n, dotted);
        assert(parts@.map_values(|w: Vec<char>| w@) =~= ws.update(n as int, with_trailing_dot(ws[n as int])));
        let sep: Vec<char> = vec![' '];
        assert(sep@ =~= seq![' ']);
        join_chars(&parts, &sep)
    } else {
        value.clone()
    }
}

fn quote(v: &Vec<char>) -> (r: Vec<char>)
    ensures
        r@ == quoted(v@),
{
    if v.len() >= 2 && v[0] == '"' && v[v.len() - 1] == '"' {
        v.clone()
    } else {
        let mut out: Vec<char> = vec!['"'];
        out = concat(&out, v);
        out.push('"');
        assert(out@ =~= seq!['"'] + v@ + seq!['"']);
        out
    }
}

/// Canonical form of an already trimmed value.
pub fn normalize_trimmed(t: RrType, v: &Vec<char>) -> (r: Vec<char>)
    ensures
        r@ == normalized_trimmed(t, v@),
{
    if v.len() == 0 {
        return v.clone();
    }
    match t {
        RrType::Cname | RrType::Ns | RrType::Ptr => push_trailing_dot(v),
        RrType::Txt => quote(v),
        RrType::Mx => dot_nth_token(v, 1),
        RrType::Srv => dot_nth_token(v, 3),
        RrType::A | RrType::Aaaa | RrType::Caa => v.clone(),
    }
}

/// The API name of every type is already in capitals, so `str::to_uppercase`
/// leaves it unchanged.
pub proof fn lemma_name_is_upper(t: RrType)
    ensures
        str_upper(t.spec_name()) == t.spec_name(),
{
    reveal_strlit("A");
    reveal_strlit("AAAA");
    reveal_strlit("CNAME");
    reveal_strlit("TXT");
    reveal_strlit("MX");
    reveal_strlit("NS");
    reveal_strlit("PTR");
    reveal_strlit("SRV");
    reveal_strlit("CAA");
    lemma_capitals_upper(t.spec_name());
}

/// A non-blank CNAME, NS or PTR value is a name: it is normalized to the trimmed
/// value with a dot added unless it already ends with one, so it always ends
/// with a dot.
pub proof fn law_name_values_end_with_dot(t: RrType, value: Seq<char>)
    requires
        t == RrType::Cname || t == RrType::Ns || t == RrType::Ptr,
        trim(value).len() > 0,
    ensures
        normalized(t, value).len() > 0,
        normalized(t, value).last() == '.',
        trim(value).last() == '.' ==> normalized(t, value) == trim(value),
        trim(value).last() != '.' ==> normalized(t, value) == trim(value).push('.'),
{
}

/// The words of an MX or SRV value after normalization: the same words, except
/// that word `n` (the target host) ends with a dot, being the word itself when
/// it already did and the word with a dot added otherwise.
proof fn lemma_dotted_target(v: Seq<char>, n: int)
    requires
        0 <= n < words(v).len(),
    ensures
        words(dot_nth(v, n)).len() == words(v).len(),
        words(dot_nth(v, n))[n].last() == '.',
        words(v)[n].last() == '.' ==> words(dot_nth(v, n))[n] == words(v)[n],
        words(v)[n].last() != '.' ==> words(dot_nth(v, n))[n] == words(v)[n].push('.'),
        forall|i: int| 0 <= i < words(v).len() && i != n ==> #[trigger] words(dot_nth(v, n))[i] == words(v)[i],
{
    let ws = words(v);
    lemma_words_proper(v);
    lemma_dotted_words(ws, n);
    lemma_words_of_join(ws.update(n, with_trailing_dot(ws[n])));
}

/// What normalization does to a non-blank value of each type: A, AAAA and CAA
/// values are only trimmed; a TXT value is put in double quotes unless it already
/// is; an MX value gets a dot after its host (second word) and an SRV value after
/// its target (fourth word), the other words kept, and a value with fewer words
/// is only trimmed.
pub proof fn law_normalized_by_type(t: RrType, value: Seq<char>)
    requires
        trim(value).len() > 0,
    ensures
        (t == RrType::A || t == RrType::Aaaa || t == RrType::Caa) ==> normalized(t, value) == trim(value),
        t == RrType::Txt ==> ({
            let v = trim(value);
            let r = normalized(t, value);
            &&& r.len() >= 2 && r[0] == '"' && r.last() == '"'
            &&& (v.len() >= 2 && v[0] == '"' && v.last() == '"') ==> r == v
            &&& !(v.len() >= 2 && v[0] == '"' && v.last() == '"') ==> r == seq!['"'] + v + seq!['"']
        }),
        (t == RrType::Mx || t == RrType::Srv) ==> ({
            let n: int = if t == RrType::Mx { 1 } else { 3 };
            let v = trim(value);
            let r = normalized(t, value);
            &&& words(v).len() <= n ==> r == v
            &&& words(v).len() > n ==> {
                &&& words(r).len() == words(v).len()
                &&& words(r)[n].last() == '.'
                &&& words(v)[n].last() == '.' ==> words(r)[n] == words(v)[n]
                &&& words(v)[n].last() != '.' ==> words(r)[n] == words(v)[n].push('.')
                &&& forall|i: int| 0 <= i < words(v).len() && i != n ==> #[trigger] words(r)[i] == words(v)[i]
            }
        }),
{
    let v = trim(value);
    if t == RrType::Mx && words(v).len() > 1 {
        lemma_dotted_target(v, 1);
    }
    if t == RrType::Srv && words(v).len() > 3 {
        lemma_dotted_target(v, 3);
    }
}

/// The API names of the record types: the type's name in capitals, no two alike.
pub proof fn law_type_names()
    ensures
        RrType::A.spec_name() == "A"@,
        RrType::Aaaa.spec_name() == "AAAA"@,
        RrType::Cname.spec_name() == "CNAME"@,
        RrType::Txt.spec_name() == "TXT"@,
        RrType::Mx.spec_name() == "MX"@,
        RrType::Ns.spec_name() == "NS"@,
        RrType::Ptr.spec_name() == "PTR"@,
        RrType::Srv.spec_name() == "SRV"@,
        RrType::Caa.spec_name() == "CAA"@,
        forall|a: RrType, b: RrType| a != b ==> a.spec_name() != b.spec_name(),
{
    reveal_strlit("A");
    reveal_strlit("AAAA");
    reveal_strlit("CNAME");
    reveal_strlit("TXT");
    reveal_strlit("MX");
    reveal_strlit("NS");
    reveal_strlit("PTR");
    reveal_strlit("SRV");
    reveal_strlit("CAA");
    assert forall|a: RrType, b: RrType| a != b implies a.spec_name() != b.spec_name() by {
        if a.spec_name().len() == b.spec_name().len() {
            assert(a.spec_name()[0] != b.spec_name()[0] || a.spec_name()[1] != b.spec_name()[1]);
        }
    }
}

} // verus!
