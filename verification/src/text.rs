//! Character-level string toolkit shared by the whole library.
//!
//! Every operation is stated over `Seq<char>` (the view of `str`/`String`) and
//! implemented over `Vec<char>`, so that the name normalization, template filling
//! and table rendering elsewhere can be proved against plain sequence specs.
use vstd::prelude::*;

verus! {

/// `String::push` appends one character at the end (as its documentation states).
pub assume_specification[ String::push ](s: &mut String, ch: char)
    ensures
        final(s)@ == old(s)@.push(ch),
;

// ---------------------------------------------------------------------------
// Specifications
// ---------------------------------------------------------------------------

/// The Unicode `White_Space` property (what `char::is_whitespace` tests).
pub open spec fn is_white_space(c: char) -> bool {
    ||| ('\u{9}' <= c && c <= '\u{d}')
    ||| c == ' '
    ||| c == '\u{85}'
    ||| c == '\u{a0}'
    ||| c == '\u{1680}'
    ||| ('\u{2000}' <= c && c <= '\u{200a}')
    ||| c == '\u{2028}'
    ||| c == '\u{2029}'
    ||| c == '\u{202f}'
    ||| c == '\u{205f}'
    ||| c == '\u{3000}'
}

/// `s` without its leading whitespace.
pub open spec fn trim_start(s: Seq<char>) -> Seq<char>
    decreases s.len(),
{
    if s.len() > 0 && is_white_space(s[0]) {
        trim_start(s.drop_first())
    } else {
        s
    }
}

/// `s` without its trailing whitespace.
pub open spec fn trim_end(s: Seq<char>) -> Seq<char>
    decreases s.len(),
{
    if s.len() > 0 && is_white_space(s.last()) {
        trim_end(s.drop_last())
    } else {
        s
    }
}

/// `s` without leading and trailing whitespace (`str::trim`).
pub open spec fn trim(s: Seq<char>) -> Seq<char> {
    trim_end(trim_start(s))
}

/// `s` without every trailing occurrence of `c` (`str::trim_end_matches(c)`).
pub open spec fn trim_end_char(s: Seq<char>, c: char) -> Seq<char>
    decreases s.len(),
{
    if s.len() > 0 && s.last() == c {
        trim_end_char(s.drop_last(), c)
    } else {
        s
    }
}

/// `s` without every leading occurrence of `c` (`str::trim_start_matches(c)`).
pub open spec fn trim_start_char(s: Seq<char>, c: char) -> Seq<char>
    decreases s.len(),
{
    if s.len() > 0 && s[0] == c {
        trim_start_char(s.drop_first(), c)
    } else {
        s
    }
}

pub open spec fn ends_with_char(s: Seq<char>, c: char) -> bool {
    s.len() > 0 && s.last() == c
}

pub open spec fn starts_with_char(s: Seq<char>, c: char) -> bool {
    s.len() > 0 && s[0] == c
}

/// `s` ends with `suffix`.
pub open spec fn has_suffix(s: Seq<char>, suffix: Seq<char>) -> bool {
    suffix.len() <= s.len() && s.skip(s.len() - suffix.len()) == suffix
}

/// `s` starts with `prefix`.
pub open spec fn has_prefix(s: Seq<char>, prefix: Seq<char>) -> bool {
    prefix.len() <= s.len() && s.take(prefix.len() as int) == prefix
}

/// ASCII lowercase of one character; other characters are unchanged.
pub open spec fn ascii_lower(c: char) -> char {
    if 'A' <= c && c <= 'Z' {
        ((c as u32) + 32) as char
    } else {
        c
    }
}

/// ASCII-case-insensitive equality (`str::eq_ignore_ascii_case`).
pub open spec fn eq_ignore_ascii_case(a: Seq<char>, b: Seq<char>) -> bool {
    a.len() == b.len() && forall|i: int| 0 <= i < a.len() ==> ascii_lower(a[i]) == ascii_lower(b[i])
}

/// `s` with a `'.'` appended unless it already ends with one.
pub open spec fn with_trailing_dot(s: Seq<char>) -> Seq<char> {
    if ends_with_char(s, '.') {
        s
    } else {
        s.push('.')
    }
}

/// Splitting into whitespace-separated words, as a left-to-right scan: `cur` is the
/// word being read, `acc` the words already complete.
pub open spec fn words_from(s: Seq<char>, cur: Seq<char>, acc: Seq<Seq<char>>) -> Seq<Seq<char>>
    decreases s.len(),
{
    if s.len() == 0 {
        if cur.len() > 0 {
            acc.push(cur)
        } else {
            acc
        }
    } else if is_white_space(s[0]) {
        words_from(s.drop_first(), Seq::empty(), if cur.len() > 0 { acc.push(cur) } else { acc })
    } else {
        words_from(s.drop_first(), cur.push(s[0]), acc)
    }
}

/// The whitespace-separated words of `s` (`str::split_whitespace`).
pub open spec fn words(s: Seq<char>) -> Seq<Seq<char>> {
    words_from(s, Seq::empty(), Seq::empty())
}

/// `parts` joined with `sep` between neighbours (`[String]::join`).
pub open spec fn join(parts: Seq<Seq<char>>, sep: Seq<char>) -> Seq<char>
    decreases parts.len(),
{
    if parts.len() == 0 {
        Seq::empty()
    } else if parts.len() == 1 {
        parts[0]
    } else {
        join(parts.drop_last(), sep) + sep + parts.last()
    }
}

/// Every non-overlapping occurrence of `pat`, scanned from the left, replaced by
/// `rep` (`str::replace` with a non-empty pattern).
pub open spec fn replace_all(s: Seq<char>, pat: Seq<char>, rep: Seq<char>) -> Seq<char>
    decreases s.len(),
{
    if pat.len() == 0 || s.len() < pat.len() {
        s
    } else if s.take(pat.len() as int) == pat {
        rep + replace_all(s.skip(pat.len() as int), pat, rep)
    } else {
        seq![s[0]] + replace_all(s.drop_first(), pat, rep)
    }
}

pub open spec fn digit_char(d: nat) -> char {
    if d == 0 { '0' }
    else if d == 1 { '1' }
    else if d == 2 { '2' }
    else if d == 3 { '3' }
    else if d == 4 { '4' }
    else if d == 5 { '5' }
    else if d == 6 { '6' }
    else if d == 7 { '7' }
    else if d == 8 { '8' }
    else { '9' }
}

/// Decimal digits of `n`, most significant first, without leading zeros.
pub open spec fn digits(n: nat) -> Seq<char>
    decreases n,
{
    if n < 10 {
        seq![digit_char(n)]
    } else {
        digits(n / 10).push(digit_char(n % 10))
    }
}

/// Decimal rendering of an integer, as `Display` for Rust integers prints it.
pub open spec fn decimal(n: int) -> Seq<char> {
    if n < 0 {
        seq!['-'] + digits((-n) as nat)
    } else {
        digits(n as nat)
    }
}

/// Full Unicode lowercase mapping of a string (`str::to_lowercase`).
pub uninterp spec fn lowercase(s: Seq<char>) -> Seq<char>;

/// Full Unicode uppercase mapping of a string (`str::to_uppercase`).
pub uninterp spec fn uppercase(s: Seq<char>) -> Seq<char>;

/// Every character is ASCII.
pub open spec fn all_ascii(s: Seq<char>) -> bool {
    forall|i: int| 0 <= i < s.len() ==> (s[i] as u32) < 128
}

/// ASCII uppercase of one character; other characters are unchanged.
pub open spec fn ascii_upper(c: char) -> char {
    if 'a' <= c && c <= 'z' {
        ((c as u32) - 32) as char
    } else {
        c
    }
}

/// ASCII lowercase of a string, character by character.
pub open spec fn ascii_lowercase(s: Seq<char>) -> Seq<char> {
    s.map_values(|c: char| ascii_lower(c))
}

/// ASCII uppercase of a string, character by character.
pub open spec fn ascii_uppercase(s: Seq<char>) -> Seq<char> {
    s.map_values(|c: char| ascii_upper(c))
}

/// The lowercase of a string as `str::to_lowercase` gives it: on ASCII text the
/// ASCII mapping, otherwise the full Unicode mapping.
pub open spec fn str_lower(s: Seq<char>) -> Seq<char> {
    if all_ascii(s) {
        ascii_lowercase(s)
    } else {
        lowercase(s)
    }
}

/// The uppercase of a string as `str::to_uppercase` gives it: on ASCII text the
/// ASCII mapping, otherwise the full Unicode mapping.
pub open spec fn str_upper(s: Seq<char>) -> Seq<char> {
    if all_ascii(s) {
        ascii_uppercase(s)
    } else {
        uppercase(s)
    }
}

// ---------------------------------------------------------------------------
// Lemmas
// ---------------------------------------------------------------------------

/// A string of capital letters is ASCII, and `str::to_uppercase` leaves it as it is.
pub proof fn lemma_capitals_upper(s: Seq<char>)
    requires
        forall|i: int| 0 <= i < s.len() ==> 'A' <= #[trigger] s[i] && s[i] <= 'Z',
    ensures
        all_ascii(s),
        str_upper(s) == s,
{
    assert(ascii_uppercase(s) =~= s);
}

/// Lowercase ASCII text: ASCII, and the ASCII lowercase leaves it unchanged.
pub open spec fn is_ascii_lower(s: Seq<char>) -> bool {
    all_ascii(s) && ascii_lowercase(s) == s
}

/// What the ASCII lowercase of one character keeps: ASCII stays ASCII, a second
/// pass changes nothing, whitespace stays whitespace and no other character
/// becomes `.` or `@`.
pub proof fn lemma_lower_char(c: char)
    ensures
        (c as u32) < 128 ==> (ascii_lower(c) as u32) < 128,
        ascii_lower(ascii_lower(c)) == ascii_lower(c),
        is_white_space(ascii_lower(c)) == is_white_space(c),
        (ascii_lower(c) == '.') == (c == '.'),
        (ascii_lower(c) == '@') == (c == '@'),
{
}

/// The ASCII lowercase of ASCII text is lowercase ASCII text, and it is what
/// `str::to_lowercase` gives.
pub proof fn lemma_lower_of_ascii(s: Seq<char>)
    requires
        all_ascii(s),
    ensures
        is_ascii_lower(ascii_lowercase(s)),
        str_lower(s) == ascii_lowercase(s),
        str_lower(ascii_lowercase(s)) == ascii_lowercase(s),
{
    let l = ascii_lowercase(s);
    assert forall|i: int| 0 <= i < l.len() implies (l[i] as u32) < 128 && ascii_lower(l[i]) == l[i] by {
        lemma_lower_char(s[i]);
    }
    assert(ascii_lowercase(l) =~= l);
}

/// Lowercase ASCII text is its own `str::to_lowercase`.
pub proof fn lemma_lower_fixed(s: Seq<char>)
    requires
        is_ascii_lower(s),
    ensures
        str_lower(s) == s,
{
}

/// Joining lowercase ASCII texts gives lowercase ASCII text.
pub proof fn lemma_lower_concat(a: Seq<char>, b: Seq<char>)
    requires
        is_ascii_lower(a),
        is_ascii_lower(b),
    ensures
        is_ascii_lower(a + b),
{
    let s = a + b;
    assert forall|i: int| 0 <= i < s.len() implies (s[i] as u32) < 128 && ascii_lower(s[i]) == s[i] by {
        if i < a.len() {
            assert(s[i] == a[i]);
            assert(ascii_lowercase(a)[i] == ascii_lower(a[i]));
        } else {
            assert(s[i] == b[i - a.len()]);
            assert(ascii_lowercase(b)[i - a.len()] == ascii_lower(b[i - a.len()]));
        }
    }
    assert(ascii_lowercase(s) =~= s);
}

/// The ASCII lowercase of joined texts is the join of their ASCII lowercases.
pub proof fn lemma_lowercase_concat(a: Seq<char>, b: Seq<char>)
    ensures
        ascii_lowercase(a + b) == ascii_lowercase(a) + ascii_lowercase(b),
{
    assert(ascii_lowercase(a + b) =~= ascii_lowercase(a) + ascii_lowercase(b));
}

/// A part of ASCII text is ASCII text.
pub proof fn lemma_ascii_subrange(s: Seq<char>, i: int, j: int)
    requires
        all_ascii(s),
        0 <= i <= j <= s.len(),
    ensures
        all_ascii(s.subrange(i, j)),
{
    assert forall|k: int| 0 <= k < j - i implies (s.subrange(i, j)[k] as u32) < 128 by {
        assert(s.subrange(i, j)[k] == s[i + k]);
    }
}

/// `trim_end_char` keeps a prefix, which no longer ends with the character.
pub proof fn lemma_trim_end_char_shape(s: Seq<char>, c: char)
    ensures
        trim_end_char(s, c).len() <= s.len(),
        trim_end_char(s, c) == s.take(trim_end_char(s, c).len() as int),
        trim_end_char(s, c).len() == 0 || trim_end_char(s, c).last() != c,
    decreases s.len(),
{
    if s.len() > 0 && s.last() == c {
        lemma_trim_end_char_shape(s.drop_last(), c);
        let t = trim_end_char(s.drop_last(), c);
        assert(s.drop_last().take(t.len() as int) =~= s.take(t.len() as int));
    } else {
        assert(s.take(s.len() as int) =~= s);
    }
}

/// Appending `c` to text that does not end with `c`: `trim_end_char` takes it off
/// again.
pub proof fn lemma_trim_end_char_push(s: Seq<char>, c: char)
    requires
        s.len() == 0 || s.last() != c,
    ensures
        trim_end_char(s.push(c), c) == s,
{
    assert(s.push(c).drop_last() =~= s);
    assert(trim_end_char(s, c) == s);
}

/// Text that is its own trim neither starts nor ends with whitespace.
pub proof fn lemma_trimmed_ends(s: Seq<char>)
    requires
        trim(s) == s,
        s.len() > 0,
    ensures
        !is_white_space(s[0]),
        !is_white_space(s.last()),
{
    lemma_trim_ends(s);
}

/// The trim of text is empty or starts and ends with a non-whitespace character.
pub proof fn lemma_trim_ends(s: Seq<char>)
    ensures
        trim(s).len() == 0 || (!is_white_space(trim(s)[0]) && !is_white_space(trim(s).last())),
        trim(s).len() <= s.len(),
        exists|k: int| 0 <= k <= s.len() - trim(s).len() && trim(s) == #[trigger] s.subrange(k, k + trim(s).len()),
{
    lemma_trim_start_shape(s);
    lemma_trim_end_shape(trim_start(s));
    if trim(s).len() > 0 {
        lemma_trim_end_keeps_first(trim_start(s));
    }
    let k = s.len() - trim_start(s).len();
    assert(trim(s) =~= s.subrange(k, k + trim(s).len()));
}

pub proof fn lemma_trim_start_skip(s: Seq<char>, i: int)
    requires
        0 <= i <= s.len(),
        forall|k: int| 0 <= k < i ==> is_white_space(#[trigger] s[k]),
    ensures
        trim_start(s) == trim_start(s.skip(i)),
    decreases i,
{
    if i > 0 {
        assert(s.skip(1) =~= s.drop_first());
        lemma_trim_start_skip(s.drop_first(), i - 1);
        assert(s.drop_first().skip(i - 1) =~= s.skip(i));
    } else {
        assert(s.skip(0) =~= s);
    }
}

pub proof fn lemma_trim_end_take(s: Seq<char>, j: int)
    requires
        0 <= j <= s.len(),
        forall|k: int| j <= k < s.len() ==> is_white_space(#[trigger] s[k]),
    ensures
        trim_end(s) == trim_end(s.take(j)),
    decreases s.len() - j,
{
    if j < s.len() {
        assert(s.take(s.len() - 1) =~= s.drop_last());
        lemma_trim_end_take(s.drop_last(), j);
        assert(s.drop_last().take(j) =~= s.take(j));
    } else {
        assert(s.take(j) =~= s);
    }
}

/// A sequence that is empty or has no whitespace at either end is its own trim.
pub proof fn lemma_trim_noop(s: Seq<char>)
    requires
        s.len() == 0 || (!is_white_space(s[0]) && !is_white_space(s.last())),
    ensures
        trim(s) == s,
{
}

/// Trimming twice is trimming once.
pub proof fn lemma_trim_idempotent(s: Seq<char>)
    ensures
        trim(trim(s)) == trim(s),
{
    lemma_trim_start_shape(s);
    lemma_trim_end_shape(trim_start(s));
    let t = trim(s);
    if t.len() > 0 {
        lemma_trim_end_keeps_first(trim_start(s));
    }
    lemma_trim_noop(t);
}

pub proof fn lemma_trim_start_shape(s: Seq<char>)
    ensures
        trim_start(s).len() <= s.len(),
        trim_start(s).len() == 0 || !is_white_space(trim_start(s)[0]),
        trim_start(s) == s.skip(s.len() - trim_start(s).len()),
    decreases s.len(),
{
    if s.len() > 0 && is_white_space(s[0]) {
        lemma_trim_start_shape(s.drop_first());
        let t = trim_start(s.drop_first());
        assert(s.drop_first().skip(s.drop_first().len() - t.len()) =~= s.skip(s.len() - t.len()));
    } else {
        assert(s.skip(0) =~= s);
    }
}

pub proof fn lemma_trim_end_shape(s: Seq<char>)
    ensures
        trim_end(s).len() <= s.len(),
        trim_end(s).len() == 0 || !is_white_space(trim_end(s).last()),
        trim_end(s) == s.take(trim_end(s).len() as int),
    decreases s.len(),
{
    if s.len() > 0 && is_white_space(s.last()) {
        lemma_trim_end_shape(s.drop_last());
        let t = trim_end(s.drop_last());
        assert(s.drop_last().take(t.len() as int) =~= s.take(t.len() as int));
    } else {
        assert(s.take(s.len() as int) =~= s);
    }
}

pub proof fn lemma_trim_end_keeps_first(s: Seq<char>)
    requires
        s.len() == 0 || !is_white_space(s[0]),
        trim_end(s).len() > 0,
    ensures
        !is_white_space(trim_end(s)[0]),
{
    lemma_trim_end_shape(s);
}

/// `with_trailing_dot` is idempotent and its result ends with a dot.
pub proof fn lemma_with_trailing_dot(s: Seq<char>)
    ensures
        ends_with_char(with_trailing_dot(s), '.'),
        with_trailing_dot(with_trailing_dot(s)) == with_trailing_dot(s),
{
}

pub proof fn lemma_ascii_case_symm(a: Seq<char>, b: Seq<char>)
    requires
        eq_ignore_ascii_case(a, b),
    ensures
        eq_ignore_ascii_case(b, a),
{
}

pub proof fn lemma_ascii_case_trans(a: Seq<char>, b: Seq<char>, c: Seq<char>)
    requires
        eq_ignore_ascii_case(a, b),
        eq_ignore_ascii_case(b, c),
    ensures
        eq_ignore_ascii_case(a, c),
{
    assert forall|i: int| 0 <= i < a.len() implies ascii_lower(a[i]) == ascii_lower(c[i]) by {
        assert(ascii_lower(a[i]) == ascii_lower(b[i]));
        assert(ascii_lower(b[i]) == ascii_lower(c[i]));
    }
}

proof fn lemma_join_push(parts: Seq<Seq<char>>, sep: Seq<char>, p: Seq<char>)
    ensures
        join(parts.push(p), sep) == if parts.len() == 0 { p } else { join(parts, sep) + sep + p },
{
    assert(parts.push(p).drop_last() =~= parts);
}

/// No character of `w` is whitespace.
pub open spec fn no_white_space(w: Seq<char>) -> bool {
    forall|i: int| 0 <= i < w.len() ==> !is_white_space(#[trigger] w[i])
}

/// Every word is non-empty and free of whitespace.
pub open spec fn proper_words(ws: Seq<Seq<char>>) -> bool {
    forall|i: int| 0 <= i < ws.len() ==> (#[trigger] ws[i]).len() > 0 && no_white_space(ws[i])
}

proof fn lemma_words_from_proper(s: Seq<char>, cur: Seq<char>, acc: Seq<Seq<char>>)
    requires
        proper_words(acc),
        no_white_space(cur),
    ensures
        proper_words(words_from(s, cur, acc)),
    decreases s.len(),
{
    if s.len() == 0 {
        if cur.len() > 0 {
            assert(proper_words(acc.push(cur)));
        }
    } else if is_white_space(s[0]) {
        let acc2 = if cur.len() > 0 { acc.push(cur) } else { acc };
        assert(proper_words(acc2));
        lemma_words_from_proper(s.drop_first(), Seq::empty(), acc2);
    } else {
        assert(no_white_space(cur.push(s[0])));
        lemma_words_from_proper(s.drop_first(), cur.push(s[0]), acc);
    }
}

/// The words of any sequence are non-empty and free of whitespace.
pub proof fn lemma_words_proper(s: Seq<char>)
    ensures
        proper_words(words(s)),
{
    lemma_words_from_proper(s, Seq::empty(), Seq::empty());
}

proof fn lemma_words_from_word(p: Seq<char>, s: Seq<char>, cur: Seq<char>, acc: Seq<Seq<char>>)
    requires
        no_white_space(p),
    ensures
        words_from(p + s, cur, acc) == words_from(s, cur + p, acc),
    decreases p.len(),
{
    if p.len() == 0 {
        assert(p + s =~= s);
        assert(cur + p =~= cur);
    } else {
        assert((p + s)[0] == p[0]);
        assert((p + s).drop_first() =~= p.drop_first() + s);
        lemma_words_from_word(p.drop_first(), s, cur.push(p[0]), acc);
        assert(cur.push(p[0]) + p.drop_first() =~= cur + p);
    }
}

proof fn lemma_join_first(ps: Seq<Seq<char>>, sep: Seq<char>)
    requires
        ps.len() >= 2,
    ensures
        join(ps, sep) == ps[0] + sep + join(ps.drop_first(), sep),
    decreases ps.len(),
{
    if ps.len() == 2 {
        assert(ps.drop_last() =~= seq![ps[0]]);
        assert(ps.drop_first() =~= seq![ps[1]]);
    } else {
        lemma_join_first(ps.drop_last(), sep);
        let d = ps.drop_first().drop_last();
        assert(ps.drop_last().drop_first() =~= d);
        assert(ps.drop_last()[0] == ps[0]);
        assert(ps.drop_first().last() == ps.last());
        assert(join(ps.drop_first(), sep) == join(d, sep) + sep + ps.last());
        assert(join(ps, sep) == join(ps.drop_last(), sep) + sep + ps.last());
        assert(join(ps.drop_last(), sep) == ps[0] + sep + join(d, sep));
        assert(ps[0] + sep + join(d, sep) + sep + ps.last() =~= ps[0] + sep + (join(d, sep) + sep + ps.last()));
    }
}

proof fn lemma_words_from_join(ps: Seq<Seq<char>>, acc: Seq<Seq<char>>)
    requires
        ps.len() > 0,
        proper_words(ps),
    ensures
        words_from(join(ps, seq![' ']), Seq::empty(), acc) == acc + ps,
    decreases ps.len(),
{
    let sp = seq![' '];
    if ps.len() == 1 {
        lemma_words_from_word(ps[0], Seq::empty(), Seq::empty(), acc);
        assert(ps[0] + Seq::<char>::empty() =~= ps[0]);
        assert(Seq::<char>::empty() + ps[0] =~= ps[0]);
        assert(acc.push(ps[0]) =~= acc + ps);
    } else {
        lemma_join_first(ps, sp);
        let rest = join(ps.drop_first(), sp);
        assert(ps[0] + sp + rest =~= ps[0] + (sp + rest));
        lemma_words_from_word(ps[0], sp + rest, Seq::empty(), acc);
        assert(Seq::<char>::empty() + ps[0] =~= ps[0]);
        assert((sp + rest)[0] == ' ');
        assert((sp + rest).drop_first() =~= rest);
        assert(words_from(sp + rest, ps[0], acc) == words_from(rest, Seq::empty(), acc.push(ps[0])));
        assert(proper_words(ps.drop_first()));
        lemma_words_from_join(ps.drop_first(), acc.push(ps[0]));
        assert(acc.push(ps[0]) + ps.drop_first() =~= acc + ps);
    }
}

/// Splitting words joined by single spaces gives the words back.
pub proof fn lemma_words_of_join(ps: Seq<Seq<char>>)
    requires
        proper_words(ps),
    ensures
        words(join(ps, seq![' '])) == ps,
{
    if ps.len() == 0 {
        assert(words(Seq::<char>::empty()) =~= Seq::<Seq<char>>::empty());
    } else {
        lemma_words_from_join(ps, Seq::empty());
        assert(Seq::<Seq<char>>::empty() + ps =~= ps);
    }
}

/// Words joined by single spaces have no whitespace at either end.
pub proof fn lemma_join_ends(ps: Seq<Seq<char>>)
    requires
        proper_words(ps),
    ensures
        join(ps, seq![' ']).len() == 0 || (!is_white_space(join(ps, seq![' '])[0])
            && !is_white_space(join(ps, seq![' ']).last())),
    decreases ps.len(),
{
    if ps.len() >= 2 {
        lemma_join_first(ps, seq![' ']);
        assert(ps[0].len() > 0 && no_white_space(ps[0]));
        let j = join(ps, seq![' ']);
        assert(j[0] == ps[0][0]);
        assert(j.last() == ps.last().last());
        assert(ps.last() == ps[ps.len() - 1]);
    } else if ps.len() == 1 {
        assert(ps[0].len() > 0 && no_white_space(ps[0]));
    }
}

// ---------------------------------------------------------------------------
// Executable operations
// ---------------------------------------------------------------------------

/// The characters of `s`.
pub fn chars_of(s: &str) -> (r: Vec<char>)
    ensures
        r@ == s@,
{
    let mut v: Vec<char> = Vec::new();
    for c in it: s.chars()
        invariant
            v@ == it.seq().take(it.index() as int),
    {
        v.push(c);
    }
    v
}

/// A `String` holding exactly the characters of `v`.
pub fn string_of(v: &Vec<char>) -> (r: String)
    ensures
        r@ == v@,
{
    let mut s = String::new();
    let mut i: usize = 0;
    while i < v.len()
        invariant
            i <= v.len(),
            s@ == v@.take(i as int),
        decreases v.len() - i,
    {
        s.push(v[i]);
        i += 1;
        assert(s@ =~= v@.take(i as int));
    }
    assert(v@.take(v.len() as int) =~= v@);
    s
}

/// An owned copy of `s`.
pub fn owned(s: &str) -> (r: String)
    ensures
        r@ == s@,
{
    s.to_owned()
}

/// The characters `v[i..j]`.
pub fn sub_chars(v: &Vec<char>, i: usize, j: usize) -> (r: Vec<char>)
    requires
        i <= j <= v.len(),
    ensures
        r@ == v@.subrange(i as int, j as int),
{
    let mut out: Vec<char> = Vec::new();
    let mut k = i;
    while k < j
        invariant
            i <= k <= j <= v.len(),
            out@ == v@.subrange(i as int, k as int),
        decreases j - k,
    {
        out.push(v[k]);
        k += 1;
        assert(out@ =~= v@.subrange(i as int, k as int));
    }
    out
}

/// `a` followed by `b`.
pub fn concat(a: &Vec<char>, b: &Vec<char>) -> (r: Vec<char>)
    ensures
        r@ == a@ + b@,
{
    let mut out = a.clone();
    assert(out@ =~= a@);
    let mut k: usize = 0;
    while k < b.len()
        invariant
            k <= b.len(),
            out@ == a@ + b@.take(k as int),
        decreases b.len() - k,
    {
        out.push(b[k]);
        k += 1;
        assert(out@ =~= a@ + b@.take(k as int));
    }
    assert(b@.take(b.len() as int) =~= b@);
    out
}

/// Whether `c` is Unicode whitespace (`char::is_whitespace`).
pub fn is_whitespace(c: char) -> (r: bool)
    ensures
        r == is_white_space(c),
{
    ('\u{9}' <= c && c <= '\u{d}') || c == ' ' || c == '\u{85}' || c == '\u{a0}' || c
        == '\u{1680}' || ('\u{2000}' <= c && c <= '\u{200a}') || c == '\u{2028}' || c
        == '\u{2029}' || c == '\u{202f}' || c == '\u{205f}' || c == '\u{3000}'
}

/// `v` without leading and trailing whitespace.
pub fn trim_chars(v: &Vec<char>) -> (r: Vec<char>)
    ensures
        r@ == trim(v@),
{
    let mut i: usize = 0;
    while i < v.len() && is_whitespace(v[i])
        invariant
            i <= v.len(),
            forall|k: int| 0 <= k < i ==> is_white_space(#[trigger] v@[k]),
        decreases v.len() - i,
    {
        i += 1;
    }
    proof {
        lemma_trim_start_skip(v@, i as int);
        if i < v.len() {
            assert(!is_white_space(v@.skip(i as int)[0]));
        }
        assert(trim_start(v@.skip(i as int)) == v@.skip(i as int));
    }
    let ghost t = v@.skip(i as int);
    let mut j: usize = v.len();
    while j > i && is_whitespace(v[j - 1])
        invariant
            i <= j <= v.len(),
            t == v@.skip(i as int),
            forall|k: int| (j - i) <= k < t.len() ==> is_white_space(#[trigger] t[k]),
        decreases j,
    {
        j -= 1;
    }
    proof {
        lemma_trim_end_take(t, (j - i) as int);
        let u = t.take((j - i) as int);
        if u.len() > 0 {
            assert(!is_white_space(u.last()));
        }
        assert(trim_end(u) == u);
        assert(u =~= v@.subrange(i as int, j as int));
    }
    sub_chars(v, i, j)
}

/// `s` without leading and trailing whitespace (`str::trim`).
pub fn trim_str(s: &str) -> (r: String)
    ensures
        r@ == trim(s@),
{
    let v = chars_of(s);
    let t = trim_chars(&v);
    string_of(&t)
}

/// `v` without every trailing `c`.
pub fn trim_end_matches(v: &Vec<char>, c: char) -> (r: Vec<char>)
    ensures
        r@ == trim_end_char(v@, c),
{
    let mut j: usize = v.len();
    assert(v@.take(j as int) =~= v@);
    while j > 0 && v[j - 1] == c
        invariant
            j <= v.len(),
            trim_end_char(v@, c) == trim_end_char(v@.take(j as int), c),
        decreases j,
    {
        assert(v@.take(j as int).drop_last() =~= v@.take(j - 1));
        j -= 1;
    }
    sub_chars(v, 0, j)
}

/// `v` without every leading `c`.
pub fn trim_start_matches(v: &Vec<char>, c: char) -> (r: Vec<char>)
    ensures
        r@ == trim_start_char(v@, c),
{
    let mut i: usize = 0;
    assert(v@.skip(0) =~= v@);
    while i < v.len() && v[i] == c
        invariant
            i <= v.len(),
            trim_start_char(v@, c) == trim_start_char(v@.skip(i as int), c),
        decreases v.len() - i,
    {
        assert(v@.skip(i as int).drop_first() =~= v@.skip(i + 1));
        i += 1;
    }
    proof {
        assert(v@.skip(i as int) =~= v@.subrange(i as int, v.len() as int));
    }
    sub_chars(v, i, v.len())
}

/// Whether `v` ends with `c`.
pub fn ends_with(v: &Vec<char>, c: char) -> (r: bool)
    ensures
        r == ends_with_char(v@, c),
{
    v.len() > 0 && v[v.len() - 1] == c
}

/// Whether `v` starts with `c`.
pub fn starts_with(v: &Vec<char>, c: char) -> (r: bool)
    ensures
        r == starts_with_char(v@, c),
{
    v.len() > 0 && v[0] == c
}

/// Whether `v` ends with `suffix`.
pub fn ends_with_seq(v: &Vec<char>, suffix: &Vec<char>) -> (r: bool)
    ensures
        r == has_suffix(v@, suffix@),
{
    if suffix.len() > v.len() {
        return false;
    }
    let off = v.len() - suffix.len();
    let mut k: usize = 0;
    while k < suffix.len()
        invariant
            off == v.len() - suffix.len(),
            k <= suffix.len(),
            forall|m: int| 0 <= m < k ==> v@[off + m] == suffix@[m],
        decreases suffix.len() - k,
    {
        if v[off + k] != suffix[k] {
            assert(v@.skip(off as int)[k as int] != suffix@[k as int]);
            return false;
        }
        k += 1;
    }
    assert(v@.skip(off as int) =~= suffix@);
    true
}

/// Whether `v` starts with `prefix`.
pub fn starts_with_seq(v: &Vec<char>, prefix: &Vec<char>) -> (r: bool)
    ensures
        r == has_prefix(v@, prefix@),
{
    if prefix.len() > v.len() {
        return false;
    }
    let mut k: usize = 0;
    while k < prefix.len()
        invariant
            prefix.len() <= v.len(),
            k <= prefix.len(),
            forall|m: int| 0 <= m < k ==> v@[m] == prefix@[m],
        decreases prefix.len() - k,
    {
        if v[k] != prefix[k] {
            assert(v@.take(prefix.len() as int)[k as int] != prefix@[k as int]);
            return false;
        }
        k += 1;
    }
    assert(v@.take(prefix.len() as int) =~= prefix@);
    true
}

/// Exact equality of two character sequences.
pub fn chars_eq(a: &Vec<char>, b: &Vec<char>) -> (r: bool)
    ensures
        r == (a@ == b@),
{
    if a.len() != b.len() {
        return false;
    }
    let mut k: usize = 0;
    while k < a.len()
        invariant
            a.len() == b.len(),
            k <= a.len(),
            forall|m: int| 0 <= m < k ==> a@[m] == b@[m],
        decreases a.len() - k,
    {
        if a[k] != b[k] {
            return false;
        }
        k += 1;
    }
    assert(a@ =~= b@);
    true
}

/// Exact equality of two strings.
pub fn str_eq(a: &str, b: &str) -> (r: bool)
    ensures
        r == (a@ == b@),
{
    let va = chars_of(a);
    let vb = chars_of(b);
    chars_eq(&va, &vb)
}

/// Whether the characters of `v` spell `s`.
pub fn chars_are(v: &Vec<char>, s: &str) -> (r: bool)
    ensures
        r == (v@ == s@),
{
    let vs = chars_of(s);
    chars_eq(v, &vs)
}

/// ASCII lowercase of one character.
pub fn to_ascii_lower(c: char) -> (r: char)
    ensures
        r == ascii_lower(c),
{
    if 'A' <= c && c <= 'Z' {
        let code: u32 = (c as u32) + 32;
        proof {
            assert(65 <= code - 32 <= 90);
        }
        char_from_ascii_code(code)
    } else {
        c
    }
}

fn char_from_ascii_code(code: u32) -> (r: char)
    requires
        97 <= code <= 122,
    ensures
        r == code as char,
{
    let b: u8 = code as u8;
    b as char
}

/// ASCII-case-insensitive equality (`str::eq_ignore_ascii_case`).
pub fn chars_eq_ignore_ascii_case(a: &Vec<char>, b: &Vec<char>) -> (r: bool)
    ensures
        r == eq_ignore_ascii_case(a@, b@),
{
    if a.len() != b.len() {
        return false;
    }
    let mut k: usize = 0;
    while k < a.len()
        invariant
            a.len() == b.len(),
            k <= a.len(),
            forall|m: int| 0 <= m < k ==> ascii_lower(a@[m]) == ascii_lower(b@[m]),
        decreases a.len() - k,
    {
        if to_ascii_lower(a[k]) != to_ascii_lower(b[k]) {
            return false;
        }
        k += 1;
    }
    true
}

/// `str::to_lowercase`: the Unicode lowercase of `s`. The result is named
/// (`lowercase`); of the mapping the contract states only that ASCII text is
/// mapped character by character, `A`..`Z` to `a`..`z` and the rest unchanged.
/// Non-ASCII characters are left unstated.
#[verifier::external_body]
pub(crate) fn to_lowercase(s: &str) -> (r: String)
    ensures
        r@ == lowercase(s@),
        all_ascii(s@) ==> r@ == ascii_lowercase(s@),
{
    s.to_lowercase()
}

/// `str::to_uppercase`: the Unicode uppercase of `s`. The result is named
/// (`uppercase`); of the mapping the contract states only that ASCII text is
/// mapped character by character, `a`..`z` to `A`..`Z` and the rest unchanged.
/// Non-ASCII characters are left unstated.
#[verifier::external_body]
pub(crate) fn to_uppercase(s: &str) -> (r: String)
    ensures
        r@ == uppercase(s@),
        all_ascii(s@) ==> r@ == ascii_uppercase(s@),
{
    s.to_uppercase()
}

/// Unicode lowercase of a character sequence.
pub fn lowercase_chars(v: &Vec<char>) -> (r: Vec<char>)
    ensures
        r@ == str_lower(v@),
{
    let s = string_of(v);
    let l = to_lowercase(s.as_str());
    chars_of(l.as_str())
}

/// `v` with a trailing dot added unless it already has one.
pub fn push_trailing_dot(v: &Vec<char>) -> (r: Vec<char>)
    ensures
        r@ == with_trailing_dot(v@),
{
    let mut out = v.clone();
    assert(out@ =~= v@);
    if !ends_with(v, '.') {
        out.push('.');
    }
    out
}

/// The whitespace-separated words of `v` (`str::split_whitespace`).
pub fn split_whitespace(v: &Vec<char>) -> (r: Vec<Vec<char>>)
    ensures
        r@.map_values(|w: Vec<char>| w@) == words(v@),
{
    let mut acc: Vec<Vec<char>> = Vec::new();
    let mut cur: Vec<char> = Vec::new();
    let mut i: usize = 0;
    assert(v@.skip(0) =~= v@);
    assert(acc@.map_values(|w: Vec<char>| w@) =~= Seq::<Seq<char>>::empty());
    assert(cur@ =~= Seq::<char>::empty());
    while i < v.len()
        invariant
            i <= v.len(),
            words(v@) == words_from(v@.skip(i as int), cur@, acc@.map_values(|w: Vec<char>| w@)),
        decreases v.len() - i,
    {
        let ghost rest = v@.skip(i as int);
        let ghost cur0 = cur@;
        let ghost acc0 = acc@.map_values(|w: Vec<char>| w@);
        assert(rest.drop_first() =~= v@.skip(i + 1));
        assert(rest[0] == v@[i as int]);
        let c = v[i];
        if is_whitespace(c) {
            if cur.len() > 0 {
                let w = cur;
                acc.push(w);
                assert(acc@.map_values(|w: Vec<char>| w@) =~= acc0.push(cur0));
            }
            cur = Vec::new();
            assert(cur@ =~= Seq::<char>::empty());
            assert(words_from(rest, cur0, acc0) == words_from(rest.drop_first(), Seq::empty(),
                if cur0.len() > 0 { acc0.push(cur0) } else { acc0 }));
        } else {
            cur.push(c);
            assert(words_from(rest, cur0, acc0) == words_from(rest.drop_first(), cur0.push(c), acc0));
        }
        i += 1;
    }
    let ghost acc0 = acc@.map_values(|w: Vec<char>| w@);
    assert(v@.skip(i as int) =~= Seq::<char>::empty());
    assert(words_from(Seq::<char>::empty(), cur@, acc0) == if cur@.len() > 0 { acc0.push(cur@) } else { acc0 });
    if cur.len() > 0 {
        let ghost c0 = cur@;
        acc.push(cur);
        assert(acc@.map_values(|w: Vec<char>| w@) =~= acc0.push(c0));
    }
    acc
}

/// `parts` joined with `sep` (`[String]::join`).
pub fn join_chars(parts: &Vec<Vec<char>>, sep: &Vec<char>) -> (r: Vec<char>)
    ensures
        r@ == join(parts@.map_values(|w: Vec<char>| w@), sep@),
{
    let ghost ps = parts@.map_values(|w: Vec<char>| w@);
    let mut out: Vec<char> = Vec::new();
    let mut i: usize = 0;
    while i < parts.len()
        invariant
            i <= parts.len(),
            ps == parts@.map_values(|w: Vec<char>| w@),
            out@ == join(ps.take(i as int), sep@),
        decreases parts.len() - i,
    {
        proof {
            lemma_join_push(ps.take(i as int), sep@, ps[i as int]);
            assert(ps.take(i as int).push(ps[i as int]) =~= ps.take(i + 1));
        }
        if i == 0 {
            out = parts[0].clone();
            assert(out@ =~= parts@[0]@);
        } else {
            out = concat(&out, sep);
            out = concat(&out, &parts[i]);
        }
        i += 1;
    }
    assert(ps.take(parts.len() as int) =~= ps);
    out
}

/// Every non-overlapping occurrence of `pat` in `s` replaced by `rep`.
pub fn replace_chars(s: &Vec<char>, pat: &Vec<char>, rep: &Vec<char>) -> (r: Vec<char>)
    requires
        pat.len() > 0,
    ensures
        r@ == replace_all(s@, pat@, rep@),
{
    let mut out: Vec<char> = Vec::new();
    let mut i: usize = 0;
    assert(s@.skip(0) =~= s@);
    assert(out@ + s@ =~= s@);
    while i < s.len()
        invariant
            i <= s.len(),
            pat.len() > 0,
            replace_all(s@, pat@, rep@) == out@ + replace_all(s@.skip(i as int), pat@, rep@),
        decreases s.len() - i,
    {
        let ghost rest = s@.skip(i as int);
        if s.len() - i < pat.len() {
            proof {
                assert(replace_all(rest, pat@, rep@) == rest);
                assert(rest =~= s@.subrange(i as int, s.len() as int));
            }
            let tail = sub_chars(s, i, s.len());
            let o = concat(&out, &tail);
            assert(o@ =~= out@ + tail@);
            return o;
        }
        let tail = sub_chars(s, i, s.len());
        assert(tail@ =~= rest);
        if starts_with_seq(&tail, pat) {
            out = concat(&out, rep);
            proof {
                assert(rest.skip(pat.len() as int) =~= s@.skip(i + pat.len()));
                assert(rep@ + replace_all(s@.skip(i + pat.len()), pat@, rep@) == replace_all(rest, pat@, rep@));
            }
            i = i + pat.len();
            assert(replace_all(s@, pat@, rep@) =~= out@ + replace_all(s@.skip(i as int), pat@, rep@));
        } else {
            let ghost before = out@;
            out.push(s[i]);
            proof {
                assert(rest.drop_first() =~= s@.skip(i + 1));
                assert(seq![rest[0]] + replace_all(rest.drop_first(), pat@, rep@) == replace_all(rest, pat@, rep@));
                assert(out@ =~= before + seq![rest[0]]);
            }
            i = i + 1;
            assert(replace_all(s@, pat@, rep@) =~= out@ + replace_all(s@.skip(i as int), pat@, rep@));
        }
    }
    assert(s@.skip(i as int) =~= Seq::<char>::empty());
    assert(out@ + Seq::<char>::empty() =~= out@);
    out
}

fn digit_of(d: u64) -> (r: char)
    requires
        d < 10,
    ensures
        r == digit_char(d as nat),
{
    if d == 0 { '0' }
    else if d == 1 { '1' }
    else if d == 2 { '2' }
    else if d == 3 { '3' }
    else if d == 4 { '4' }
    else if d == 5 { '5' }
    else if d == 6 { '6' }
    else if d == 7 { '7' }
    else if d == 8 { '8' }
    else { '9' }
}

fn push_digits(n: u64, out: &mut Vec<char>)
    ensures
        final(out)@ == old(out)@ + digits(n as nat),
    decreases n,
{
    if n >= 10 {
        push_digits(n / 10, out);
    }
    out.push(digit_of(n % 10));
    proof {
        if n < 10 {
            assert(digits(n as nat) == seq![digit_char(n as nat)]);
        }
    }
}

/// Decimal rendering of a `u64`.
pub fn u64_to_chars(n: u64) -> (r: Vec<char>)
    ensures
        r@ == digits(n as nat),
        r@ == decimal(n as int),
{
    let mut out: Vec<char> = Vec::new();
    push_digits(n, &mut out);
    assert(out@ =~= digits(n as nat));
    out
}

/// Decimal rendering of an `i64` (`i64::to_string`).
pub fn i64_to_chars(n: i64) -> (r: Vec<char>)
    ensures
        r@ == decimal(n as int),
{
    let mut out: Vec<char> = Vec::new();
    if n < 0 {
        out.push('-');
        let m: u64 = if n == i64::MIN {
            9223372036854775808u64
        } else {
            (-n) as u64
        };
        push_digits(m, &mut out);
        assert(out@ =~= seq!['-'] + digits((-(n as int)) as nat));
    } else {
        push_digits(n as u64, &mut out);
        assert(out@ =~= digits(n as nat));
    }
    out
}

/// Decimal rendering of an `i64` as a `String`.
pub fn i64_to_string(n: i64) -> (r: String)
    ensures
        r@ == decimal(n as int),
{
    let v = i64_to_chars(n);
    string_of(&v)
}

/// Decimal rendering of a `u64` as a `String`.
pub fn u64_to_string(n: u64) -> (r: String)
    ensures
        r@ == decimal(n as int),
{
    let v = u64_to_chars(n);
    string_of(&v)
}

/// The view of a list of strings.
pub open spec fn strings_view(v: Seq<String>) -> Seq<Seq<char>> {
    v.map_values(|s: String| s@)
}

/// Whether `s` is among `v`.
pub fn contains_string(v: &Vec<String>, s: &String) -> (r: bool)
    ensures
        r == strings_view(v@).contains(s@),
{
    let mut k: usize = 0;
    while k < v.len()
        invariant
            k <= v.len(),
            forall|m: int| 0 <= m < k ==> v@[m]@ != s@,
        decreases v.len() - k,
    {
        if v[k] == *s {
            assert(strings_view(v@)[k as int] == s@);
            return true;
        }
        k += 1;
    }
    assert forall|m: int| 0 <= m < strings_view(v@).len() implies strings_view(v@)[m] != s@ by {
        assert(v@[m]@ != s@);
    }
    false
}

} // verus!
