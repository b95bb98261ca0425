//! Language codes as stored in profiles and given on the command line.
use crate::text::{
    chars_are, chars_of, concat, has_prefix, str_lower, lowercase_chars, starts_with_seq, string_of,
    sub_chars, trim, trim_chars,
};
use vstd::prelude::*;

verus! {

/// A language name that is not one of the supported codes; holds the
/// normalized (trimmed, lowercased) input.
#[derive(Debug)]
pub struct UnknownLocale(pub String);

impl UnknownLocale {
    /// The text shown to the user for this error.
    pub fn message(&self) -> (r: String)
        ensures
            r@ == "unknown language `"@ + self.0@ + "` (expected en or ru)"@,
    {
        let head = chars_of("unknown language `");
        let tail = chars_of("` (expected en or ru)");
        let mid = chars_of(self.0.as_str());
        let out = concat(&concat(&head, &mid), &tail);
        string_of(&out)
    }
}

/// A supported interface language.
#[derive(Debug, Clone, Copy, PartialEq, Eq)]
pub enum LocaleCode {
    En,
    Ru,
}

/// The code named by `s`: trimmed and lowercased, then `en` or `ru`; anything else
/// is reported back in its normalized form.
pub open spec fn code_named(s: Seq<char>) -> Result<LocaleCode, Seq<char>> {
    let k = str_lower(trim(s));
    if k == "en"@ {
        Ok(LocaleCode::En)
    } else if k == "ru"@ {
        Ok(LocaleCode::Ru)
    } else {
        Err(k)
    }
}

impl LocaleCode {
    /// The code named by `s` (surrounding whitespace and case are ignored).
    pub fn from_code(s: &str) -> (r: Result<LocaleCode, UnknownLocale>)
        ensures
            match r {
                Ok(c) => code_named(s@) == Ok::<LocaleCode, Seq<char>>(c),
                Err(e) => code_named(s@) == Err::<LocaleCode, Seq<char>>(e.0@),
            },
    {
        let k = lowercase_chars(&trim_chars(&chars_of(s)));
        if chars_are(&k, "en") {
            Ok(LocaleCode::En)
        } else if chars_are(&k, "ru") {
            Ok(LocaleCode::Ru)
        } else {
            Err(UnknownLocale(string_of(&k)))
        }
    }

    /// The code implied by the system locale string (`ru_RU.UTF-8`, `en-US`, …);
    /// English when there is none or it names an unsupported language.
    pub fn from_system_locale(raw: Option<&str>) -> (r: LocaleCode)
        ensures
            r == match raw {
                Some(l) => match locale_language(l@) {
                    Some(code) => match code_named(code) {
                        Ok(c) => c,
                        Err(_) => LocaleCode::En,
                    },
                    None => LocaleCode::En,
                },
                None => LocaleCode::En,
            },
    {
        match raw {
            Some(l) => match parse_locale_str(l) {
                Some(code) => match LocaleCode::from_code(code.as_str()) {
                    Ok(c) => c,
                    Err(_) => LocaleCode::En,
                },
                None => LocaleCode::En,
            },
            None => LocaleCode::En,
        }
    }
}

/// Whether `c` separates the language part of a locale string.
pub open spec fn is_locale_separator(c: char) -> bool {
    c == '_' || c == '-' || c == '.'
}

/// Length of the leading run of `s` without locale separators.
pub open spec fn language_len(s: Seq<char>) -> nat
    decreases s.len(),
{
    if s.len() == 0 || is_locale_separator(s[0]) {
        0
    } else {
        1 + language_len(s.drop_first())
    }
}

/// The language part of a locale string: everything before the first `_`, `-`
/// or `.`; nothing for an empty string.
pub open spec fn locale_language(l: Seq<char>) -> Option<Seq<char>> {
    if l.len() == 0 {
        None
    } else {
        Some(l.take(language_len(l) as int))
    }
}

proof fn lemma_language_len(s: Seq<char>, i: int)
    requires
        0 <= i <= s.len(),
        forall|k: int| 0 <= k < i ==> !is_locale_separator(#[trigger] s[k]),
    ensures
        language_len(s) == i + language_len(s.skip(i)),
    decreases i,
{
    if i > 0 {
        lemma_language_len(s.drop_first(), i - 1);
        assert(s.drop_first().skip(i - 1) =~= s.skip(i));
    } else {
        assert(s.skip(0) =~= s);
    }
}

/// The language part of a locale string (`ru_RU.UTF-8` → `ru`).
pub fn parse_locale_str(l: &str) -> (r: Option<String>)
    ensures
        match r {
            Some(s) => locale_language(l@) == Some(s@),
            None => locale_language(l@) is None,
        },
{
    let v = chars_of(l);
    if v.len() == 0 {
        return None;
    }
    let mut i: usize = 0;
    while i < v.len() && !(v[i] == '_' || v[i] == '-' || v[i] == '.')
        invariant
            i <= v.len(),
            forall|k: int| 0 <= k < i ==> !is_locale_separator(#[trigger] v@[k]),
        decreases v.len() - i,
    {
        i += 1;
    }
    proof {
        lemma_language_len(v@, i as int);
        if i < v.len() {
            assert(is_locale_separator(v@.skip(i as int)[0]));
        }
        assert(language_len(v@.skip(i as int)) == 0);
    }
    let head = sub_chars(&v, 0, i);
    assert(head@ =~= v@.take(i as int));
    Some(string_of(&head))
}

/// The value of the first argument that starts with `--lang`: the next argument
/// for `--lang` itself, the text after `=` for `--lang=<v>`; any other argument
/// starting with `--lang` ends the search with nothing.
pub open spec fn lang_arg(args: Seq<Seq<char>>) -> Option<Seq<char>>
    decreases args.len(),
{
    if args.len() == 0 {
        None
    } else if has_prefix(args[0], "--lang"@) {
        let rest = args[0].skip("--lang"@.len() as int);
        if rest.len() == 0 {
            if args.len() > 1 {
                Some(args[1])
            } else {
                None
            }
        } else if rest[0] == '=' {
            Some(rest.skip(1))
        } else {
            None
        }
    } else {
        lang_arg(args.drop_first())
    }
}

/// The language the arguments ask for, read before the full parse (help texts
/// are built in it): the `--lang` value when it names a supported code.
pub fn locale_from_args(args: &[String]) -> (r: Option<LocaleCode>)
    ensures
        r == match lang_arg(args@.map_values(|a: String| a@)) {
            Some(v) => match code_named(v) {
                Ok(c) => Some(c),
                Err(_) => None,
            },
            None => None,
        },
{
    let ghost all = args@.map_values(|a: String| a@);
    let flag = chars_of("--lang");
    proof {
        reveal_strlit("--lang");
    }
    let mut i: usize = 0;
    assert(all.skip(0) =~= all);
    while i < args.len()
        invariant
            i <= args.len(),
            all == args@.map_values(|a: String| a@),
            flag@ == "--lang"@,
            flag@.len() == 6,
            lang_arg(all) == lang_arg(all.skip(i as int)),
        decreases args.len() - i,
    {
        let ghost rest = all.skip(i as int);
        assert(rest.drop_first() =~= all.skip(i + 1));
        assert(rest[0] == args@[i as int]@);
        let a = chars_of(args[i].as_str());
        if starts_with_seq(&a, &flag) {
            let value: Option<String> = if a.len() == 6 {
                if i + 1 < args.len() {
                    assert(rest[1] == args@[i + 1]@);
                    Some(args[i + 1].clone())
                } else {
                    None
                }
            } else if a[6] == '=' {
                let v = sub_chars(&a, 7, a.len());
                assert(v@ =~= a@.skip(6).skip(1));
                Some(string_of(&v))
            } else {
                None
            };
            return match value {
                Some(v) => match LocaleCode::from_code(v.as_str()) {
                    Ok(c) => Some(c),
                    Err(_) => None,
                },
                None => None,
            };
        }
        i += 1;
    }
    None
}

/// The interface language: the command-line flag, then `WS_LANG`, then the
/// configuration, then the system locale.
pub fn choose_locale(
    flag: Option<LocaleCode>,
    env: Option<LocaleCode>,
    configured: Option<LocaleCode>,
    system: LocaleCode,
) -> (r: LocaleCode)
    ensures
        r == match flag {
            Some(c) => c,
            None => match env {
                Some(c) => c,
                None => match configured {
                    Some(c) => c,
                    None => system,
                },
            },
        },
{
    match flag {
        Some(c) => c,
        None => match env {
            Some(c) => c,
            None => match configured {
                Some(c) => c,
                None => system,
            },
        },
    }
}

} // verus!
