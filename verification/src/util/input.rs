//! Confirmation answers.
use crate::text::{ascii_lower, ascii_lowercase, chars_of, to_ascii_lower, trim, trim_chars};
use vstd::prelude::*;

verus! {

/// Whether a confirmation answer agrees: `y` or `yes`, trimmed, in any ASCII case.
pub open spec fn agrees(answer: Seq<char>) -> bool {
    let a = ascii_lowercase(trim(answer));
    a == "y"@ || a == "yes"@
}

/// `agrees` computed.
pub fn is_yes(answer: &str) -> (r: bool)
    ensures
        r == agrees(answer@),
{
    let t = trim_chars(&chars_of(answer));
    let mut low: Vec<char> = Vec::new();
    let mut i: usize = 0;
    while i < t.len()
        invariant
            i <= t.len(),
            low@ == ascii_lowercase(t@).take(i as int),
        decreases t.len() - i,
    {
        low.push(to_ascii_lower(t[i]));
        assert(ascii_lowercase(t@).take(i + 1) =~= ascii_lowercase(t@).take(i as int).push(ascii_lower(t@[i as int])));
        i += 1;
    }
    assert(ascii_lowercase(t@).take(t.len() as int) =~= ascii_lowercase(t@));
    crate::text::chars_are(&low, "y") || crate::text::chars_are(&low, "yes")
}

} // verus!
