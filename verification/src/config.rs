//! Profiles of the configuration file (`~/.config/webshield/config.toml`).
//!
//! A profile stores the API base URL and (optionally) a personal `wsk_…` token.
//! Which profile is active: an explicit name (flag or environment) wins over the
//! file's `default_profile`, which wins over the name `default`.
use crate::text::owned;
use vstd::prelude::*;

verus! {

/// The production API base URL.
pub const DEFAULT_API_URL: &'static str = "https://webshield.pro";

/// The value that `name` has in a table of named entries: the first entry with
/// that name.
pub open spec fn named<P>(t: Seq<(String, P)>, name: Seq<char>) -> Option<P>
    decreases t.len(),
{
    if t.len() == 0 {
        None
    } else if t[0].0@ == name {
        Some(t[0].1)
    } else {
        named(t.drop_first(), name)
    }
}

/// Where `name` first stands in the table.
pub fn find_named<P>(t: &Vec<(String, P)>, name: &str) -> (r: Option<usize>)
    ensures
        match r {
            Some(i) => i < t@.len() && t@[i as int].0@ == name@ && named(t@, name@) == Some(
                t@[i as int].1,
            ) && forall|j: int| 0 <= j < i ==> (#[trigger] t@[j]).0@ != name@,
            None => named(t@, name@) is None,
        },
{
    let mut i: usize = 0;
    assert(t@.skip(0) =~= t@);
    while i < t.len()
        invariant
            i <= t@.len(),
            named(t@, name@) == named(t@.skip(i as int), name@),
            forall|j: int| 0 <= j < i ==> (#[trigger] t@[j]).0@ != name@,
        decreases t.len() - i,
    {
        if crate::text::str_eq(t[i].0.as_str(), name) {
            return Some(i);
        }
        assert(t@.skip(i as int).drop_first() =~= t@.skip(i + 1));
        i += 1;
    }
    None
}

pub proof fn lemma_named_update<P>(t: Seq<(String, P)>, i: int, e: (String, P), m: Seq<char>)
    requires
        0 <= i < t.len(),
        named(t, t[i].0@) == Some(t[i].1),
        forall|j: int| 0 <= j < i ==> (#[trigger] t[j]).0@ != t[i].0@,
        e.0@ == t[i].0@,
    ensures
        named(t.update(i, e), m) == if m == e.0@ {
            Some(e.1)
        } else {
            named(t, m)
        },
    decreases i,
{
    if i == 0 {
        assert(t.update(i, e).drop_first() =~= t.drop_first());
        assert(t.update(i, e)[0] == e);
    } else {
        assert(t.update(i, e)[0] == t[0]);
        assert(t.update(i, e).drop_first() =~= t.drop_first().update(i - 1, e));
        assert forall|j: int| 0 <= j < i - 1 implies (#[trigger] t.drop_first()[j]).0@ != t.drop_first()[i - 1].0@ by {
            assert(t[j + 1].0@ != t[i].0@);
        }
        assert(t[0].0@ != t[i].0@);
        lemma_named_update(t.drop_first(), i - 1, e, m);
    }
}

pub proof fn lemma_named_push<P>(t: Seq<(String, P)>, e: (String, P), m: Seq<char>)
    requires
        named(t, e.0@) is None,
    ensures
        named(t.push(e), m) == if m == e.0@ {
            Some(e.1)
        } else {
            named(t, m)
        },
    decreases t.len(),
{
    if t.len() > 0 {
        assert(t.push(e)[0] == t[0]);
        assert(t.push(e).drop_first() =~= t.drop_first().push(e));
        lemma_named_push(t.drop_first(), e, m);
    } else {
        assert(t.push(e)[0] == e);
        assert(t.push(e).drop_first() =~= Seq::<(String, P)>::empty());
        assert(named(Seq::<(String, P)>::empty(), m) is None);
    }
}

/// No name occurs twice in the table (as in the file's map of profiles).
pub open spec fn names_distinct<P>(t: Seq<(String, P)>) -> bool {
    forall|i: int, j: int| 0 <= i < j < t.len() ==> (#[trigger] t[i]).0@ != (#[trigger] t[j]).0@
}

pub proof fn lemma_named_none<P>(t: Seq<(String, P)>, name: Seq<char>)
    requires
        named(t, name) is None,
    ensures
        forall|i: int| 0 <= i < t.len() ==> (#[trigger] t[i]).0@ != name,
    decreases t.len(),
{
    if t.len() > 0 {
        lemma_named_none(t.drop_first(), name);
        assert forall|i: int| 0 <= i < t.len() implies (#[trigger] t[i]).0@ != name by {
            if i > 0 {
                assert(t.drop_first()[i - 1] == t[i]);
            }
        }
    }
}

/// Gives `name` the value `p` in the table, leaving every other name as it was;
/// a table without repeated names stays so.
pub fn put_named<P>(t: &mut Vec<(String, P)>, name: String, p: P)
    ensures
        names_distinct(old(t)@) ==> names_distinct(final(t)@),
        forall|m: Seq<char>|
            #[trigger] named(final(t)@, m) == if m == name@ {
                Some(p)
            } else {
                named(old(t)@, m)
            },
{
    match find_named(t, name.as_str()) {
        Some(i) => {
            let ghost before = t@;
            let ghost nv = name@;
            t.set(i, (name, p));
            proof {
                assert forall|m: Seq<char>| #[trigger] named(t@, m) == if m == nv {
                    Some(p)
                } else {
                    named(before, m)
                } by {
                    lemma_named_update(before, i as int, t@[i as int], m);
                }
                if names_distinct(before) {
                    assert forall|a: int, b: int| 0 <= a < b < t@.len() implies (#[trigger] t@[a]).0@
                        != (#[trigger] t@[b]).0@ by {
                        assert(t@[i as int].0@ == before[i as int].0@);
                        if a != i && b != i {
                            assert(before[a].0@ != before[b].0@);
                        } else if a == i {
                            assert(before[i as int].0@ != before[b].0@);
                        } else {
                            assert(before[a].0@ != before[i as int].0@);
                        }
                    }
                }
            }
        },
        None => {
            let ghost before = t@;
            let ghost nv = name@;
            t.push((name, p));
            proof {
                assert forall|m: Seq<char>| #[trigger] named(t@, m) == if m == nv {
                    Some(p)
                } else {
                    named(before, m)
                } by {
                    lemma_named_push(before, t@.last(), m);
                    assert(before.push(t@.last()) =~= t@);
                }
                lemma_named_none(before, nv);
                if names_distinct(before) {
                    assert forall|a: int, b: int| 0 <= a < b < t@.len() implies (#[trigger] t@[a]).0@
                        != (#[trigger] t@[b]).0@ by {
                        if b == before.len() {
                            assert(before[a].0@ != nv);
                        } else {
                            assert(before[a].0@ != before[b].0@);
                        }
                    }
                }
            }
        },
    }
}

/// The configuration file (first format): profiles by name and the default one.
#[derive(Debug)]
pub struct Config {
    /// Profile used when no name is given.
    pub default_profile: Option<String>,
    /// Profiles by name.
    pub profiles: Vec<(String, Profile)>,
}

/// One profile: API base URL and token.
#[derive(Debug, Clone)]
pub struct Profile {
    pub api_url: String,
    pub token: Option<String>,
}

impl Default for Profile {
    fn default() -> (r: Self)
        ensures
            r.api_url@ == DEFAULT_API_URL@,
            r.token is None,
    {
        Profile { api_url: owned(DEFAULT_API_URL), token: None }
    }
}

impl Default for Config {
    fn default() -> (r: Self)
        ensures
            r.default_profile is None,
            r.profiles@.len() == 0,
            r.wf(),
    {
        Config { default_profile: None, profiles: Vec::new() }
    }
}

/// The active profile name: the override, else the configured default, else
/// `default`.
pub open spec fn active_name(override_name: Option<Seq<char>>, default_profile: Option<Seq<char>>) -> Seq<char> {
    match override_name {
        Some(n) => n,
        None => match default_profile {
            Some(d) => d,
            None => "default"@,
        },
    }
}

/// The view of an optional string.
pub open spec fn opt_view(o: Option<String>) -> Option<Seq<char>> {
    match o {
        Some(s) => Some(s@),
        None => None,
    }
}

/// The view of an optional string slice.
pub open spec fn opt_str_view(o: Option<&str>) -> Option<Seq<char>> {
    match o {
        Some(s) => Some(s@),
        None => None,
    }
}

impl Config {
    /// No profile name occurs twice.
    pub open spec fn wf(self) -> bool {
        names_distinct(self.profiles@)
    }

    /// Active profile name, honoring the override.
    pub fn active_profile_name(&self, override_name: Option<&str>) -> (r: String)
        ensures
            r@ == active_name(opt_str_view(override_name), opt_view(self.default_profile)),
    {
        match override_name {
            Some(n) => owned(n),
            None => match &self.default_profile {
                Some(d) => d.clone(),
                None => owned("default"),
            },
        }
    }

    /// The profile called `name`.
    pub fn profile(&self, name: &str) -> (r: Option<&Profile>)
        ensures
            match r {
                Some(p) => named(self.profiles@, name@) == Some(*p),
                None => named(self.profiles@, name@) is None,
            },
    {
        match find_named(&self.profiles, name) {
            Some(i) => Some(&self.profiles[i].1),
            None => None,
        }
    }

    /// Stores `p` as the profile called `name`; the other profiles stay as they were.
    pub fn set_profile(&mut self, name: String, p: Profile)
        ensures
            old(self).wf() ==> final(self).wf(),
            final(self).default_profile == old(self).default_profile,
            forall|m: Seq<char>|
                #[trigger] named(final(self).profiles@, m) == if m == name@ {
                    Some(p)
                } else {
                    named(old(self).profiles@, m)
                },
    {
        put_named(&mut self.profiles, name, p);
    }
}

} // verus!
