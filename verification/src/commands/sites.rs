//! Static sites: incremental publishing and bucket publishing.
//!
//! Publishing is a stateless etag diff with no local manifest: the server lists
//! the etag (hex MD5) of every draft file, the program hashes the local files,
//! uploads only those that differ, deletes the vanished ones, then publishes an
//! immutable snapshot.
use crate::api::models::sites::{opt_number, opt_number_string, opt_string, opt_text, ServerFileSite, SitesListInner};
use crate::i18n::{args_view, f, fill, message, tr, Lang, M};
use crate::text::{
    chars_of, decimal, i64_to_string, str_lower, str_eq, string_of, strings_view, to_lowercase,
    trim, trim_str, u64_to_string,
};
use md5::Digest;
use vstd::prelude::*;

verus! {

// ---------------------------------------------------------------------------
// Ordering paths
// ---------------------------------------------------------------------------

/// Lexicographic order of character sequences, by code point (the order of
/// `String`).
pub open spec fn lex_lt(a: Seq<char>, b: Seq<char>) -> bool
    decreases a.len(),
{
    if b.len() == 0 {
        false
    } else if a.len() == 0 {
        true
    } else if a[0] < b[0] {
        true
    } else if a[0] == b[0] {
        lex_lt(a.drop_first(), b.drop_first())
    } else {
        false
    }
}

/// Strictly increasing in `lex_lt`.
pub open spec fn sorted_strict(s: Seq<Seq<char>>) -> bool {
    forall|i: int, j: int| 0 <= i < j < s.len() ==> lex_lt(#[trigger] s[i], #[trigger] s[j])
}

/// `s` lists the members of `set`, in increasing order, each once.
pub open spec fn lists(s: Seq<Seq<char>>, set: Set<Seq<char>>) -> bool {
    &&& sorted_strict(s)
    &&& forall|k: Seq<char>| s.contains(k) <==> #[trigger] set.contains(k)
}

pub proof fn lemma_lex_trans(a: Seq<char>, b: Seq<char>, c: Seq<char>)
    requires
        lex_lt(a, b),
        lex_lt(b, c),
    ensures
        lex_lt(a, c),
    decreases a.len(),
{
    if a.len() > 0 && b.len() > 0 && c.len() > 0 {
        if a[0] == b[0] && b[0] == c[0] {
            lemma_lex_trans(a.drop_first(), b.drop_first(), c.drop_first());
        }
    }
}

pub proof fn lemma_lex_total(a: Seq<char>, b: Seq<char>)
    requires
        a != b,
    ensures
        lex_lt(a, b) || lex_lt(b, a),
    decreases a.len(),
{
    if a.len() == 0 && b.len() == 0 {
        assert(a =~= b);
    } else if a.len() > 0 && b.len() > 0 && a[0] == b[0] {
        if a.drop_first() == b.drop_first() {
            assert(a =~= seq![a[0]] + a.drop_first());
            assert(b =~= seq![b[0]] + b.drop_first());
        }
        lemma_lex_total(a.drop_first(), b.drop_first());
    } else if a.len() > 0 && b.len() > 0 {
    }
}

/// Whether `a` comes before `b`.
pub fn lex_less(a: &Vec<char>, b: &Vec<char>) -> (r: bool)
    ensures
        r == lex_lt(a@, b@),
{
    let mut i: usize = 0;
    assert(a@.skip(0) =~= a@ && b@.skip(0) =~= b@);
    while i < a.len() && i < b.len()
        invariant
            i <= a.len(),
            i <= b.len(),
            lex_lt(a@, b@) == lex_lt(a@.skip(i as int), b@.skip(i as int)),
        decreases a.len() - i,
    {
        let x = a[i];
        let y = b[i];
        proof {
            assert(a@.skip(i as int)[0] == x);
            assert(b@.skip(i as int)[0] == y);
        }
        if x < y {
            return true;
        }
        if x != y {
            return false;
        }
        proof {
            assert(a@.skip(i as int).drop_first() =~= a@.skip(i + 1));
            assert(b@.skip(i as int).drop_first() =~= b@.skip(i + 1));
        }
        i += 1;
    }
    i < b.len()
}

/// Inserts `x` into the sorted list `v` at its place.
pub fn insert_sorted(v: &mut Vec<String>, x: String)
    requires
        sorted_strict(strings_view(old(v)@)),
        !strings_view(old(v)@).contains(x@),
    ensures
        sorted_strict(strings_view(final(v)@)),
        final(v)@.len() == old(v)@.len() + 1,
        forall|k: Seq<char>|
            #[trigger] strings_view(final(v)@).contains(k) <==> (strings_view(old(v)@).contains(k)
                || k == x@),
{
    let ghost old_v = strings_view(v@);
    let xc = chars_of(x.as_str());
    let mut p: usize = 0;
    while p < v.len()
        invariant
            p <= v.len(),
            strings_view(v@) == old_v,
            xc@ == x@,
            forall|i: int| 0 <= i < p ==> lex_lt(#[trigger] old_v[i], x@),
        ensures
            p <= v.len(),
            strings_view(v@) == old_v,
            forall|i: int| 0 <= i < p ==> lex_lt(#[trigger] old_v[i], x@),
            p < v.len() ==> !lex_lt(old_v[p as int], x@),
        decreases v.len() - p,
    {
        let c = chars_of(v[p].as_str());
        if !lex_less(&c, &xc) {
            assert(!lex_lt(old_v[p as int], x@));
            break;
        }
        p += 1;
    }
    proof {
        if p < old_v.len() {
            assert(old_v[p as int] != x@);
            lemma_lex_total(old_v[p as int], x@);
        }
    }
    v.insert(p, x);
    let ghost nv = strings_view(v@);
    proof {
        assert(nv =~= old_v.insert(p as int, x@));
        assert forall|i: int, j: int| 0 <= i < j < nv.len() implies lex_lt(#[trigger] nv[i], #[trigger] nv[j]) by {
            if j < p {
            } else if j == p {
            } else if i < p {
                // old_v[i] < x < old_v[p] <= old_v[j - 1]
                assert(lex_lt(old_v[i], x@));
                if j - 1 > p {
                    lemma_lex_trans(x@, old_v[p as int], old_v[j - 1]);
                }
                lemma_lex_trans(old_v[i], x@, old_v[j - 1]);
            } else if i == p {
                if j - 1 > p {
                    lemma_lex_trans(x@, old_v[p as int], old_v[j - 1]);
                }
            } else {
                assert(lex_lt(old_v[i - 1], old_v[j - 1]));
            }
        }
        assert forall|k: Seq<char>| #[trigger] nv.contains(k) <==> (old_v.contains(k) || k == x@) by {
            if nv.contains(k) {
                let i = choose|i: int| 0 <= i < nv.len() && nv[i] == k;
                if i < p {
                    assert(old_v[i] == k);
                } else if i > p {
                    assert(old_v[i - 1] == k);
                }
            }
            if old_v.contains(k) {
                let i = choose|i: int| 0 <= i < old_v.len() && old_v[i] == k;
                if i < p {
                    assert(nv[i] == k);
                } else {
                    assert(nv[i + 1] == k);
                }
            }
            if k == x@ {
                assert(nv[p as int] == k);
            }
        }
    }
}

// ---------------------------------------------------------------------------
// Server and local state
// ---------------------------------------------------------------------------

/// A local file: its path relative to the published directory (with `/`
/// separators) and the hex MD5 of its content.
#[derive(Clone, Debug)]
pub struct LocalFile {
    pub path: String,
    pub etag: String,
}

/// The draft on the server, path to etag (a missing etag reads as empty):
/// directories are left out, and a path listed twice keeps its last etag.
pub open spec fn server_map(files: Seq<ServerFileSite>) -> Map<Seq<char>, Seq<char>>
    decreases files.len(),
{
    if files.len() == 0 {
        Map::empty()
    } else {
        let m = server_map(files.drop_last());
        let fl = files.last();
        if fl.is_dir {
            m
        } else {
            m.insert(fl.path@, opt_text(fl.etag))
        }
    }
}

/// The local files, path to etag; a path listed twice keeps its last etag.
pub open spec fn local_map(files: Seq<LocalFile>) -> Map<Seq<char>, Seq<char>>
    decreases files.len(),
{
    if files.len() == 0 {
        Map::empty()
    } else {
        local_map(files.drop_last()).insert(files.last().path@, files.last().etag@)
    }
}

/// A table of (key, value) pairs with distinct keys that holds exactly the map `m`.
pub open spec fn represents(t: Seq<(String, String)>, m: Map<Seq<char>, Seq<char>>) -> bool {
    &&& forall|i: int, j: int| 0 <= i < j < t.len() ==> (#[trigger] t[i]).0@ != (#[trigger] t[j]).0@
    &&& forall|i: int|
        0 <= i < t.len() ==> m.contains_key((#[trigger] t[i]).0@) && m[t[i].0@] == t[i].1@
    &&& forall|k: Seq<char>|
        #[trigger] m.contains_key(k) ==> exists|i: int| 0 <= i < t.len() && t[i].0@ == k
    &&& m.dom().finite()
    &&& m.dom().len() == t.len()
}

/// Where `k` stands in the table, if it does.
fn find_key(t: &Vec<(String, String)>, k: &String) -> (r: Option<usize>)
    ensures
        match r {
            Some(j) => j < t@.len() && t@[j as int].0@ == k@,
            None => forall|i: int| 0 <= i < t@.len() ==> (#[trigger] t@[i]).0@ != k@,
        },
{
    let mut i: usize = 0;
    while i < t.len()
        invariant
            i <= t.len(),
            forall|m: int| 0 <= m < i ==> (#[trigger] t@[m]).0@ != k@,
        decreases t.len() - i,
    {
        if t[i].0 == *k {
            return Some(i);
        }
        i += 1;
    }
    None
}

/// Sets `k` to `v` in the table: replaces the value of an existing key, or
/// appends the pair.
fn table_put(t: &mut Vec<(String, String)>, k: String, v: String, Ghost(m): Ghost<Map<Seq<char>, Seq<char>>>)
    requires
        represents(old(t)@, m),
    ensures
        represents(final(t)@, m.insert(k@, v@)),
{
    let ghost m2 = m.insert(k@, v@);
    match find_key(t, &k) {
        Some(j) => {
            let ghost before = t@;
            t.set(j, (k, v));
            proof {
                assert(m2.dom() =~= m.dom());
                assert forall|i: int| 0 <= i < t@.len() implies m2.contains_key((#[trigger] t@[i]).0@)
                    && m2[t@[i].0@] == t@[i].1@ by {
                    if i != j {
                        assert(before[i].0@ != before[j as int].0@);
                    }
                }
                assert forall|key: Seq<char>| #[trigger] m2.contains_key(key) implies exists|i: int|
                    0 <= i < t@.len() && t@[i].0@ == key by {
                    let i = choose|i: int| 0 <= i < before.len() && before[i].0@ == key;
                    assert(t@[i].0@ == key);
                }
            }
        },
        None => {
            let ghost before = t@;
            let ghost kv = k@;
            t.push((k, v));
            proof {
                assert(!m.contains_key(kv)) by {
                    if m.contains_key(kv) {
                        let i = choose|i: int| 0 <= i < before.len() && before[i].0@ == kv;
                        assert(before[i].0@ != kv);
                    }
                }
                assert(m2.dom() =~= m.dom().insert(kv));
                assert forall|key: Seq<char>| #[trigger] m2.contains_key(key) implies exists|i: int|
                    0 <= i < t@.len() && t@[i].0@ == key by {
                    if key == kv {
                        assert(t@[before.len() as int].0@ == key);
                    } else {
                        let i = choose|i: int| 0 <= i < before.len() && before[i].0@ == key;
                        assert(t@[i].0@ == key);
                    }
                }
                assert forall|i: int| 0 <= i < t@.len() implies m2.contains_key((#[trigger] t@[i]).0@)
                    && m2[t@[i].0@] == t@[i].1@ by {
                    if i < before.len() {
                        assert(before[i].0@ != kv);
                    }
                }
            }
        },
    }
}

/// The draft as a table.
fn server_table(files: &[ServerFileSite]) -> (t: Vec<(String, String)>)
    ensures
        represents(t@, server_map(files@)),
{
    let mut t: Vec<(String, String)> = Vec::new();
    let mut i: usize = 0;
    proof {
        assert(files@.take(0) =~= Seq::<ServerFileSite>::empty());
    }
    while i < files.len()
        invariant
            i <= files.len(),
            represents(t@, server_map(files@.take(i as int))),
        decreases files.len() - i,
    {
        let fl = &files[i];
        proof {
            assert(files@.take(i + 1).drop_last() =~= files@.take(i as int));
        }
        if !fl.is_dir {
            let etag = match &fl.etag {
                Some(e) => e.clone(),
                None => String::new(),
            };
            table_put(&mut t, fl.path.clone(), etag, Ghost(server_map(files@.take(i as int))));
        }
        i += 1;
    }
    assert(files@.take(files.len() as int) =~= files@);
    t
}

/// The local files as a table.
fn local_table(files: &[LocalFile]) -> (t: Vec<(String, String)>)
    ensures
        represents(t@, local_map(files@)),
{
    let mut t: Vec<(String, String)> = Vec::new();
    let mut i: usize = 0;
    proof {
        assert(files@.take(0) =~= Seq::<LocalFile>::empty());
    }
    while i < files.len()
        invariant
            i <= files.len(),
            represents(t@, local_map(files@.take(i as int))),
        decreases files.len() - i,
    {
        proof {
            assert(files@.take(i + 1).drop_last() =~= files@.take(i as int));
        }
        table_put(&mut t, files[i].path.clone(), files[i].etag.clone(), Ghost(local_map(files@.take(i as int))));
        i += 1;
    }
    assert(files@.take(files.len() as int) =~= files@);
    t
}

// ---------------------------------------------------------------------------
// The publish plan
// ---------------------------------------------------------------------------

/// Local files whose content the draft lacks: absent there, or with another etag.
pub open spec fn upload_set(server: Map<Seq<char>, Seq<char>>, local: Map<Seq<char>, Seq<char>>) -> Set<Seq<char>> {
    Set::new(|k: Seq<char>| local.contains_key(k) && !(server.contains_key(k) && server[k] == local[k]))
}

/// Draft files that no longer exist locally.
pub open spec fn delete_set(server: Map<Seq<char>, Seq<char>>, local: Map<Seq<char>, Seq<char>>) -> Set<Seq<char>> {
    Set::new(|k: Seq<char>| server.contains_key(k) && !local.contains_key(k))
}

/// What a publish does, and the counts it reports.
#[derive(Clone, Debug)]
pub struct PublishPlan {
    /// Paths to upload, in order.
    pub to_upload: Vec<String>,
    /// Paths to delete, in order.
    pub to_delete: Vec<String>,
    /// Number of local files.
    pub local_count: usize,
    /// Number of draft files.
    pub server_count: usize,
    /// Local files already in the draft with the same content.
    pub unchanged: usize,
}

/// `p` is the plan for the draft `server` and the local files `local`.
pub open spec fn plan_is(p: PublishPlan, server: Seq<ServerFileSite>, local: Seq<LocalFile>) -> bool {
    let sm = server_map(server);
    let lm = local_map(local);
    &&& lists(strings_view(p.to_upload@), upload_set(sm, lm))
    &&& lists(strings_view(p.to_delete@), delete_set(sm, lm))
    &&& p.local_count == lm.dom().len()
    &&& p.server_count == sm.dom().len()
    &&& p.to_upload@.len() <= p.local_count
    &&& p.unchanged == p.local_count - p.to_upload@.len()
}

/// Diffs the draft against the local files: uploads the local files that are
/// missing from the draft or differ from it, deletes the draft files that are
/// gone locally, both sorted by path.
pub fn plan_publish(server: &[ServerFileSite], local: &[LocalFile]) -> (p: PublishPlan)
    ensures
        plan_is(p, server@, local@),
{
    let st = server_table(server);
    let lt = local_table(local);
    let ghost sm = server_map(server@);
    let ghost lm = local_map(local@);
    let ghost up = upload_set(sm, lm);
    let ghost del = delete_set(sm, lm);

    let mut to_upload: Vec<String> = Vec::new();
    let mut i: usize = 0;
    while i < lt.len()
        invariant
            i <= lt.len(),
            represents(st@, sm),
            represents(lt@, lm),
            up == upload_set(sm, lm),
            sorted_strict(strings_view(to_upload@)),
            to_upload@.len() <= i,
            forall|k: Seq<char>| #[trigger] strings_view(to_upload@).contains(k) <==> (up.contains(k)
                && exists|m: int| 0 <= m < i && (#[trigger] lt@[m]).0@ == k),
        decreases lt.len() - i,
    {
        let key = &lt[i].0;
        let changed = match find_key(&st, key) {
            Some(j) => st[j].1 != lt[i].1,
            None => true,
        };
        proof {
            assert(lm.contains_key(lt@[i as int].0@));
            assert(changed == up.contains(lt@[i as int].0@));
        }
        let ghost before = strings_view(to_upload@);
        if changed {
            proof {
                if before.contains(lt@[i as int].0@) {
                    let m = choose|m: int| 0 <= m < i && (#[trigger] lt@[m]).0@ == lt@[i as int].0@;
                    assert(lt@[m].0@ != lt@[i as int].0@);
                }
            }
            insert_sorted(&mut to_upload, key.clone());
        }
        proof {
            assert forall|k: Seq<char>| #[trigger] strings_view(to_upload@).contains(k) <==> (up.contains(k)
                && exists|m: int| 0 <= m < i + 1 && (#[trigger] lt@[m]).0@ == k) by {
                if up.contains(k) && exists|m: int| 0 <= m < i + 1 && (#[trigger] lt@[m]).0@ == k {
                    let m = choose|m: int| 0 <= m < i + 1 && (#[trigger] lt@[m]).0@ == k;
                    if m < i {
                        assert(before.contains(k));
                    }
                }
            }
        }
        i += 1;
    }
    proof {
        assert forall|k: Seq<char>| strings_view(to_upload@).contains(k) <==> #[trigger] up.contains(k) by {
            if up.contains(k) {
                assert(lm.contains_key(k));
                let m = choose|m: int| 0 <= m < lt@.len() && lt@[m].0@ == k;
                assert(lt@[m].0@ == k);
            }
        }
    }

    let mut to_delete: Vec<String> = Vec::new();
    let mut i: usize = 0;
    while i < st.len()
        invariant
            i <= st.len(),
            represents(st@, sm),
            represents(lt@, lm),
            del == delete_set(sm, lm),
            sorted_strict(strings_view(to_delete@)),
            forall|k: Seq<char>| #[trigger] strings_view(to_delete@).contains(k) <==> (del.contains(k)
                && exists|m: int| 0 <= m < i && (#[trigger] st@[m]).0@ == k),
        decreases st.len() - i,
    {
        let key = &st[i].0;
        let gone = find_key(&lt, key).is_none();
        proof {
            assert(sm.contains_key(st@[i as int].0@));
            if !gone {
                let j = choose|j: int| 0 <= j < lt@.len() && lt@[j].0@ == st@[i as int].0@;
                assert(lm.contains_key(lt@[j].0@));
            } else {
                if lm.contains_key(st@[i as int].0@) {
                    let j = choose|j: int| 0 <= j < lt@.len() && lt@[j].0@ == st@[i as int].0@;
                    assert(lt@[j].0@ != st@[i as int].0@);
                }
            }
            assert(gone == del.contains(st@[i as int].0@));
        }
        let ghost before = strings_view(to_delete@);
        if gone {
            proof {
                if before.contains(st@[i as int].0@) {
                    let m = choose|m: int| 0 <= m < i && (#[trigger] st@[m]).0@ == st@[i as int].0@;
                    assert(st@[m].0@ != st@[i as int].0@);
                }
            }
            insert_sorted(&mut to_delete, key.clone());
        }
        proof {
            assert forall|k: Seq<char>| #[trigger] strings_view(to_delete@).contains(k) <==> (del.contains(k)
                && exists|m: int| 0 <= m < i + 1 && (#[trigger] st@[m]).0@ == k) by {
                if del.contains(k) && exists|m: int| 0 <= m < i + 1 && (#[trigger] st@[m]).0@ == k {
                    let m = choose|m: int| 0 <= m < i + 1 && (#[trigger] st@[m]).0@ == k;
                    if m < i {
                        assert(before.contains(k));
                    }
                }
            }
        }
        i += 1;
    }
    proof {
        assert forall|k: Seq<char>| strings_view(to_delete@).contains(k) <==> #[trigger] del.contains(k) by {
            if del.contains(k) {
                assert(sm.contains_key(k));
                let m = choose|m: int| 0 <= m < st@.len() && st@[m].0@ == k;
                assert(st@[m].0@ == k);
            }
        }
    }
    let local_count = lt.len();
    let unchanged = local_count - to_upload.len();
    PublishPlan { to_upload, to_delete, local_count, server_count: st.len(), unchanged }
}

/// The draft after uploading the `upload` paths from `local` and deleting the
/// `delete` paths.
pub open spec fn after_publish(
    server: Map<Seq<char>, Seq<char>>,
    local: Map<Seq<char>, Seq<char>>,
    upload: Set<Seq<char>>,
    delete: Set<Seq<char>>,
) -> Map<Seq<char>, Seq<char>> {
    server.remove_keys(delete).union_prefer_right(local.restrict(upload))
}

/// Carrying out a publish plan leaves the draft holding exactly the local files,
/// each with its local content.
pub proof fn law_publish_mirrors_local(p: PublishPlan, server: Seq<ServerFileSite>, local: Seq<LocalFile>)
    requires
        plan_is(p, server, local),
    ensures
        after_publish(
            server_map(server),
            local_map(local),
            strings_view(p.to_upload@).to_set(),
            strings_view(p.to_delete@).to_set(),
        ) == local_map(local),
{
    let sm = server_map(server);
    let lm = local_map(local);
    let upl = strings_view(p.to_upload@).to_set();
    let dl = strings_view(p.to_delete@).to_set();
    assert forall|k: Seq<char>| upl.contains(k) <==> #[trigger] upload_set(sm, lm).contains(k) by {
        assert(upl.contains(k) == strings_view(p.to_upload@).contains(k));
    }
    assert forall|k: Seq<char>| dl.contains(k) <==> #[trigger] delete_set(sm, lm).contains(k) by {
        assert(dl.contains(k) == strings_view(p.to_delete@).contains(k));
    }
    let after = after_publish(sm, lm, upl, dl);
    assert(after.dom() =~= sm.dom().difference(dl).union(lm.dom().intersect(upl)));
    assert forall|k: Seq<char>| #[trigger] after.contains_key(k) <==> lm.contains_key(k) by {
        if lm.contains_key(k) && !upl.contains(k) {
            assert(!upload_set(sm, lm).contains(k));
            assert(!delete_set(sm, lm).contains(k));
        }
        if !lm.contains_key(k) {
            assert(!upload_set(sm, lm).contains(k));
            if sm.contains_key(k) {
                assert(delete_set(sm, lm).contains(k));
            }
        }
    }
    assert forall|k: Seq<char>| after.contains_key(k) implies #[trigger] after[k] == lm[k] by {
        if !upl.contains(k) {
            assert(!upload_set(sm, lm).contains(k));
        }
    }
    assert(after =~= lm);
}

/// Planning again against a draft that already holds the local files plans
/// nothing: publishing twice in a row uploads and deletes nothing the second time.
pub proof fn law_publish_converges(p: PublishPlan, server: Seq<ServerFileSite>, local: Seq<LocalFile>)
    requires
        plan_is(p, server, local),
        server_map(server) == local_map(local),
    ensures
        p.to_upload@.len() == 0,
        p.to_delete@.len() == 0,
        p.unchanged == p.local_count,
{
    let sm = server_map(server);
    let lm = local_map(local);
    if p.to_upload@.len() > 0 {
        let k = strings_view(p.to_upload@)[0];
        assert(strings_view(p.to_upload@).contains(k));
        assert(upload_set(sm, lm).contains(k));
    }
    if p.to_delete@.len() > 0 {
        let k = strings_view(p.to_delete@)[0];
        assert(strings_view(p.to_delete@).contains(k));
        assert(delete_set(sm, lm).contains(k));
    }
}


// ---------------------------------------------------------------------------
// Carrying out a plan
// ---------------------------------------------------------------------------

/// Most files in one upload request (the server's multipart file ceiling).
pub const BATCH_MAX_FILES: usize = 100;
/// Most bytes in one upload request, unless a single file is larger.
pub const BATCH_MAX_BYTES: u64 = 33554432;
/// Most paths in one delete request.
pub const DELETE_BATCH: usize = 500;
/// Seconds between two polls of a bucket publish.
pub const BUCKET_POLL_INTERVAL_SECS: u64 = 2;
/// Most polls of a bucket publish before giving up.
pub const BUCKET_POLL_MAX_ATTEMPTS: usize = 300;

/// What a publish does after reporting its plan.
#[derive(Clone, Copy, Debug, PartialEq, Eq)]
pub enum PublishStep {
    /// Nothing to upload or delete: stop without publishing.
    NoChanges,
    /// A dry run: stop without changing anything.
    DryRun,
    /// Upload, delete, then publish the snapshot.
    Apply,
}

/// Whether and how a plan is carried out.
pub fn publish_step(plan: &PublishPlan, dry_run: bool) -> (r: PublishStep)
    ensures
        r == (if plan.to_upload@.len() == 0 && plan.to_delete@.len() == 0 {
            PublishStep::NoChanges
        } else if dry_run {
            PublishStep::DryRun
        } else {
            PublishStep::Apply
        }),
{
    if plan.to_upload.len() == 0 && plan.to_delete.len() == 0 {
        PublishStep::NoChanges
    } else if dry_run {
        PublishStep::DryRun
    } else {
        PublishStep::Apply
    }
}

/// The plan summary line.
pub fn publish_summary(lang: Lang, site_id: i64, plan: &PublishPlan) -> (r: String)
    ensures
        r@ == fill(
            message(M::PublishSummary, lang),
            seq![
                ("id"@, decimal(site_id as int)),
                ("local"@, decimal(plan.local_count as int)),
                ("server"@, decimal(plan.server_count as int)),
                ("up"@, decimal(plan.to_upload@.len() as int)),
                ("del"@, decimal(plan.to_delete@.len() as int)),
                ("same"@, decimal(plan.unchanged as int)),
            ],
        ),
{
    let id = i64_to_string(site_id);
    let local = u64_to_string(plan.local_count as u64);
    let server = u64_to_string(plan.server_count as u64);
    let up = u64_to_string(plan.to_upload.len() as u64);
    let del = u64_to_string(plan.to_delete.len() as u64);
    let same = u64_to_string(plan.unchanged as u64);
    let args = [
        ("id", id.as_str()),
        ("local", local.as_str()),
        ("server", server.as_str()),
        ("up", up.as_str()),
        ("del", del.as_str()),
        ("same", same.as_str()),
    ];
    let r = f(lang, M::PublishSummary, &args);
    assert(args_view(args@) =~= seq![
        ("id"@, decimal(site_id as int)),
        ("local"@, decimal(plan.local_count as int)),
        ("server"@, decimal(plan.server_count as int)),
        ("up"@, decimal(plan.to_upload@.len() as int)),
        ("del"@, decimal(plan.to_delete@.len() as int)),
        ("same"@, decimal(plan.unchanged as int)),
    ]);
    r
}

/// The report after the deletions: how many files were deleted.
pub fn deleted_message(lang: Lang, count: usize) -> (r: String)
    ensures
        r@ == fill(message(M::DeletedFiles, lang), seq![("count"@, decimal(count as int))]),
{
    let n = u64_to_string(count as u64);
    let args = [("count", n.as_str())];
    let r = f(lang, M::DeletedFiles, &args);
    assert(args_view(args@) =~= seq![("count"@, decimal(count as int))]);
    r
}

/// Total size of a batch.
pub open spec fn batch_bytes(b: Seq<(String, u64)>) -> int
    decreases b.len(),
{
    if b.len() == 0 {
        0
    } else {
        batch_bytes(b.drop_last()) + b.last().1
    }
}

/// A batch within the limits: at most `BATCH_MAX_FILES` files, and at most
/// `BATCH_MAX_BYTES` bytes unless it is a single file.
pub open spec fn batch_fits(b: Seq<(String, u64)>) -> bool {
    &&& 0 < b.len() <= BATCH_MAX_FILES
    &&& (b.len() == 1 || batch_bytes(b) <= BATCH_MAX_BYTES)
}

/// A batch that could not take the next file without breaking the limits.
pub open spec fn batch_full(b: Seq<(String, u64)>, next: (String, u64)) -> bool {
    b.len() >= BATCH_MAX_FILES || batch_bytes(b) + next.1 > BATCH_MAX_BYTES
}

/// The batches, one after the other.
pub open spec fn concat_batches(bs: Seq<Seq<(String, u64)>>) -> Seq<(String, u64)>
    decreases bs.len(),
{
    if bs.len() == 0 {
        Seq::empty()
    } else {
        concat_batches(bs.drop_last()) + bs.last()
    }
}

/// `bs` splits `files` greedily: in order, every batch within the limits, and
/// every batch but the last full when the next one starts.
pub open spec fn batches_of(bs: Seq<Seq<(String, u64)>>, files: Seq<(String, u64)>) -> bool {
    &&& concat_batches(bs) == files
    &&& forall|j: int| 0 <= j < bs.len() ==> batch_fits(#[trigger] bs[j])
    &&& forall|j: int| 0 <= j < bs.len() - 1 ==> batch_full(#[trigger] bs[j], bs[j + 1][0])
}

/// The batches as sequences.
pub open spec fn batches_view(bs: Seq<Vec<(String, u64)>>) -> Seq<Seq<(String, u64)>> {
    bs.map_values(|b: Vec<(String, u64)>| b@)
}

/// Groups files (path, size) into upload batches by count and total size.
pub fn make_batches(files: Vec<(String, u64)>) -> (r: Vec<Vec<(String, u64)>>)
    ensures
        batches_of(batches_view(r@), files@),
{
    let ghost all = files@;
    let n: usize = files.len();
    let mut rest = files;
    let mut batches: Vec<Vec<(String, u64)>> = Vec::new();
    let mut batch: Vec<(String, u64)> = Vec::new();
    let mut bytes: u64 = 0;
    let mut i: usize = 0;
    while rest.len() > 0
        invariant
            i + rest@.len() == all.len(),
            all.len() == n,
            rest@ == all.skip(i as int),
            concat_batches(batches_view(batches@)) + batch@ == all.take(i as int),
            forall|j: int| 0 <= j < batches@.len() ==> batch_fits(#[trigger] batches_view(batches@)[j]),
            forall|j: int| 0 <= j < batches@.len() - 1 ==> batch_full(
                #[trigger] batches_view(batches@)[j],
                batches_view(batches@)[j + 1][0],
            ),
            batches@.len() > 0 ==> batch@.len() > 0 && batch_full(
                batches_view(batches@).last(),
                batch@[0],
            ),
            batch@.len() <= BATCH_MAX_FILES,
            batch@.len() > 1 ==> batch_bytes(batch@) <= BATCH_MAX_BYTES,
            bytes == batch_bytes(batch@),
        decreases rest@.len(),
    {
        let item = rest.remove(0);
        let size = item.1;
        let ghost bv = batches_view(batches@);
        proof {
            assert(all.skip(i as int)[0] == item);
            assert(all.take(i + 1) =~= all.take(i as int).push(item));
            assert(rest@ =~= all.skip(i + 1));
        }
        if batch.len() > 0 && (batch.len() >= BATCH_MAX_FILES || bytes > BATCH_MAX_BYTES || size
            > BATCH_MAX_BYTES - bytes) {
            let ghost closed = batch@;
            let mut full: Vec<(String, u64)> = Vec::new();
            std::mem::swap(&mut full, &mut batch);
            batches.push(full);
            proof {
                assert(batch_full(closed, item));
                assert(batches_view(batches@) =~= bv.push(closed));
                assert(batches_view(batches@).drop_last() =~= bv);
                assert(concat_batches(batches_view(batches@)) =~= concat_batches(bv) + closed);
            }
            batch.push(item);
            bytes = size;
            proof {
                assert(batch@ =~= seq![item]);
                assert(batch@.drop_last() =~= Seq::<(String, u64)>::empty());
                assert(batch_bytes(Seq::<(String, u64)>::empty()) == 0);
                assert(batch_bytes(batch@) == size);
                assert(concat_batches(batches_view(batches@)) + batch@ =~= concat_batches(bv) + closed
                    + seq![item]);
            }
        } else {
            let ghost old_batch = batch@;
            batch.push(item);
            bytes = bytes + size;
            proof {
                assert(batch@.drop_last() =~= old_batch);
                assert(concat_batches(bv) + batch@ =~= concat_batches(bv) + old_batch + seq![item]);
                if old_batch.len() > 0 {
                    assert(batch@[0] == old_batch[0]);
                }
            }
        }
        i += 1;
    }
    proof {
        assert(all.take(i as int) =~= all);
    }
    if batch.len() > 0 {
        let ghost bv = batches_view(batches@);
        let ghost last = batch@;
        batches.push(batch);
        proof {
            assert(batches_view(batches@) =~= bv.push(last));
            assert(batches_view(batches@).drop_last() =~= bv);
        }
    } else {
        proof {
            assert(concat_batches(batches_view(batches@)) + batch@ =~= concat_batches(
                batches_view(batches@),
            ));
        }
    }
    batches
}

/// The paths of one delete request: the `j`-th run of `DELETE_BATCH` paths.
pub open spec fn delete_chunk(paths: Seq<Seq<char>>, j: int) -> Seq<Seq<char>> {
    paths.subrange(
        j * DELETE_BATCH,
        if (j + 1) * DELETE_BATCH < paths.len() {
            (j + 1) * DELETE_BATCH
        } else {
            paths.len() as int
        },
    )
}

/// Splits the paths to delete into requests of at most `DELETE_BATCH` paths, in order.
pub fn delete_chunks(paths: &[String]) -> (r: Vec<Vec<String>>)
    ensures
        paths@.len() == 0 ==> r@.len() == 0,
        paths@.len() > 0 ==> (r@.len() - 1) * DELETE_BATCH < paths@.len() <= r@.len() * DELETE_BATCH,
        forall|j: int|
            0 <= j < r@.len() ==> strings_view((#[trigger] r@[j])@) == delete_chunk(
                strings_view(paths@),
                j,
            ),
{
    let ghost pv = strings_view(paths@);
    let mut out: Vec<Vec<String>> = Vec::new();
    let mut start: usize = 0;
    while start < paths.len()
        invariant
            start <= paths.len(),
            start == out@.len() * DELETE_BATCH || (start == paths.len() && (out@.len() - 1)
                * DELETE_BATCH < start <= out@.len() * DELETE_BATCH),
            pv == strings_view(paths@),
            forall|j: int| 0 <= j < out@.len() ==> strings_view((#[trigger] out@[j])@) == delete_chunk(pv, j),
        decreases paths.len() - start,
    {
        let end = if paths.len() - start > DELETE_BATCH {
            start + DELETE_BATCH
        } else {
            paths.len()
        };
        let mut chunk: Vec<String> = Vec::new();
        let mut k: usize = start;
        while k < end
            invariant
                start <= k <= end <= paths.len(),
                pv == strings_view(paths@),
                strings_view(chunk@) == pv.subrange(start as int, k as int),
            decreases end - k,
        {
            let ghost before = strings_view(chunk@);
            chunk.push(paths[k].clone());
            proof {
                assert(strings_view(chunk@) =~= before.push(paths@[k as int]@));
                assert(pv.subrange(start as int, k + 1) =~= pv.subrange(start as int, k as int).push(pv[k as int]));
            }
            k += 1;
        }
        let ghost j = out@.len() as int;
        proof {
            assert((j + 1) * DELETE_BATCH == start + DELETE_BATCH) by (nonlinear_arith)
                requires
                    start == j * DELETE_BATCH,
            ;
            assert(delete_chunk(pv, j) == pv.subrange(start as int, end as int));
        }
        let ghost start_before = start;
        out.push(chunk);
        start = end;
        proof {
            if end == start_before + DELETE_BATCH {
                assert(start == out@.len() * DELETE_BATCH) by (nonlinear_arith)
                    requires
                        start == (j + 1) * DELETE_BATCH,
                        out@.len() == j + 1,
                ;
            } else {
                assert((out@.len() - 1) * DELETE_BATCH < start <= out@.len() * DELETE_BATCH) by (nonlinear_arith)
                    requires
                        start_before == j * DELETE_BATCH,
                        start_before < start <= start_before + DELETE_BATCH,
                        out@.len() == j + 1,
                ;
            }
        }
    }
    proof {
        if paths@.len() > 0 && start == out@.len() * DELETE_BATCH {
            assert(out@.len() > 0);
            assert((out@.len() - 1) * DELETE_BATCH < start) by (nonlinear_arith)
                requires
                    start == out@.len() * DELETE_BATCH,
                    out@.len() > 0,
            ;
        }
    }
    out
}

/// The last segment of a `/`-separated path.
pub open spec fn last_segment(s: Seq<char>) -> Seq<char>
    decreases s.len(),
{
    if s.len() == 0 {
        s
    } else if s.last() == '/' {
        Seq::empty()
    } else {
        last_segment(s.drop_last()).push(s.last())
    }
}

/// The MIME type guessed from a path's extension (`application/octet-stream`
/// when none is known).
pub uninterp spec fn guessed_mime(path: Seq<char>) -> Seq<char>;

/// `mime_guess::from_path(path).first_or_octet_stream()`, as text. The guess goes
/// by the extension alone; this contract states only that a path without any `.`
/// gets `application/octet-stream`, which the crate documents for a path with no
/// extension.
#[verifier::external_body]
fn mime_for_path(path: &str) -> (r: String)
    ensures
        r@ == guessed_mime(path@),
        !path@.contains('.') ==> r@ == "application/octet-stream"@,
{
    mime_guess::from_path(path).first_or_octet_stream().to_string()
}

/// One file of an upload request: the relative path sent in `paths`, and the file
/// name and content type of the matching part.
#[derive(Clone, Debug)]
pub struct UploadPart {
    pub path: String,
    pub file_name: String,
    pub content_type: String,
}

/// The part for the file at relative path `rel`.
pub fn upload_part(rel: &str) -> (r: UploadPart)
    ensures
        r.path@ == rel@,
        r.file_name@ == last_segment(rel@),
        r.content_type@ == guessed_mime(rel@),
{
    let v = chars_of(rel);
    let mut j: usize = v.len();
    assert(rel@.take(j as int) =~= rel@ && rel@.skip(j as int) =~= Seq::<char>::empty());
    while j > 0 && v[j - 1] != '/'
        invariant
            j <= v.len(),
            v@ == rel@,
            last_segment(rel@) == last_segment(rel@.take(j as int)) + rel@.skip(j as int),
        decreases j,
    {
        proof {
            let t = rel@.take(j as int);
            assert(t.drop_last() =~= rel@.take(j - 1));
            assert(rel@.skip(j - 1) =~= seq![t.last()] + rel@.skip(j as int));
            assert(last_segment(rel@.take(j - 1)).push(t.last()) + rel@.skip(j as int) =~= last_segment(
                rel@.take(j - 1),
            ) + rel@.skip(j - 1));
        }
        j -= 1;
    }
    proof {
        assert(rel@.take(rel@.len() as int) =~= rel@);
        assert(rel@.skip(rel@.len() as int) =~= Seq::<char>::empty());
        assert(last_segment(rel@.take(j as int)) =~= Seq::<char>::empty()) by {
            if j > 0 {
                assert(rel@.take(j as int).last() == '/');
            }
        }
        assert(last_segment(rel@) =~= rel@.skip(j as int));
    }
    let mut name: Vec<char> = Vec::new();
    let mut k: usize = j;
    while k < v.len()
        invariant
            j <= k <= v.len(),
            v@ == rel@,
            name@ == rel@.subrange(j as int, k as int),
        decreases v.len() - k,
    {
        name.push(v[k]);
        proof {
            assert(rel@.subrange(j as int, k + 1) =~= rel@.subrange(j as int, k as int).push(rel@[k as int]));
        }
        k += 1;
    }
    assert(rel@.subrange(j as int, v.len() as int) =~= rel@.skip(j as int));
    UploadPart {
        path: crate::text::owned(rel),
        file_name: string_of(&name),
        content_type: mime_for_path(rel),
    }
}

/// The parts of an upload request, in the order of the batch.
pub fn upload_parts(batch: &[(String, u64)]) -> (r: Vec<UploadPart>)
    ensures
        r@.len() == batch@.len(),
        forall|i: int|
            0 <= i < r@.len() ==> (#[trigger] r@[i]).path@ == batch@[i].0@ && r@[i].file_name@
                == last_segment(batch@[i].0@) && r@[i].content_type@ == guessed_mime(batch@[i].0@),
{
    let mut out: Vec<UploadPart> = Vec::new();
    let mut i: usize = 0;
    while i < batch.len()
        invariant
            i <= batch.len(),
            out@.len() == i,
            forall|m: int|
                0 <= m < i ==> (#[trigger] out@[m]).path@ == batch@[m].0@ && out@[m].file_name@
                    == last_segment(batch@[m].0@) && out@[m].content_type@ == guessed_mime(
                    batch@[m].0@,
                ),
        decreases batch.len() - i,
    {
        out.push(upload_part(batch[i].0.as_str()));
        i += 1;
    }
    out
}

/// The MD5 digest of some bytes.
pub uninterp spec fn md5_digest(data: Seq<u8>) -> Seq<u8>;

/// `Md5::digest`: the MD5 digest of `data`, sixteen bytes.
#[verifier::external_body]
fn md5_of(data: &[u8]) -> (r: Vec<u8>)
    ensures
        r@ == md5_digest(data@),
        r@.len() == 16,
{
    md5::Md5::digest(data).to_vec()
}

/// A lowercase hex digit.
pub open spec fn hex_digit(n: int) -> char {
    seq!['0', '1', '2', '3', '4', '5', '6', '7', '8', '9', 'a', 'b', 'c', 'd', 'e', 'f'][n]
}

/// Lowercase hex text of some bytes, two digits a byte, high nibble first.
pub open spec fn hex_lower(bytes: Seq<u8>) -> Seq<char>
    decreases bytes.len(),
{
    if bytes.len() == 0 {
        Seq::empty()
    } else {
        hex_lower(bytes.drop_last()) + seq![hex_digit(bytes.last() as int / 16), hex_digit(bytes.last() as int % 16)]
    }
}

pub proof fn lemma_hex_len(bytes: Seq<u8>)
    ensures
        hex_lower(bytes).len() == 2 * bytes.len(),
    decreases bytes.len(),
{
    if bytes.len() > 0 {
        lemma_hex_len(bytes.drop_last());
    }
}

/// `hex::encode`: lowercase hex text of `bytes`.
#[verifier::external_body]
fn hex_of(bytes: &[u8]) -> (r: String)
    ensures
        r@ == hex_lower(bytes@),
{
    hex::encode(bytes)
}

/// The etag the server keeps for a file with content `data`: the hex MD5.
pub fn etag_of(data: &[u8]) -> (r: String)
    ensures
        r@ == hex_lower(md5_digest(data@)),
        r@.len() == 32,
{
    let digest = md5_of(data);
    let r = hex_of(digest.as_slice());
    proof {
        lemma_hex_len(digest@);
    }
    r
}

// ---------------------------------------------------------------------------
// Publishing from a bucket
// ---------------------------------------------------------------------------

/// The next move while a bucket publish runs on the server.
#[derive(Clone, Debug)]
pub enum BucketStep {
    /// Wait `BUCKET_POLL_INTERVAL_SECS`, then fetch the site again.
    Poll,
    /// The site is active again: published, with this content version.
    Published(String),
    /// The publish failed, for this reason.
    Failed(String),
    /// The site is still publishing after `BUCKET_POLL_MAX_ATTEMPTS` polls.
    TimedOut,
}

/// Whether the site's status is `status`.
pub open spec fn status_is(s: SitesListInner, status: Seq<char>) -> bool {
    s.status matches Some(t) && t@ == status
}

/// After `polls` polls, the last of which saw `last` (`None` before the first
/// poll): keep polling while the site is publishing and attempts remain; an active
/// site is published; any other status is a failure.
pub fn bucket_step(polls: usize, last: Option<&SitesListInner>) -> (r: BucketStep)
    ensures
        match last {
            None => r is Poll,
            Some(s) => if status_is(*s, "publishing"@) {
                if polls < BUCKET_POLL_MAX_ATTEMPTS {
                    r is Poll
                } else {
                    r is TimedOut
                }
            } else if status_is(*s, "active"@) {
                r matches BucketStep::Published(v) && v@ == opt_number(s.content_version)
            } else {
                r matches BucketStep::Failed(e) && e@ == opt_text(s.publish_error)
            },
        },
{
    match last {
        None => BucketStep::Poll,
        Some(s) => {
            let (publishing, active) = match &s.status {
                Some(t) => (str_eq(t.as_str(), "publishing"), str_eq(t.as_str(), "active")),
                None => (false, false),
            };
            if publishing {
                if polls < BUCKET_POLL_MAX_ATTEMPTS {
                    BucketStep::Poll
                } else {
                    BucketStep::TimedOut
                }
            } else if active {
                BucketStep::Published(opt_number_string(s.content_version))
            } else {
                BucketStep::Failed(opt_string(&s.publish_error))
            }
        },
    }
}

/// The report that ends a bucket publish (none while it is polling).
pub fn bucket_message(lang: Lang, step: &BucketStep) -> (r: Option<String>)
    ensures
        match step {
            BucketStep::Poll => r is None,
            BucketStep::Published(v) => r matches Some(m) && m@ == fill(
                message(M::BucketPublished, lang),
                seq![("version"@, v@)],
            ),
            BucketStep::Failed(e) => r matches Some(m) && m@ == fill(
                message(M::BucketPublishFailed, lang),
                seq![("error"@, e@)],
            ),
            BucketStep::TimedOut => r matches Some(m) && m@ == message(M::BucketPublishTimeout, lang),
        },
{
    match step {
        BucketStep::Poll => None,
        BucketStep::Published(v) => {
            let args = [("version", v.as_str())];
            let m = f(lang, M::BucketPublished, &args);
            assert(args_view(args@) =~= seq![("version"@, v@)]);
            Some(m)
        },
        BucketStep::Failed(e) => {
            let args = [("error", e.as_str())];
            let m = f(lang, M::BucketPublishFailed, &args);
            assert(args_view(args@) =~= seq![("error"@, e@)]);
            Some(m)
        },
        BucketStep::TimedOut => Some(crate::text::owned(tr(lang, M::BucketPublishTimeout))),
    }
}

// ---------------------------------------------------------------------------
// Finding the site
// ---------------------------------------------------------------------------

/// How a command names its site.
#[derive(Clone, Debug)]
pub enum SiteRef {
    /// By id, without a lookup.
    Id(i64),
    /// By hostname, looked up first.
    Host(String),
}

/// The site a publish addresses: `--site-id` wins over the hostname; `None`
/// when neither is given.
pub fn site_ref(site_id: Option<i64>, hostname: Option<String>) -> (r: Option<SiteRef>)
    ensures
        match site_id {
            Some(id) => r matches Some(SiteRef::Id(x)) && x == id,
            None => match hostname {
                Some(h) => r matches Some(SiteRef::Host(x)) && x@ == h@,
                None => r is None,
            },
        },
{
    match site_id {
        Some(id) => Some(SiteRef::Id(id)),
        None => match hostname {
            Some(h) => Some(SiteRef::Host(h)),
            None => None,
        },
    }
}

/// The lookup key of a hostname: trimmed and lowercased.
pub fn site_needle(hostname: &str) -> (r: String)
    ensures
        r@ == str_lower(trim(hostname@)),
{
    let t = trim_str(hostname);
    to_lowercase(t.as_str())
}

/// The error when no site has the hostname.
pub fn site_not_found(lang: Lang, hostname: &str) -> (r: String)
    ensures
        r@ == fill(message(M::NotFoundSite, lang), seq![("host"@, hostname@)]),
{
    let args = [("host", hostname)];
    let r = f(lang, M::NotFoundSite, &args);
    assert(args_view(args@) =~= seq![("host"@, hostname@)]);
    r
}

/// The first of the sites a lookup found, or the not-found error.
pub fn first_site(lang: Lang, hostname: &str, results: Vec<SitesListInner>) -> (r: Result<SitesListInner, String>)
    ensures
        results@.len() > 0 ==> r == Ok::<SitesListInner, String>(results@[0]),
        results@.len() == 0 ==> (r matches Err(e) && e@ == fill(
            message(M::NotFoundSite, lang),
            seq![("host"@, hostname@)],
        )),
{
    let mut results = results;
    if results.len() > 0 {
        Ok(results.remove(0))
    } else {
        Err(site_not_found(lang, hostname))
    }
}

} // verus!
