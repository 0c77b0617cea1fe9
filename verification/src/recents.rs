//! The list of recently opened projects, most recent first.
use vstd::prelude::*;

verus! {

/// A user preference that is stored under a name of its own.
pub trait UserPref {
    /// The key under which the preference is stored.
    fn name() -> &'static str;
}

/// How many recent projects are kept.
pub const MAX_RECENTS: usize = 3;

/// The preference that holds the recently opened project paths.
pub struct Recents;

impl UserPref for Recents {
    fn name() -> (r: &'static str)
        ensures
            r@ == "recents"@,
    {
        "recents"
    }
}

impl Recents {
    /// The value of the preference before anything was stored: no recent projects.
    pub fn default() -> (r: Vec<String>)
        ensures
            r@.len() == 0,
    {
        Vec::new()
    }
}

/// The character sequences of a list of strings.
pub open spec fn views(v: Seq<String>) -> Seq<Seq<char>> {
    v.map_values(|s: String| s@)
}

/// What `std::path::Path`'s `==` answers for the paths written `a` and `b`. It compares the
/// paths component by component, with the path syntax of the platform the program was built
/// for, so that texts that differ (such as a trailing separator) can name one path; the file
/// system is not consulted.
pub uninterp spec fn path_eq_result(a: Seq<char>, b: Seq<char>) -> bool;

/// Whether `a` and `b` name the same path: equal texts always do, other texts where `Path`
/// equality says so.
pub open spec fn same_path(a: Seq<char>, b: Seq<char>) -> bool {
    a == b || path_eq_result(a, b)
}

/// Calls `std::path::Path::new(a) == std::path::Path::new(b)`. Trusted: the answer is
/// `path_eq_result` of the two texts, and is `true` for equal texts, as `Path` equality is
/// reflexive (`Path` implements `Eq`); which other texts name the same path is not stated here.
#[verifier::external_body]
fn paths_equal(a: &str, b: &str) -> (r: bool)
    ensures
        r == path_eq_result(a@, b@),
        a@ == b@ ==> r,
{
    std::path::Path::new(a) == std::path::Path::new(b)
}

/// `i` is the first position in `s` of an entry that names the same path as `p`.
pub open spec fn is_first_at(s: Seq<Seq<char>>, p: Seq<char>, i: int) -> bool {
    &&& 0 <= i < s.len()
    &&& same_path(s[i], p)
    &&& forall|j: int| 0 <= j < i ==> !same_path(s[j], p)
}

/// Some entry of `s` names the same path as `p`.
pub open spec fn holds_path(s: Seq<Seq<char>>, p: Seq<char>) -> bool {
    exists|k: int| 0 <= k < s.len() && same_path(s[k], p)
}

/// No two entries of `s` name the same path.
pub open spec fn distinct_paths(s: Seq<Seq<char>>) -> bool {
    forall|a: int, b: int| 0 <= a < s.len() && 0 <= b < s.len() && a != b ==> !same_path(s[a], s[b])
}

/// `s` with the first entry that names the same path as `p` removed, if there is one.
pub open spec fn remove_first(s: Seq<Seq<char>>, p: Seq<char>) -> Seq<Seq<char>> {
    if exists|i: int| is_first_at(s, p, i) {
        s.remove(choose|i: int| is_first_at(s, p, i))
    } else {
        s
    }
}

/// The recents list after `path` was opened: `path` goes to the front, the first entry that
/// names the same path is removed, and one path is dropped from the end when the list then
/// holds more than `MAX_RECENTS`.
pub open spec fn recents_after_add(old: Seq<Seq<char>>, path: Seq<char>) -> Seq<Seq<char>> {
    let added = seq![path] + remove_first(old, path);
    if added.len() > MAX_RECENTS {
        added.drop_last()
    } else {
        added
    }
}

proof fn lemma_first_unique(s: Seq<Seq<char>>, p: Seq<char>, i: int)
    requires
        is_first_at(s, p, i),
    ensures
        remove_first(s, p) == s.remove(i),
{
    let k = choose|k: int| is_first_at(s, p, k);
    assert(is_first_at(s, p, k));
    if k < i {
        assert(!same_path(s[k], p));
    }
    if i < k {
        assert(!same_path(s[i], p));
    }
    assert(k == i);
}

/// Where an entry of `s` names the same path as `p`, there is a first such entry.
pub proof fn lemma_contains_has_first(s: Seq<Seq<char>>, p: Seq<char>)
    requires
        holds_path(s, p),
    ensures
        exists|i: int| is_first_at(s, p, i),
    decreases s.len(),
{
    if same_path(s[0], p) {
        assert(is_first_at(s, p, 0));
    } else {
        let k = choose|k: int| 0 <= k < s.len() && same_path(s[k], p);
        assert(s.drop_first()[k - 1] == s[k]);
        lemma_contains_has_first(s.drop_first(), p);
        let i = choose|i: int| is_first_at(s.drop_first(), p, i);
        assert(is_first_at(s, p, i + 1)) by {
            assert forall|j: int| 0 <= j < i + 1 implies !same_path(s[j], p) by {
                if j > 0 {
                    assert(s[j] == s.drop_first()[j - 1]);
                }
            }
        }
    }
}

/// Records that the project at `path` was opened: it moves to the front of the recents list,
/// the first earlier entry that names the same path is removed, and the list is cut back when
/// it grew past `MAX_RECENTS`.
pub fn add_recent(recents: &mut Vec<String>, path: String)
    ensures
        views(final(recents)@) == recents_after_add(views(old(recents)@), path@),
{
    let ghost old_views = views(recents@);
    let n = recents.len();
    let mut idx: usize = 0;
    let mut found = false;
    while idx < n
        invariant_except_break
            !found,
        invariant
            0 <= idx <= n,
            n == recents.len(),
            recents@ == old(recents)@,
            old_views == views(recents@),
            forall|j: int| 0 <= j < idx ==> !same_path(old_views[j], path@),
        ensures
            idx <= n,
            found ==> is_first_at(old_views, path@, idx as int),
            !found ==> forall|j: int| 0 <= j < n ==> !same_path(old_views[j], path@),
        decreases n - idx,
    {
        assert(old_views[idx as int] == recents@[idx as int]@);
        if paths_equal(recents[idx].as_str(), path.as_str()) {
            found = true;
            break;
        }
        idx = idx + 1;
    }
    let ghost without: Seq<Seq<char>>;
    if found {
        proof {
            lemma_first_unique(old_views, path@, idx as int);
        }
        recents.remove(idx);
        proof {
            without = old_views.remove(idx as int);
            assert(views(recents@) =~= without);
        }
    } else {
        proof {
            without = old_views;
            assert(!exists|i: int| is_first_at(old_views, path@, i));
            assert(views(recents@) =~= without);
        }
    }
    assert(without == remove_first(old_views, path@));
    recents.insert(0, path);
    assert(views(recents@) =~= seq![path@] + without);
    if recents.len() > MAX_RECENTS {
        recents.pop();
        assert(views(recents@) =~= (seq![path@] + without).drop_last());
    }
}


proof fn lemma_remove_first_facts(s: Seq<Seq<char>>, p: Seq<char>)
    ensures
        remove_first(s, p).len() == if holds_path(s, p) { s.len() - 1 } else { s.len() as int },
        forall|k: int|
            0 <= k < remove_first(s, p).len() ==> s.contains(#[trigger] remove_first(s, p)[k]),
        distinct_paths(s) ==> remove_first(s, p).no_duplicates() && !remove_first(
            s,
            p,
        ).contains(p),
{
    if holds_path(s, p) {
        lemma_contains_has_first(s, p);
        let i = choose|i: int| is_first_at(s, p, i);
        lemma_first_unique(s, p, i);
        let r = s.remove(i);
        assert forall|k: int| 0 <= k < r.len() implies s.contains(#[trigger] r[k]) by {
            if k < i {
                assert(r[k] == s[k]);
            } else {
                assert(r[k] == s[k + 1]);
            }
        }
        if distinct_paths(s) {
            assert forall|a: int, b: int| 0 <= a < r.len() && 0 <= b < r.len() && a != b implies r[a]
                != r[b] by {
                let sa = if a < i { a } else { a + 1 };
                let sb = if b < i { b } else { b + 1 };
                assert(r[a] == s[sa] && r[b] == s[sb]);
                assert(!same_path(s[sa], s[sb]));
            }
            assert forall|k: int| 0 <= k < r.len() implies r[k] != p by {
                let sk = if k < i { k } else { k + 1 };
                assert(r[k] == s[sk]);
                if r[k] == p {
                    assert(same_path(s[i], s[sk]));
                }
            }
        }
    } else {
        assert(!exists|i: int| is_first_at(s, p, i));
        assert forall|k: int| 0 <= k < s.len() implies s.contains(#[trigger] s[k]) by {}
        if distinct_paths(s) {
            assert forall|a: int, b: int| 0 <= a < s.len() && 0 <= b < s.len() && a != b implies s[a]
                != s[b] by {
                assert(!same_path(s[a], s[b]));
            }
            assert forall|k: int| 0 <= k < s.len() implies s[k] != p by {
                assert(!same_path(s[k], p));
            }
        }
    }
}

/// After a project is opened, its path heads the recents list.
pub proof fn lemma_opened_path_first(old: Seq<Seq<char>>, path: Seq<char>)
    ensures
        recents_after_add(old, path).len() >= 1,
        recents_after_add(old, path)[0] == path,
{
}

/// A recents list of at most `MAX_RECENTS` paths stays at most `MAX_RECENTS` long.
pub proof fn lemma_recents_bounded(old: Seq<Seq<char>>, path: Seq<char>)
    requires
        old.len() <= MAX_RECENTS,
    ensures
        recents_after_add(old, path).len() <= MAX_RECENTS,
{
    lemma_remove_first_facts(old, path);
}

/// Every path in the list after an open is the opened path or was in the list before.
pub proof fn lemma_recents_members(old: Seq<Seq<char>>, path: Seq<char>)
    ensures
        forall|k: int|
            0 <= k < recents_after_add(old, path).len() ==> (#[trigger] recents_after_add(
                old,
                path,
            )[k] == path || old.contains(recents_after_add(old, path)[k])),
{
    lemma_remove_first_facts(old, path);
    let without = remove_first(old, path);
    let r = recents_after_add(old, path);
    assert forall|k: int| 0 <= k < r.len() implies (#[trigger] r[k] == path || old.contains(r[k])) by {
        if k > 0 {
            assert(r[k] == without[k - 1]);
        }
    }
}

/// A recents list in which no two entries name the same path holds no text twice after an
/// open.
pub proof fn lemma_recents_no_duplicates(old: Seq<Seq<char>>, path: Seq<char>)
    requires
        distinct_paths(old),
    ensures
        recents_after_add(old, path).no_duplicates(),
{
    lemma_remove_first_facts(old, path);
    let without = remove_first(old, path);
    let added = seq![path] + without;
    assert forall|a: int, b: int| 0 <= a < added.len() && 0 <= b < added.len() && a != b implies added[a]
        != added[b] by {
        if a > 0 && b > 0 {
            assert(added[a] == without[a - 1] && added[b] == without[b - 1]);
        } else if a == 0 {
            assert(added[b] == without[b - 1]);
        } else {
            assert(added[a] == without[a - 1]);
        }
    }
    let r = recents_after_add(old, path);
    assert forall|a: int, b: int| 0 <= a < r.len() && 0 <= b < r.len() && a != b implies r[a] != r[b] by {
        assert(r[a] == added[a] && r[b] == added[b]);
    }
}

/// Opening the same project twice in a row leaves the recents list as the first open left it.
pub proof fn lemma_reopen_same_path(old: Seq<Seq<char>>, path: Seq<char>)
    requires
        old.len() <= MAX_RECENTS,
    ensures
        recents_after_add(recents_after_add(old, path), path) == recents_after_add(old, path),
{
    let r = recents_after_add(old, path);
    lemma_recents_bounded(old, path);
    assert(is_first_at(r, path, 0));
    lemma_first_unique(r, path, 0);
    assert(seq![path] + r.remove(0) =~= r);
}

} // verus!
