//! Listing named things (assets, colors) in the order of their names.
use vstd::prelude::*;

use crate::text::chars_of;

verus! {

broadcast use vstd::seq_lib::group_to_multiset_ensures;

/// The order of `String`s: character by character, a prefix first.
pub open spec fn name_le(a: Seq<char>, b: Seq<char>) -> bool
    decreases a.len(),
{
    if a.len() == 0 {
        true
    } else if b.len() == 0 {
        false
    } else if a[0] != b[0] {
        a[0] < b[0]
    } else {
        name_le(a.drop_first(), b.drop_first())
    }
}

/// Any two names are ordered one way or the other.
pub proof fn lemma_name_le_total(a: Seq<char>, b: Seq<char>)
    ensures
        name_le(a, b) || name_le(b, a),
    decreases a.len(),
{
    if a.len() > 0 && b.len() > 0 && a[0] == b[0] {
        lemma_name_le_total(a.drop_first(), b.drop_first());
    }
}

/// Names ordered both ways are the same name.
pub proof fn lemma_name_le_antisymmetric(a: Seq<char>, b: Seq<char>)
    requires
        name_le(a, b),
        name_le(b, a),
    ensures
        a == b,
    decreases a.len(),
{
    if a.len() > 0 {
        lemma_name_le_antisymmetric(a.drop_first(), b.drop_first());
        assert(a =~= seq![a[0]] + a.drop_first());
        assert(b =~= seq![b[0]] + b.drop_first());
    } else {
        assert(b.len() == 0);
        assert(a =~= b);
    }
}

/// The order of names is transitive.
pub proof fn lemma_name_le_transitive(a: Seq<char>, b: Seq<char>, c: Seq<char>)
    requires
        name_le(a, b),
        name_le(b, c),
    ensures
        name_le(a, c),
    decreases a.len(),
{
    if a.len() > 0 && b.len() > 0 && c.len() > 0 && a[0] == b[0] && b[0] == c[0] {
        lemma_name_le_transitive(a.drop_first(), b.drop_first(), c.drop_first());
    }
}

/// Compares two names.
pub fn names_le(a: &String, b: &String) -> (r: bool)
    ensures
        r == name_le(a@, b@),
{
    let ca = chars_of(a.as_str());
    let cb = chars_of(b.as_str());
    let mut i: usize = 0;
    assert(a@.skip(0) =~= a@);
    assert(b@.skip(0) =~= b@);
    while i < ca.len() && i < cb.len() && ca[i] == cb[i]
        invariant
            ca@ == a@,
            cb@ == b@,
            0 <= i <= ca@.len(),
            i <= cb@.len(),
            forall|k: int| 0 <= k < i ==> ca@[k] == cb@[k],
            name_le(a@, b@) == name_le(a@.skip(i as int), b@.skip(i as int)),
        decreases ca.len() - i,
    {
        proof {
            assert(a@.skip(i as int).drop_first() =~= a@.skip(i + 1));
            assert(b@.skip(i as int).drop_first() =~= b@.skip(i + 1));
        }
        i = i + 1;
    }
    if i == ca.len() {
        true
    } else if i == cb.len() {
        false
    } else {
        ca[i] < cb[i]
    }
}

/// A named thing, by name and id.
pub type Named = (String, u64);

/// The names of a list of named things.
pub open spec fn names(s: Seq<Named>) -> Seq<Seq<char>> {
    s.map_values(|n: Named| n.0@)
}

/// `s` is ordered by name.
pub open spec fn sorted_by_name(s: Seq<Named>) -> bool {
    forall|i: int, j: int| 0 <= i < j < s.len() ==> name_le(#[trigger] s[i].0@, #[trigger] s[j].0@)
}

/// `r` lists the things of `items`, the thing at `k` being the one at `f[k]` in `items`, each
/// thing once, and things of equal name in the order they had in `items`.
pub open spec fn stable_arrangement(r: Seq<Named>, items: Seq<Named>, f: Seq<int>) -> bool {
    &&& f.len() == r.len()
    &&& forall|k: int| 0 <= k < r.len() ==> 0 <= #[trigger] f[k] < items.len() && r[k] == items[f[k]]
    &&& forall|k: int, l: int| 0 <= k < l < r.len() ==> #[trigger] f[k] != #[trigger] f[l]
    &&& forall|k: int, l: int|
        0 <= k < l < r.len() && r[k].0@ == r[l].0@ ==> #[trigger] f[k] < #[trigger] f[l]
}

/// `items` in the order of their names, as the assets panel and the colors panel list them;
/// things of equal name keep their order.
pub fn sort_by_name(items: Vec<Named>) -> (r: Vec<Named>)
    ensures
        r@.to_multiset() == items@.to_multiset(),
        sorted_by_name(r@),
        exists|f: Seq<int>| stable_arrangement(r@, items@, f),
{
    let mut sorted: Vec<Named> = Vec::new();
    let n = items.len();
    let mut rest = items;
    let ghost all = rest@;
    assert(all.skip(0) =~= all);
    let mut i: usize = 0;
    let ghost mut order: Seq<int> = Seq::empty();
    while i < n
        invariant
            0 <= i <= n,
            n == all.len(),
            rest@ == all.skip(i as int),
            sorted@.to_multiset() == all.take(i as int).to_multiset(),
            sorted_by_name(sorted@),
            stable_arrangement(sorted@, all, order),
            forall|k: int| 0 <= k < order.len() ==> #[trigger] order[k] < i,
        decreases n - i,
    {
        let x = rest.remove(0);
        assert(x == all[i as int]);
        assert(rest@ =~= all.skip(i + 1));
        let mut p: usize = 0;
        while p < sorted.len() && names_le(&sorted[p].0, &x.0)
            invariant
                0 <= p <= sorted.len(),
                forall|k: int| 0 <= k < p ==> name_le(sorted@[k].0@, x.0@),
            decreases sorted.len() - p,
        {
            p = p + 1;
        }
        let ghost before = sorted@;
        let ghost old_order = order;
        sorted.insert(p, x);
        proof {
            order = old_order.insert(p as int, i as int);
            assert(sorted@ == before.insert(p as int, x));
            assert forall|k: int| 0 <= k < sorted@.len() implies 0 <= #[trigger] order[k] < all.len()
                && sorted@[k] == all[order[k]] by {
                if k > p {
                    assert(order[k] == old_order[k - 1]);
                }
            }
            assert forall|k: int, l: int| 0 <= k < l < sorted@.len() implies #[trigger] order[k]
                != #[trigger] order[l] by {
                if k < p && l > p {
                    assert(order[l] == old_order[l - 1]);
                } else if k > p {
                    assert(order[l] == old_order[l - 1]);
                    assert(order[k] == old_order[k - 1]);
                } else if k == p {
                    assert(order[l] == old_order[l - 1]);
                }
            }
            assert forall|k: int, l: int|
                0 <= k < l < sorted@.len() && sorted@[k].0@ == sorted@[l].0@ implies #[trigger] order[k]
                < #[trigger] order[l] by {
                if k < p && l > p {
                    assert(order[l] == old_order[l - 1]);
                    assert(sorted@[l] == before[l - 1]);
                    assert(sorted@[k] == before[k]);
                } else if k > p {
                    assert(order[l] == old_order[l - 1]);
                    assert(order[k] == old_order[k - 1]);
                    assert(sorted@[l] == before[l - 1]);
                    assert(sorted@[k] == before[k - 1]);
                } else if k == p {
                    assert(sorted@[l] == before[l - 1]);
                    assert(sorted@[k] == x);
                    assert(!name_le(before[p as int].0@, x.0@));
                    lemma_name_le_total(x.0@, x.0@);
                    if p < l - 1 {
                        assert(name_le(before[p as int].0@, before[l - 1].0@));
                    }
                    assert(false);
                }
            }
            assert(stable_arrangement(sorted@, all, order));
            vstd::seq_lib::to_multiset_insert(before, p as int, x);
            assert(all.take(i + 1) =~= all.take(i as int).push(x));
            assert forall|a: int, b: int| 0 <= a < b < sorted@.len() implies name_le(
                #[trigger] sorted@[a].0@,
                #[trigger] sorted@[b].0@,
            ) by {
                if b < p {
                } else if b == p {
                    assert(sorted@[a] == before[a]);
                } else {
                    assert(sorted@[b] == before[b - 1]);
                    lemma_name_le_total(before[p as int].0@, x.0@);
                    if a < p {
                        assert(sorted@[a] == before[a]);
                        if p < b - 1 {
                            assert(name_le(before[p as int].0@, before[b - 1].0@));
                        }
                        lemma_name_le_transitive(before[a].0@, x.0@, before[p as int].0@);
                        if p < b - 1 {
                            lemma_name_le_transitive(before[a].0@, before[p as int].0@, before[b - 1].0@);
                        }
                    } else if a == p {
                        if p < b - 1 {
                            assert(name_le(before[p as int].0@, before[b - 1].0@));
                            lemma_name_le_transitive(x.0@, before[p as int].0@, before[b - 1].0@);
                        }
                    } else {
                        assert(sorted@[a] == before[a - 1]);
                    }
                }
            }
        }
        i = i + 1;
    }
    assert(all.take(n as int) =~= all);
    assert(stable_arrangement(sorted@, items@, order));
    sorted
}

} // verus!
