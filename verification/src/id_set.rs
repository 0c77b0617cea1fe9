//! Sets of object ids.
use std::collections::HashSet;
use vstd::prelude::*;
use vstd::std_specs::hash::spec_hash_keys_iter;
use vstd::std_specs::iter::IteratorSpec;

verus! {

broadcast use vstd::std_specs::hash::group_hash_axioms;

/// The ids of `s`, each once, in the order in which the set hands them out.
pub fn set_items(s: &HashSet<u64>) -> (r: Vec<u64>)
    ensures
        r@.no_duplicates(),
        r@.to_set() == s@,
        r@.len() == s@.len(),
{
    let ghost all = spec_hash_keys_iter(s).remaining().map_values(|p: &u64| *p);
    assert(all =~= spec_hash_keys_iter(s).remaining().unref());
    let mut r: Vec<u64> = Vec::new();
    for x in it: s.iter()
        invariant
            it.seq().map_values(|p: &u64| *p) == all,
            r@ == all.take(it.index() as int),
    {
        r.push(*x);
        assert(r@ =~= all.take(it.index() + 1));
    }
    assert(r@ =~= all);
    r
}

} // verus!
