//! Walking a hash map keyed by numbers.

use std::collections::HashMap;
use vstd::prelude::*;
use vstd::std_specs::iter::IteratorSpec;

verus! {

broadcast use vstd::std_specs::hash::group_hash_axioms;

/// Whether `keys` lists the keys of a map, each once.
pub open spec fn lists_keys<V>(keys: Seq<u64>, map: Map<u64, V>) -> bool {
    &&& keys.no_duplicates()
    &&& keys.to_set() == map.dom()
}

/// Keys of a map, each once, in the order the map is walked.
pub fn map_keys<V>(map: &HashMap<u64, V>) -> (keys: Vec<u64>)
    ensures
        lists_keys(keys@, map@),
{
    let mut keys: Vec<u64> = Vec::new();
    for key in iter: map.keys()
        invariant
            keys@ == iter.seq().unref().take(iter.index()),
            iter.seq() == vstd::std_specs::hash::spec_keys_iter(map).remaining(),
    {
        keys.push(*key);
        proof {
            assert(keys@ =~= iter.seq().unref().take(iter.index() + 1));
        }
    }
    proof {
        let all = vstd::std_specs::hash::spec_keys_iter(map).remaining();
        assert(keys@ =~= all.unref());
        assert(all.no_duplicates());
        assert forall|i: int, j: int| 0 <= i < keys@.len() && 0 <= j < keys@.len() && i != j implies
            keys@[i] != keys@[j] by {
            assert(all[i] != all[j]);
        }
    }
    keys
}

} // verus!
