//! Maps keyed by node numbers.

use std::collections::HashMap;

use vstd::prelude::*;
use vstd::std_specs::iter::IteratorSpec;

verus! {

/// The keys of a map, each once, in no particular order.
pub(crate) fn keys_of<V>(map: &HashMap<usize, V>) -> (r: Vec<usize>)
    ensures
        r@.no_duplicates(),
        r@.to_set() == map@.dom(),
{
    broadcast use vstd::std_specs::hash::group_hash_axioms;

    let mut keys: Vec<usize> = Vec::new();
    let iter = map.keys();
    let ghost all = iter.remaining().unref();
    for key in it: iter
        invariant
            it.seq().unref() == all,
            keys@ == all.take(it.index() as int),
    {
        keys.push(*key);
    }
    proof {
        assert(all.take(all.len() as int) == all);
    }
    keys
}

/// The value of a key.
pub(crate) fn lookup<V: Copy>(map: &HashMap<usize, V>, key: usize) -> (r: Option<V>)
    ensures
        r == (if map@.contains_key(key) {
            Some(map@[key])
        } else {
            None
        }),
{
    broadcast use vstd::std_specs::hash::group_hash_axioms;

    match map.get(&key) {
        Some(value) => Some(*value),
        None => None,
    }
}

} // verus!
