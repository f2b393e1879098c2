//! Ordered maps keyed by an identifier or by a pair of identifiers.

use std::collections::BTreeMap;
use vstd::prelude::*;

verus! {

/// Gives `key` the value `value` and hands out the value that it had.
pub fn insert_pair<V>(map: &mut BTreeMap<(usize, usize), V>, key: (usize, usize), value: V) -> (before:
    Option<V>)
    ensures
        final(map)@ == old(map)@.insert(key, value),
        match before {
            Some(v) => old(map)@.contains_key(key) && v == old(map)@[key],
            None => !old(map)@.contains_key(key),
        },
{
    proof {
        broadcast use vstd::std_specs::btree::group_btree_axioms;
        broadcast use vstd::laws_cmp::group_laws_cmp;

    }
    map.insert(key, value)
}

/// Takes `key` out of the map and hands out the value that it had.
pub fn remove_pair<V>(map: &mut BTreeMap<(usize, usize), V>, key: (usize, usize)) -> (before: Option<V>)
    ensures
        final(map)@ == old(map)@.remove(key),
        match before {
            Some(v) => old(map)@.contains_key(key) && v == old(map)@[key],
            None => !old(map)@.contains_key(key),
        },
{
    proof {
        broadcast use vstd::std_specs::btree::group_btree_axioms;
        broadcast use vstd::laws_cmp::group_laws_cmp;

    }
    map.remove(&key)
}

/// The value of `key`.
pub fn get_pair<V>(map: &BTreeMap<(usize, usize), V>, key: (usize, usize)) -> (value: Option<&V>)
    ensures
        match value {
            Some(v) => map@.contains_key(key) && *v == map@[key],
            None => !map@.contains_key(key),
        },
{
    proof {
        broadcast use vstd::std_specs::btree::group_btree_axioms;
        broadcast use vstd::laws_cmp::group_laws_cmp;

    }
    map.get(&key)
}

/// Gives `key` the value `value` and hands out the value that it had.
pub fn insert_one<V>(map: &mut BTreeMap<usize, V>, key: usize, value: V) -> (before: Option<V>)
    ensures
        final(map)@ == old(map)@.insert(key, value),
        match before {
            Some(v) => old(map)@.contains_key(key) && v == old(map)@[key],
            None => !old(map)@.contains_key(key),
        },
{
    proof {
        broadcast use vstd::std_specs::btree::group_btree_axioms;
        broadcast use vstd::laws_cmp::group_laws_cmp;

    }
    map.insert(key, value)
}

/// Takes `key` out of the map and hands out the value that it had.
pub fn remove_one<V>(map: &mut BTreeMap<usize, V>, key: usize) -> (before: Option<V>)
    ensures
        final(map)@ == old(map)@.remove(key),
        match before {
            Some(v) => old(map)@.contains_key(key) && v == old(map)@[key],
            None => !old(map)@.contains_key(key),
        },
{
    proof {
        broadcast use vstd::std_specs::btree::group_btree_axioms;
        broadcast use vstd::laws_cmp::group_laws_cmp;

    }
    map.remove(&key)
}

/// The value of `key`.
pub fn get_one<V>(map: &BTreeMap<usize, V>, key: usize) -> (value: Option<&V>)
    ensures
        match value {
            Some(v) => map@.contains_key(key) && *v == map@[key],
            None => !map@.contains_key(key),
        },
{
    proof {
        broadcast use vstd::std_specs::btree::group_btree_axioms;
        broadcast use vstd::laws_cmp::group_laws_cmp;

    }
    map.get(&key)
}

} // verus!
