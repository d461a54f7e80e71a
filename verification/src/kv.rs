//! A small verified key-value store over a vector of pairs.
//!
//! It models the ledger's per-account mappings: an absent key reads as zero,
//! and writing a key shadows any earlier entry for it.  Lookups return the
//! value of the most recent write.

use vstd::prelude::*;

verus! {

/// The value bound to `key` in `entries`: the value of the earliest pair
/// whose key matches, or `0` when no pair matches.  Writers place new pairs
/// at the front, so the earliest match is the most recent write.
pub open spec fn kv_lookup(entries: Seq<(u128, u128)>, key: u128) -> u128
    decreases entries.len(),
{
    if entries.len() == 0 {
        0
    } else if entries[0].0 == key {
        entries[0].1
    } else {
        kv_lookup(entries.drop_first(), key)
    }
}

/// Read the value bound to `key`; absent keys read as zero.
pub fn kv_get(entries: &Vec<(u128, u128)>, key: u128) -> (value: u128)
    ensures
        value == kv_lookup(entries@, key),
{
    let mut i: usize = 0;
    proof {
        assert(entries@.skip(0) =~= entries@);
    }
    while i < entries.len()
        invariant
            i <= entries@.len(),
            kv_lookup(entries@, key) == kv_lookup(entries@.skip(i as int), key),
        decreases entries@.len() - i,
    {
        proof {
            assert(entries@.skip(i as int)[0] == entries@[i as int]);
            assert(entries@.skip(i as int).drop_first() =~= entries@.skip(i as int + 1));
        }
        if entries[i].0 == key {
            return entries[i].1;
        }
        i = i + 1;
    }
    proof {
        assert(entries@.skip(i as int) =~= Seq::<(u128, u128)>::empty());
    }
    0
}

/// Bind `key` to `value`, leaving every other key's binding unchanged.
pub fn kv_set(entries: &mut Vec<(u128, u128)>, key: u128, value: u128)
    ensures
        kv_lookup(final(entries)@, key) == value,
        forall|k: u128| k != key ==> kv_lookup(final(entries)@, k) == kv_lookup(old(entries)@, k),
{
    entries.insert(0, (key, value));
    proof {
        assert(entries@.drop_first() =~= old(entries)@);
    }
}

} // verus!
