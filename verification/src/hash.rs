//! Deterministic key hashing and shard selection.
//!
//! Every key is placed in exactly one shard for the life of the process:
//! the shard index is a deterministic 64-bit hash of the key's bytes,
//! reduced modulo the fixed shard count.

use vstd::prelude::*;

verus! {

/// Offset basis of the 64-bit FNV-1a hash.
pub const FNV_OFFSET: u64 = 0xcbf29ce484222325;

/// Prime multiplier of the 64-bit FNV-1a hash.
pub const FNV_PRIME: u64 = 0x100000001b3;

/// One FNV-1a round: fold byte `b` into state `h`.
pub open spec fn spec_hash_step(h: u64, b: u8) -> u64 {
    vstd::wrapping::u64_specs::wrapping_mul(h ^ (b as u64), FNV_PRIME)
}

/// Hash state after folding in `s[i..]`, starting from state `h`.
pub open spec fn spec_hash_from(s: Seq<u8>, i: int, h: u64) -> u64
    decreases s.len() - i,
{
    if i < 0 || i >= s.len() {
        h
    } else {
        spec_hash_from(s, i + 1, spec_hash_step(h, s[i]))
    }
}

/// The deterministic hash of a whole key.
pub open spec fn spec_hash(s: Seq<u8>) -> u64 {
    spec_hash_from(s, 0, FNV_OFFSET)
}

/// The shard that holds key `s` in a set of `count` shards.
pub open spec fn spec_shard_index(s: Seq<u8>, count: int) -> int {
    spec_hash(s) as int % count
}

/// Hash a key's bytes with 64-bit FNV-1a.
pub fn hash_key(key: &Vec<u8>) -> (h: u64)
    ensures
        h == spec_hash(key@),
{
    let mut h: u64 = FNV_OFFSET;
    let mut i: usize = 0;
    while i < key.len()
        invariant
            0 <= i <= key@.len(),
            spec_hash_from(key@, i as int, h) == spec_hash(key@),
        decreases key@.len() - i,
    {
        h = (h ^ (key[i] as u64)).wrapping_mul(FNV_PRIME);
        i = i + 1;
    }
    h
}

/// Select the shard of `key` among `count` shards.
pub fn shard_index(key: &Vec<u8>, count: usize) -> (i: usize)
    requires
        count > 0,
    ensures
        i == spec_shard_index(key@, count as int),
        i < count,
{
    let h = hash_key(key);
    (h % (count as u64)) as usize
}

} // verus!
