//! The store's laws, stated once over its abstract map and shard views and
//! proved for every key and value.

use vstd::prelude::*;

use crate::hash::spec_shard_index;
use crate::store::ShardSet;

verus! {

/// Law: a `set(k, v)` is observed by every later `get(k)`, from the same or
/// any other connection, until `k` is overwritten: after the write the store
/// maps `k` to `v`.
pub proof fn lemma_set_then_get(m: Map<Seq<u8>, Seq<u8>>, k: Seq<u8>, v: Seq<u8>)
    ensures
        m.insert(k, v).contains_key(k),
        m.insert(k, v)[k] == v,
{
}

/// Law: a write to one key disturbs no other: any later `get(k)` sees what
/// it saw before a `set(k2, v)` of a different key.
pub proof fn lemma_set_other_key_unchanged(
    m: Map<Seq<u8>, Seq<u8>>,
    k: Seq<u8>,
    k2: Seq<u8>,
    v: Seq<u8>,
)
    requires
        k2 != k,
    ensures
        m.insert(k2, v).contains_key(k) == m.contains_key(k),
        m.contains_key(k) ==> m.insert(k2, v)[k] == m[k],
{
}

/// Law: a key never written is absent: a fresh store holds nothing, and
/// writing other keys never makes `k` appear, so `get(k)` reads out as
/// "absent" — by `get`'s contract an `Option` with no value, never an error.
pub proof fn lemma_unwritten_key_absent(
    m: Map<Seq<u8>, Seq<u8>>,
    k: Seq<u8>,
    k2: Seq<u8>,
    v: Seq<u8>,
)
    requires
        k2 != k,
    ensures
        !Map::<Seq<u8>, Seq<u8>>::empty().contains_key(k),
        !m.contains_key(k) ==> !m.insert(k2, v).contains_key(k),
{
}

/// Law (contention isolation): a write whose key hashes to one shard leaves
/// the shard of any key that hashes elsewhere untouched, byte for byte —
/// operations on keys in different shards proceed without mutual blocking.
/// `post` is any store that a `set(k1, v1)` on `pre` can produce, described
/// by exactly what `ShardSet::set` ensures of the untouched shards.
pub proof fn lemma_shard_isolation(
    pre: &ShardSet,
    post: &ShardSet,
    k1: Seq<u8>,
    k2: Seq<u8>,
)
    requires
        pre.wf(),
        post.spec_shard_count() == pre.spec_shard_count(),
        spec_shard_index(k2, pre.spec_shard_count()) != spec_shard_index(
            k1,
            pre.spec_shard_count(),
        ),
        forall|j: int|
            0 <= j < pre.spec_shard_count() && j != spec_shard_index(
                k1,
                pre.spec_shard_count(),
            ) ==> post.shard_map(j) == pre.shard_map(j),
    ensures
        post.shard_map(spec_shard_index(k2, pre.spec_shard_count())) == pre.shard_map(
            spec_shard_index(k2, pre.spec_shard_count()),
        ),
{
    pre.lemma_wf_positive_count();
    vstd::arithmetic::div_mod::lemma_mod_division_less_than_divisor(
        crate::hash::spec_hash(k2) as int,
        pre.spec_shard_count(),
    );
}

/// Law (per-key atomicity): two writes racing on one key leave the store
/// holding exactly the value of whichever was applied last — one of the two
/// written values whole, never a mixture or a partial value.
pub proof fn lemma_racing_sets(m: Map<Seq<u8>, Seq<u8>>, k: Seq<u8>, v1: Seq<u8>, v2: Seq<u8>)
    ensures
        m.insert(k, v1).insert(k, v2)[k] == v2,
        m.insert(k, v2).insert(k, v1)[k] == v1,
{
}

} // verus!
