//! The sharded in-memory store.
//!
//! A [`Shard`] is one independently lockable partition of the key space: a
//! mapping from byte-string keys to byte-string values, viewed abstractly as
//! a `Map<Seq<u8>, Seq<u8>>`. A [`ShardSet`] is a fixed-length collection of
//! shards created once at startup and never resized; every key lives in
//! exactly one shard, chosen by the deterministic hash of its bytes modulo
//! the shard count.

use vstd::prelude::*;

use crate::hash::shard_index;
use crate::hash::spec_shard_index;

verus! {

/// The value bound to key `k` by the entry list `s`, scanning from index `i`:
/// the first entry whose key equals `k` wins.
pub open spec fn spec_lookup_from(
    s: Seq<(Vec<u8>, Vec<u8>)>,
    i: int,
    k: Seq<u8>,
) -> Option<Seq<u8>>
    decreases s.len() - i,
{
    if i < 0 || i >= s.len() {
        None
    } else if s[i].0@ == k {
        Some(s[i].1@)
    } else {
        spec_lookup_from(s, i + 1, k)
    }
}

/// The value bound to key `k` by the entry list `s`.
pub open spec fn spec_lookup(s: Seq<(Vec<u8>, Vec<u8>)>, k: Seq<u8>) -> Option<Seq<u8>> {
    spec_lookup_from(s, 0, k)
}

/// One partition of the key space: an insert-or-overwrite mapping from key
/// bytes to value bytes.
pub struct Shard {
    entries: Vec<(Vec<u8>, Vec<u8>)>,
}

impl View for Shard {
    type V = Map<Seq<u8>, Seq<u8>>;

    closed spec fn view(&self) -> Map<Seq<u8>, Seq<u8>> {
        Map::new(
            |k: Seq<u8>| spec_lookup(self.entries@, k).is_some(),
            |k: Seq<u8>| spec_lookup(self.entries@, k).unwrap(),
        )
    }
}

/// A scan that stops at the first match agrees with `spec_lookup_from` when
/// nothing before the match position matches.
proof fn lemma_lookup_at(s: Seq<(Vec<u8>, Vec<u8>)>, k: Seq<u8>, i: int, a: int)
    requires
        0 <= a <= i < s.len(),
        s[i].0@ == k,
        forall|j: int| a <= j < i ==> s[j].0@ != k,
    ensures
        spec_lookup_from(s, a, k) == Some(s[i].1@),
    decreases i - a,
{
    if a < i {
        lemma_lookup_at(s, k, i, a + 1);
    }
}

/// When no entry from position `a` on has key `k`, the scan finds nothing.
proof fn lemma_lookup_none(s: Seq<(Vec<u8>, Vec<u8>)>, k: Seq<u8>, a: int)
    requires
        0 <= a,
        forall|j: int| a <= j < s.len() ==> s[j].0@ != k,
    ensures
        spec_lookup_from(s, a, k) is None,
    decreases s.len() - a,
{
    if a < s.len() {
        lemma_lookup_none(s, k, a + 1);
    }
}

/// Two entry lists of the same length that match `k` at the same positions,
/// with the same values where they match, look `k` up to the same result.
proof fn lemma_lookup_congruent(
    s1: Seq<(Vec<u8>, Vec<u8>)>,
    s2: Seq<(Vec<u8>, Vec<u8>)>,
    k: Seq<u8>,
    a: int,
)
    requires
        s1.len() == s2.len(),
        0 <= a,
        forall|j: int| a <= j < s1.len() ==> ((s1[j].0@ == k) <==> (s2[j].0@ == k)),
        forall|j: int| a <= j < s1.len() && s1[j].0@ == k ==> s1[j].1@ == s2[j].1@,
    ensures
        spec_lookup_from(s1, a, k) == spec_lookup_from(s2, a, k),
    decreases s1.len() - a,
{
    if a < s1.len() && s1[a].0@ != k {
        lemma_lookup_congruent(s1, s2, k, a + 1);
    }
}

/// Appending an entry whose key is not `k` leaves the lookup of `k` as it was.
proof fn lemma_lookup_push_other(
    s: Seq<(Vec<u8>, Vec<u8>)>,
    e: (Vec<u8>, Vec<u8>),
    k: Seq<u8>,
    a: int,
)
    requires
        0 <= a,
        e.0@ != k,
    ensures
        spec_lookup_from(s.push(e), a, k) == spec_lookup_from(s, a, k),
    decreases s.len() + 1 - a,
{
    if a < s.len() {
        assert(s.push(e)[a] == s[a]);
        if s[a].0@ != k {
            lemma_lookup_push_other(s, e, k, a + 1);
        }
    } else if a == s.len() {
        assert(s.push(e)[a] == e);
        assert(spec_lookup_from(s.push(e), a + 1, k) is None);
        assert(spec_lookup_from(s, a, k) is None);
    }
}

/// Whether two byte strings hold the same bytes.
fn bytes_eq(a: &Vec<u8>, b: &Vec<u8>) -> (r: bool)
    ensures
        r == (a@ == b@),
{
    if a.len() != b.len() {
        return false;
    }
    let mut i: usize = 0;
    while i < a.len()
        invariant
            i <= a@.len(),
            a@.len() == b@.len(),
            forall|j: int| 0 <= j < i ==> a@[j] == b@[j],
        decreases a@.len() - i,
    {
        if a[i] != b[i] {
            return false;
        }
        i = i + 1;
    }
    proof {
        assert(a@ =~= b@);
    }
    true
}

impl Shard {
    /// A fresh, empty shard.
    pub fn new() -> (s: Shard)
        ensures
            s@ == Map::<Seq<u8>, Seq<u8>>::empty(),
    {
        let s = Shard { entries: Vec::new() };
        proof {
            assert forall|k: Seq<u8>| !(#[trigger] spec_lookup(s.entries@, k)).is_some() by {
                assert(spec_lookup_from(s.entries@, 0, k) is None);
            }
            assert(s@ =~= Map::<Seq<u8>, Seq<u8>>::empty());
        }
        s
    }

    /// The position of the first entry holding `key`, if any.
    fn find(&self, key: &Vec<u8>) -> (r: Option<usize>)
        ensures
            match r {
                Some(i) => i < self.entries@.len() && self.entries@[i as int].0@ == key@
                    && forall|j: int| 0 <= j < i ==> self.entries@[j].0@ != key@,
                None => forall|j: int|
                    0 <= j < self.entries@.len() ==> self.entries@[j].0@ != key@,
            },
    {
        let mut i: usize = 0;
        while i < self.entries.len()
            invariant
                i <= self.entries@.len(),
                forall|j: int| 0 <= j < i ==> self.entries@[j].0@ != key@,
            decreases self.entries@.len() - i,
        {
            let e = &self.entries[i];
            if bytes_eq(&e.0, key) {
                return Some(i);
            }
            i = i + 1;
        }
        None
    }

    /// Look `key` up; a returned value is a copy of the stored bytes, never
    /// an alias into the shard.
    pub fn get(&self, key: &Vec<u8>) -> (r: Option<Vec<u8>>)
        ensures
            match r {
                Some(v) => self@.contains_key(key@) && v@ == self@[key@],
                None => !self@.contains_key(key@),
            },
    {
        match self.find(key) {
            Some(i) => {
                let v = self.entries[i].1.clone();
                proof {
                    lemma_lookup_at(self.entries@, key@, i as int, 0);
                    assert(v@ =~= self.entries@[i as int].1@);
                }
                Some(v)
            },
            None => {
                proof {
                    lemma_lookup_none(self.entries@, key@, 0);
                }
                None
            },
        }
    }

    /// Insert or overwrite: afterwards the shard maps `key` to `val` and no
    /// other binding has changed.
    pub fn set(&mut self, key: Vec<u8>, val: Vec<u8>)
        ensures
            final(self)@ == old(self)@.insert(key@, val@),
    {
        let ghost gkey = key@;
        let ghost gval = val@;
        let ghost s_old = self.entries@;
        match self.find(&key) {
            Some(i) => {
                self.entries.remove(i);
                self.entries.insert(i, (key, val));
                proof {
                    let s_new = self.entries@;
                    assert(s_new =~= s_old.update(i as int, s_new[i as int]));
                    assert(s_new[i as int].0@ == gkey);
                    assert(s_new[i as int].1@ == gval);
                    assert forall|k2: Seq<u8>|
                        #[trigger] spec_lookup(s_new, k2) == (if k2 == gkey {
                            Some(gval)
                        } else {
                            spec_lookup(s_old, k2)
                        }) by {
                        if k2 == gkey {
                            lemma_lookup_at(s_new, k2, i as int, 0);
                        } else {
                            lemma_lookup_congruent(s_old, s_new, k2, 0);
                        }
                    }
                    assert(self@ =~= old(self)@.insert(gkey, gval));
                }
            },
            None => {
                self.entries.push((key, val));
                proof {
                    let s_new = self.entries@;
                    let e = s_new[s_old.len() as int];
                    assert(e.0@ == gkey);
                    assert(e.1@ == gval);
                    assert forall|k2: Seq<u8>|
                        #[trigger] spec_lookup(s_new, k2) == (if k2 == gkey {
                            Some(gval)
                        } else {
                            spec_lookup(s_old, k2)
                        }) by {
                        if k2 == gkey {
                            assert forall|j: int| 0 <= j < s_old.len() implies s_new[j].0@ != k2 by {
                                assert(s_new[j] == s_old[j]);
                            }
                            lemma_lookup_at(s_new, k2, s_old.len() as int, 0);
                        } else {
                            lemma_lookup_push_other(s_old, e, k2, 0);
                        }
                    }
                    assert(self@ =~= old(self)@.insert(gkey, gval));
                }
            },
        }
    }
}

/// The fixed, ordered collection of shards that owns all stored data. Shared
/// by every connection handler; created once at startup, never resized.
pub struct ShardSet {
    shards: Vec<Shard>,
}

impl View for ShardSet {
    type V = Map<Seq<u8>, Seq<u8>>;

    closed spec fn view(&self) -> Map<Seq<u8>, Seq<u8>> {
        Map::new(
            |k: Seq<u8>| self.shards@[spec_shard_index(k, self.shards@.len() as int)]@
                .contains_key(k),
            |k: Seq<u8>| self.shards@[spec_shard_index(k, self.shards@.len() as int)]@[k],
        )
    }
}

impl ShardSet {
    /// How many shards the set was created with.
    pub closed spec fn spec_shard_count(&self) -> int {
        self.shards@.len() as int
    }

    /// A shard set is well formed when it holds at least one shard.
    pub closed spec fn wf(&self) -> bool {
        self.shards@.len() > 0
    }

    /// The abstract contents of shard `i`, for stating that operations on
    /// one shard leave every other shard untouched.
    pub closed spec fn shard_map(&self, i: int) -> Map<Seq<u8>, Seq<u8>> {
        self.shards@[i]@
    }

    /// A well-formed shard set holds at least one shard.
    pub proof fn lemma_wf_positive_count(&self)
        requires
            self.wf(),
        ensures
            self.spec_shard_count() > 0,
    {
    }

    /// Create `shard_count` independent empty shards.
    pub fn new(shard_count: usize) -> (s: ShardSet)
        requires
            shard_count > 0,
        ensures
            s.wf(),
            s.spec_shard_count() == shard_count,
            s@ == Map::<Seq<u8>, Seq<u8>>::empty(),
    {
        let mut shards: Vec<Shard> = Vec::new();
        let mut i: usize = 0;
        while i < shard_count
            invariant
                i <= shard_count,
                shards@.len() == i,
                forall|j: int| 0 <= j < i ==> #[trigger] shards@[j]@ =~= Map::<
                    Seq<u8>,
                    Seq<u8>,
                >::empty(),
            decreases shard_count - i,
        {
            shards.push(Shard::new());
            i = i + 1;
        }
        let s = ShardSet { shards };
        proof {
            assert forall|k: Seq<u8>| !(#[trigger] s@.dom().contains(k)) by {
                vstd::arithmetic::div_mod::lemma_mod_division_less_than_divisor(
                    crate::hash::spec_hash(k) as int,
                    shard_count as int,
                );
            }
            assert(s@ =~= Map::<Seq<u8>, Seq<u8>>::empty());
        }
        s
    }

    /// Look `key` up in the one shard that can hold it.
    pub fn get(&self, key: &Vec<u8>) -> (r: Option<Vec<u8>>)
        requires
            self.wf(),
        ensures
            match r {
                Some(v) => self@.contains_key(key@) && v@ == self@[key@],
                None => !self@.contains_key(key@),
            },
    {
        let i = shard_index(key, self.shards.len());
        let sh = &self.shards[i];
        sh.get(key)
    }

    /// Insert or overwrite `key` in the one shard that holds it; every other
    /// shard is left exactly as it was.
    pub fn set(&mut self, key: Vec<u8>, val: Vec<u8>)
        requires
            old(self).wf(),
        ensures
            final(self).wf(),
            final(self).spec_shard_count() == old(self).spec_shard_count(),
            final(self)@ == old(self)@.insert(key@, val@),
            forall|j: int|
                0 <= j < old(self).spec_shard_count() && j != spec_shard_index(
                    key@,
                    old(self).spec_shard_count(),
                ) ==> final(self).shard_map(j) == old(self).shard_map(j),
    {
        let ghost gkey = key@;
        let ghost gval = val@;
        let ghost count = self.shards@.len() as int;
        let i = shard_index(&key, self.shards.len());
        let sh = &mut self.shards[i];
        sh.set(key, val);
        proof {
            assert forall|k2: Seq<u8>|
                (#[trigger] self@.dom().contains(k2) <==> old(self)@.insert(
                    gkey,
                    gval,
                ).dom().contains(k2)) && (self@.dom().contains(k2) ==> self@[k2] == old(
                    self,
                )@.insert(gkey, gval)[k2]) by {
                vstd::arithmetic::div_mod::lemma_mod_division_less_than_divisor(
                    crate::hash::spec_hash(k2) as int,
                    count,
                );
            }
            assert(self@ =~= old(self)@.insert(gkey, gval));
        }
    }
}

} // verus!
