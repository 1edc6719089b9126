//! Generators for containers: a bounded count of independently generated
//! elements, each produced with the same size factor. Only the count of
//! elements shrinks with the size policy, never the size handed down.

use vstd::prelude::*;

use core::hash::Hash;
use std::collections::HashMap;

use crate::sizing::small_n;
use crate::Arbitrary;

verus! {

/// Like Vec<T> but never empty.
#[derive(PartialEq, Eq, Clone, Debug)]
pub struct NonEmptyVec<T>(pub Vec<T>);

/// Produce `count` independently generated elements of type T, each scaled
/// by the same size factor `sz`.
pub fn arbiter<T: Arbitrary>(count: usize, sz: usize) -> (v: Vec<T>)
    ensures
        v@.len() == count,
        forall|i: int| 0 <= i < v@.len() ==> v@[i].fits(sz as nat),
{
    let mut v: Vec<T> = Vec::new();
    while v.len() < count
        invariant
            v@.len() <= count,
            forall|i: int| 0 <= i < v@.len() ==> v@[i].fits(sz as nat),
        decreases count - v@.len(),
    {
        v.push(T::arbitrary(sz));
    }
    v
}

impl<T: Arbitrary> Arbitrary for Vec<T> {
    /// At most `16 * size` elements, each of which satisfies its own
    /// guarantee at the same size factor.
    open spec fn fits(self, size: nat) -> bool {
        &&& self@.len() <= 16 * size
        &&& forall|i: int| 0 <= i < self@.len() ==> self@[i].fits(size)
    }

    fn arbitrary(sz: usize) -> (r: Vec<T>) {
        arbiter(small_n(sz), sz)
    }
}

impl<T: Arbitrary> Arbitrary for NonEmptyVec<T> {
    /// At least one element and at most `16 * size + 1`, each of which
    /// satisfies its own guarantee at the same size factor.
    open spec fn fits(self, size: nat) -> bool {
        &&& 1 <= self.0@.len() <= 16 * size + 1
        &&& forall|i: int| 0 <= i < self.0@.len() ==> self.0@[i].fits(size)
    }

    fn arbitrary(sz: usize) -> (r: NonEmptyVec<T>) {
        let n = small_n(sz).saturating_add(1);
        NonEmptyVec(arbiter(n, sz))
    }
}

impl<K: Arbitrary + Eq + Hash, V: Arbitrary> Arbitrary for HashMap<K, V> {
    /// Entry count at most `16 * size`: duplicate generated keys overwrite
    /// the prior value, so the final count may fall short of the drawn
    /// count. Every key and value satisfies its own guarantee. The model
    /// applies when the key type obeys the hash-table key model, as every
    /// primitive key type does.
    open spec fn fits(self, size: nat) -> bool {
        vstd::std_specs::hash::obeys_key_model::<K>() ==> {
            &&& self@.dom().finite()
            &&& self@.len() <= 16 * size
            &&& forall|k: K| #[trigger] self@.dom().contains(k) ==> k.fits(size) && self@[k].fits(
                size,
            )
        }
    }

    fn arbitrary(sz: usize) -> (r: HashMap<K, V>) {
        let n = small_n(sz);
        let mut m: HashMap<K, V> = HashMap::new();
        let mut i: usize = 0;
        while i < n
            invariant
                i <= n,
                n <= 16 * sz,
                vstd::std_specs::hash::obeys_key_model::<K>() ==> {
                    &&& m@.dom().finite()
                    &&& m@.len() <= i
                    &&& forall|k: K| #[trigger] m@.dom().contains(k) ==> k.fits(sz as nat)
                        && m@[k].fits(sz as nat)
                },
            decreases n - i,
        {
            let k = K::arbitrary(sz);
            let v = V::arbitrary(sz);
            m.insert(k, v);
            i = i + 1;
        }
        m
    }
}

/// No two entries of a generated mapping share an equal key: the model of a
/// mapping keys each entry by its key alone, so entries with equal keys are
/// one and the same entry, whatever size the mapping was generated at.
pub proof fn lemma_mapping_keys_unique<K: Arbitrary + Eq + Hash, V: Arbitrary>(
    m: HashMap<K, V>,
    k1: K,
    k2: K,
)
    requires
        m@.dom().contains(k1),
        m@.dom().contains(k2),
        k1 == k2,
    ensures
        m@[k1] == m@[k2],
{
}

} // verus!
