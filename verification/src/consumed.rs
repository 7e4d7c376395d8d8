//! The set of identifiers held by the consumed cells of the token type.

use crate::identifier::Byte32;
use std::collections::BTreeSet;
use vstd::bytes::{
    lemma_auto_spec_u64_to_from_le_bytes, spec_u64_from_le_bytes, spec_u64_to_le_bytes,
    u64_from_le_bytes,
};
use vstd::prelude::*;
use vstd::slice::slice_subrange;

verus! {

broadcast use {vstd::laws_cmp::group_laws_cmp, vstd::std_specs::btree::group_btree_axioms};

/// Four words that stand for one identifier in the ordered set.
pub type Key = (u64, u64, u64, u64);

/// The key of an identifier: its four groups of eight bytes, each read as a
/// little-endian word.
pub open spec fn key_of(id: Seq<u8>) -> Key {
    (
        spec_u64_from_le_bytes(id.subrange(0, 8)),
        spec_u64_from_le_bytes(id.subrange(8, 16)),
        spec_u64_from_le_bytes(id.subrange(16, 24)),
        spec_u64_from_le_bytes(id.subrange(24, 32)),
    )
}

/// Two identifiers with the same key are the same identifier.
pub proof fn key_of_is_injective(a: Seq<u8>, b: Seq<u8>)
    requires
        a.len() == 32,
        b.len() == 32,
        key_of(a) == key_of(b),
    ensures
        a == b,
{
    lemma_auto_spec_u64_to_from_le_bytes();
    assert forall|i: int| 0 <= i < 32 implies a[i] == b[i] by {
        let lo = (i / 8) * 8;
        let wa = a.subrange(lo, lo + 8);
        let wb = b.subrange(lo, lo + 8);
        assert(spec_u64_from_le_bytes(wa) == spec_u64_from_le_bytes(wb));
        assert(wa == spec_u64_to_le_bytes(spec_u64_from_le_bytes(wa)));
        assert(wb == spec_u64_to_le_bytes(spec_u64_from_le_bytes(wb)));
        assert(a[i] == wa[i - lo]);
        assert(b[i] == wb[i - lo]);
    }
    assert(a =~= b);
}

/// An unordered set of identifiers. Membership is all it records: neither
/// the order in which identifiers arrived nor how often.
pub struct ConsumedSet {
    keys: BTreeSet<Key>,
}

impl View for ConsumedSet {
    type V = Set<Seq<u8>>;

    closed spec fn view(&self) -> Set<Seq<u8>> {
        Set::new(|id: Seq<u8>| id.len() == 32 && self.keys@.contains(key_of(id)))
    }
}

fn key_from(id: &Byte32) -> (key: Key)
    ensures
        key == key_of(id@),
{
    let bytes = id.as_slice();
    (
        u64_from_le_bytes(slice_subrange(bytes, 0, 8)),
        u64_from_le_bytes(slice_subrange(bytes, 8, 16)),
        u64_from_le_bytes(slice_subrange(bytes, 16, 24)),
        u64_from_le_bytes(slice_subrange(bytes, 24, 32)),
    )
}

impl ConsumedSet {
    /// The empty set.
    pub fn new() -> (set: ConsumedSet)
        ensures
            set@ == Set::<Seq<u8>>::empty(),
    {
        let set = ConsumedSet { keys: BTreeSet::new() };
        assert(set@ =~= Set::<Seq<u8>>::empty());
        set
    }

    /// Adds an identifier. Adding one that is present changes nothing.
    pub fn insert(&mut self, id: &Byte32)
        ensures
            final(self)@ == old(self)@.insert(id@),
    {
        let key = key_from(id);
        self.keys.insert(key);
        proof {
            assert forall|other: Seq<u8>|
                other.len() == 32 && key_of(other) == key implies other == id@ by {
                key_of_is_injective(other, id@);
            }
            assert(self@ =~= old(self)@.insert(id@));
        }
    }

    /// Whether the identifier is in the set.
    pub fn contains(&self, id: &Byte32) -> (found: bool)
        ensures
            found == self@.contains(id@),
    {
        let key = key_from(id);
        self.keys.contains(&key)
    }
}

} // verus!
