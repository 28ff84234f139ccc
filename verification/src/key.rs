//! Identity keys.

use vstd::prelude::*;

verus! {

/// A 32-byte identity key. It names the owner of a record, the caller of an
/// operation, or the address under which a record is stored.
#[derive(Clone, Copy, Debug)]
pub struct IdentityKey {
    pub bytes: [u8; 32],
}

impl View for IdentityKey {
    type V = Seq<u8>;

    open spec fn view(&self) -> Seq<u8> {
        self.bytes@
    }
}

impl IdentityKey {
    /// The key made of the given bytes.
    pub fn new(bytes: [u8; 32]) -> (key: IdentityKey)
        ensures
            key.bytes == bytes,
            key@ == bytes@,
    {
        IdentityKey { bytes }
    }

    /// The bytes of the key.
    pub fn to_bytes(&self) -> (bytes: [u8; 32])
        ensures
            bytes == self.bytes,
            bytes@ == self@,
    {
        self.bytes
    }

    /// Whether two keys hold the same bytes.
    pub fn same_as(&self, other: &IdentityKey) -> (same: bool)
        ensures
            same == (self@ == other@),
    {
        let mut i: usize = 0;
        while i < 32
            invariant
                i <= 32,
                forall|j: int| 0 <= j < i ==> self.bytes@[j] == other.bytes@[j],
            decreases 32 - i,
        {
            if self.bytes[i] != other.bytes[i] {
                return false;
            }
            i += 1;
        }
        assert(self.bytes@ =~= other.bytes@);
        true
    }
}

impl PartialEq for IdentityKey {
    fn eq(&self, other: &IdentityKey) -> (same: bool) {
        self.same_as(other)
    }
}

impl Eq for IdentityKey {

}

impl vstd::std_specs::cmp::PartialEqSpecImpl for IdentityKey {
    open spec fn obeys_eq_spec() -> bool {
        true
    }

    open spec fn eq_spec(&self, other: &IdentityKey) -> bool {
        self@ == other@
    }
}

} // verus!
