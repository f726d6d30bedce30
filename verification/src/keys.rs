//! Identities of records and users.

use vstd::prelude::*;

verus! {

/// A 32-byte identity: the address of a record or of a user.
///
/// Two keys are equal exactly when their bytes are.
#[derive(Clone, Copy, Debug, Eq, Hash)]
pub struct Key {
    pub bytes: [u8; 32],
}

impl Key {
    /// The key made of the given bytes.
    pub fn new(bytes: [u8; 32]) -> (key: Key)
        ensures
            key.bytes == bytes,
    {
        Key { bytes }
    }

    /// The bytes of this key.
    pub fn to_bytes(&self) -> (bytes: [u8; 32])
        ensures
            bytes == self.bytes,
    {
        self.bytes
    }
}

impl PartialEq for Key {
    fn eq(&self, other: &Key) -> (same: bool) {
        let mut i: usize = 0;
        while i < 32
            invariant
                i <= 32,
                forall|j: int| 0 <= j < i ==> self.bytes[j] == other.bytes[j],
            decreases 32 - i,
        {
            if self.bytes[i] != other.bytes[i] {
                return false;
            }
            i += 1;
        }
        proof {
            assert(self.bytes =~= other.bytes);
        }
        true
    }
}

impl vstd::std_specs::cmp::PartialEqSpecImpl for Key {
    open spec fn obeys_eq_spec() -> bool {
        true
    }

    open spec fn eq_spec(&self, other: &Key) -> bool {
        *self == *other
    }
}

} // verus!
