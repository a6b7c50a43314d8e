use vstd::prelude::*;

verus! {

/// A 32-byte account key of the host ledger.
#[derive(Clone, Copy, Debug)]
pub struct Identity {
    pub key: [u8; 32],
}

impl Identity {
    pub fn new(key: [u8; 32]) -> (r: Identity)
        ensures
            r.key == key,
    {
        Identity { key }
    }

    /// Compares two keys byte by byte.
    pub fn same_as(&self, other: &Identity) -> (r: bool)
        ensures
            r == (*self == *other),
    {
        let mut i: usize = 0;
        while i < 32
            invariant
                0 <= i <= 32,
                forall|j: int| 0 <= j < i ==> self.key[j] == other.key[j],
            decreases 32 - i,
        {
            if self.key[i] != other.key[i] {
                return false;
            }
            i = i + 1;
        }
        proof {
            assert(self.key =~= other.key);
        }
        true
    }
}

} // verus!
