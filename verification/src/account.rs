use vstd::prelude::*;

verus! {

/// The identity of a caller, or the address of a stored record: thirty-two
/// bytes that the host has already authenticated or resolved.
#[derive(Clone, Copy, Debug, PartialEq, Eq)]
pub struct Identity {
    pub bytes: [u8; 32],
}

impl Identity {
    /// Whether two identities hold the same thirty-two bytes.
    pub fn same_as(&self, other: &Identity) -> (r: bool)
        ensures
            r == (*self == *other),
    {
        let mut i: usize = 0;
        while i < 32
            invariant
                i <= 32,
                forall|j: int| 0 <= j < i ==> self.bytes[j] == other.bytes[j],
            decreases 32 - i,
        {
            if self.bytes[i] != other.bytes[i] {
                return false;
            }
            i += 1;
        }
        assert(self.bytes =~= other.bytes);
        true
    }
}

/// A record as the host hands it over: the address under which it is stored,
/// and what is stored there.
#[derive(Clone, Debug, PartialEq, Eq)]
pub struct Account<T> {
    pub key: Identity,
    pub data: T,
}

/// How a gated write ended when it did not fail.
#[derive(Clone, Debug, PartialEq, Eq)]
pub enum UpdateOutcome<E> {
    /// The record was written; the event describes it as it now stands.
    Updated(E),
    /// The change was too small to pay for a write; the record is as before.
    Skipped,
}

} // verus!
