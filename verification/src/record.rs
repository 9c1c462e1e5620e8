use vstd::prelude::*;

verus! {

/// The identity that controls write authority over a record: a 256-bit key,
/// held as two 128-bit halves (`hi` first).
#[derive(Clone, Copy, Debug, PartialEq, Eq, Structural)]
pub struct OwnerId {
    pub hi: u128,
    pub lo: u128,
}

impl OwnerId {
    /// The null sentinel: the all-zero identity, held by records that no
    /// program has claimed.
    pub open spec fn spec_null() -> OwnerId {
        OwnerId { hi: 0, lo: 0 }
    }

    /// True of the null sentinel alone.
    pub open spec fn is_null(self) -> bool {
        self == OwnerId::spec_null()
    }

    /// Returns the null sentinel.
    pub fn null() -> (r: OwnerId)
        ensures
            r == OwnerId::spec_null(),
    {
        OwnerId { hi: 0, lo: 0 }
    }
}

/// A persisted record: a mutable byte buffer together with its current owner
/// identity and its existence weight (the balance that keeps it alive).
pub struct Record {
    pub owner: OwnerId,
    pub lamports: u64,
    pub data: Vec<u8>,
}

impl Record {
    /// An uninitialized record: owned by the null sentinel with no existence
    /// weight.
    pub open spec fn is_uninitialized(self) -> bool {
        self.owner.is_null() && self.lamports == 0
    }

    /// A closed record: reclaimed by the storage layer — no owner, no
    /// weight, no bytes.
    pub open spec fn spec_is_closed(self) -> bool {
        self.owner.is_null() && self.lamports == 0 && self.data@.len() == 0
    }

    /// Whether this record has been closed.
    pub fn is_closed(&self) -> (r: bool)
        ensures
            r == self.spec_is_closed(),
    {
        let null = OwnerId::null();
        self.owner == null && self.lamports == 0 && self.data.len() == 0
    }
}

} // verus!
