//! Allocation of request identities.

use vstd::prelude::*;

verus! {

/// Handle of one submitted fetch operation.
pub type RequestId = u64;

/// The identity handed out by a fresh allocator.
pub const FIRST_REQUEST_ID: u64 = 1;

/// A counter that hands out each identity once, in increasing order.
pub struct IdAllocator {
    next: u64,
}

impl IdAllocator {
    /// The identity that the next allocation returns.
    pub closed spec fn upcoming(&self) -> nat {
        self.next as nat
    }

    /// Whether one more identity can be allocated.
    pub open spec fn spec_has_capacity(&self) -> bool {
        self.upcoming() < u64::MAX
    }

    pub fn new() -> (out: Self)
        ensures
            out.upcoming() == FIRST_REQUEST_ID,
    {
        IdAllocator { next: FIRST_REQUEST_ID }
    }

    #[verifier::when_used_as_spec(spec_has_capacity)]
    pub fn has_capacity(&self) -> (out: bool)
        ensures
            out == self.spec_has_capacity(),
    {
        self.next < u64::MAX
    }

    /// Returns the upcoming identity and moves the counter past it.
    pub fn next_id(&mut self) -> (id: RequestId)
        requires
            old(self).spec_has_capacity(),
        ensures
            id == old(self).upcoming(),
            final(self).upcoming() == old(self).upcoming() + 1,
    {
        let id: u64 = self.next;
        self.next = self.next + 1;
        id
    }
}

} // verus!
