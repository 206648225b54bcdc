//! The two registries of the fetch subsystem: operations that wait to be
//! driven, and responses whose body waits to be read.

use crate::error::Error;
use crate::ids::{IdAllocator, RequestId, FIRST_REQUEST_ID};
use std::collections::HashMap;
use vstd::prelude::*;

verus! {

broadcast use vstd::std_specs::hash::group_hash_axioms;

/// What is registered under an identity until it is driven.
#[derive(Debug, Clone, PartialEq, Eq)]
pub enum PendingOperation<Op> {
    /// Work that has not begun.
    NotStarted(Op),
    /// Work that was called off: driving it yields the cancellation only.
    Cancelled,
}

/// Operations by identity, each there from its submission until it is
/// taken to be driven.
pub struct RequestRegistry<Op> {
    ids: IdAllocator,
    entries: HashMap<RequestId, PendingOperation<Op>>,
}

impl<Op> RequestRegistry<Op> {
    /// The operations that wait, by identity.
    pub closed spec fn entries(&self) -> Map<RequestId, PendingOperation<Op>> {
        self.entries@
    }

    /// The identity that the next submission gets.
    pub closed spec fn upcoming(&self) -> nat {
        self.ids.upcoming()
    }

    /// Whether one more operation can be submitted.
    pub open spec fn spec_has_capacity(&self) -> bool {
        self.upcoming() < u64::MAX
    }

    /// Whether `id` has been handed out.
    pub open spec fn issued(&self, id: RequestId) -> bool {
        FIRST_REQUEST_ID <= id < self.upcoming()
    }

    /// Every identity under which an operation waits has been handed out.
    pub open spec fn wf(&self) -> bool {
        &&& self.upcoming() >= FIRST_REQUEST_ID
        &&& forall|id: RequestId| #[trigger] self.entries().contains_key(id) ==> self.issued(id)
    }

    pub fn new() -> (out: Self)
        ensures
            out.wf(),
            out.entries() == Map::<RequestId, PendingOperation<Op>>::empty(),
            out.upcoming() == FIRST_REQUEST_ID,
    {
        RequestRegistry { ids: IdAllocator::new(), entries: HashMap::new() }
    }

    #[verifier::when_used_as_spec(spec_has_capacity)]
    pub fn has_capacity(&self) -> (out: bool)
        ensures
            out == self.spec_has_capacity(),
    {
        self.ids.has_capacity()
    }

    /// Registers `operation` under a fresh identity and returns the identity.
    pub fn submit(&mut self, operation: Op) -> (id: RequestId)
        requires
            old(self).wf(),
            old(self).spec_has_capacity(),
        ensures
            final(self).wf(),
            id == old(self).upcoming(),
            !old(self).issued(id),
            !old(self).entries().contains_key(id),
            final(self).issued(id),
            final(self).upcoming() == old(self).upcoming() + 1,
            final(self).entries() == old(self).entries().insert(
                id,
                PendingOperation::NotStarted(operation),
            ),
    {
        let id = self.ids.next_id();
        self.entries.insert(id, PendingOperation::NotStarted(operation));
        assert forall|k: RequestId| #[trigger] self.entries().contains_key(k) implies self.issued(
            k,
        ) by {
            if k != id {
                assert(old(self).entries().contains_key(k));
            }
        }
        id
    }

    /// Calls off the operation registered under `id`: it stays registered,
    /// and driving it yields the cancellation.
    pub fn cancel(&mut self, id: RequestId) -> (out: Result<(), Error>)
        requires
            old(self).wf(),
        ensures
            final(self).wf(),
            final(self).upcoming() == old(self).upcoming(),
            old(self).entries().contains_key(id) ==> out == Ok::<(), Error>(())
                && final(self).entries() == old(self).entries().insert(
                id,
                PendingOperation::Cancelled,
            ),
            !old(self).entries().contains_key(id) ==> out == Err::<(), Error>(
                Error::InvalidRequestId(id),
            ) && final(self).entries() == old(self).entries(),
    {
        if self.entries.contains_key(&id) {
            self.entries.insert(id, PendingOperation::Cancelled);
            assert forall|k: RequestId| #[trigger]
                self.entries().contains_key(k) implies self.issued(k) by {
                assert(old(self).entries().contains_key(k));
            }
            Ok(())
        } else {
            Err(Error::InvalidRequestId(id))
        }
    }

    /// Takes the operation registered under `id` out of the registry.
    pub fn take(&mut self, id: RequestId) -> (out: Result<PendingOperation<Op>, Error>)
        requires
            old(self).wf(),
        ensures
            final(self).wf(),
            final(self).upcoming() == old(self).upcoming(),
            final(self).entries() == old(self).entries().remove(id),
            old(self).entries().contains_key(id) ==> out == Ok::<PendingOperation<Op>, Error>(
                old(self).entries()[id],
            ),
            !old(self).entries().contains_key(id) ==> out == Err::<PendingOperation<Op>, Error>(
                Error::InvalidRequestId(id),
            ),
    {
        let taken = self.entries.remove(&id);
        assert forall|k: RequestId| #[trigger] self.entries().contains_key(k) implies self.issued(
            k,
        ) by {
            assert(old(self).entries().contains_key(k));
        }
        match taken {
            Some(operation) => Ok(operation),
            None => Err(Error::InvalidRequestId(id)),
        }
    }
}

/// Resolved responses by identity, each there until its body is read.
pub struct ResponseRegistry<R> {
    entries: HashMap<RequestId, R>,
}

impl<R> ResponseRegistry<R> {
    /// The responses that wait, by identity.
    pub closed spec fn entries(&self) -> Map<RequestId, R> {
        self.entries@
    }

    pub fn new() -> (out: Self)
        ensures
            out.entries() == Map::<RequestId, R>::empty(),
    {
        ResponseRegistry { entries: HashMap::new() }
    }

    /// Registers `response` under `id`, in place of what was there.
    pub fn store(&mut self, id: RequestId, response: R)
        ensures
            final(self).entries() == old(self).entries().insert(id, response),
    {
        self.entries.insert(id, response);
    }

    /// Takes the response registered under `id` out of the registry.
    pub fn take(&mut self, id: RequestId) -> (out: Result<R, Error>)
        ensures
            final(self).entries() == old(self).entries().remove(id),
            old(self).entries().contains_key(id) ==> out == Ok::<R, Error>(old(self).entries()[id]),
            !old(self).entries().contains_key(id) ==> out == Err::<R, Error>(
                Error::InvalidRequestId(id),
            ),
    {
        match self.entries.remove(&id) {
            Some(response) => Ok(response),
            None => Err(Error::InvalidRequestId(id)),
        }
    }
}

} // verus!
