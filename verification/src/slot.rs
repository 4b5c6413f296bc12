//! The handle slot: the single storage location of a supervisor, holding at
//! most one live resource handle.

use vstd::prelude::*;

verus! {

/// Storage for at most one live handle of type `H`.
pub struct HandleSlot<H> {
    held: Option<H>,
}

impl<H> HandleSlot<H> {
    /// The handle that the slot holds, if any.
    pub closed spec fn holding(&self) -> Option<H> {
        self.held
    }

    /// Whether the slot holds a handle.
    pub open spec fn occupied(&self) -> bool {
        self.holding().is_some()
    }

    /// An empty slot.
    pub fn new() -> (slot: Self)
        ensures
            slot.holding() == None::<H>,
    {
        HandleSlot { held: None }
    }

    /// Tells whether a handle is stored.
    pub fn is_occupied(&self) -> (occupied: bool)
        ensures
            occupied == self.occupied(),
    {
        self.held.is_some()
    }

    /// Stores `handle` in an empty slot.
    pub fn store(&mut self, handle: H)
        requires
            !old(self).occupied(),
        ensures
            final(self).holding() == Some(handle),
    {
        self.held = Some(handle);
    }

    /// Empties the slot and hands out what it held.
    pub fn take(&mut self) -> (taken: Option<H>)
        ensures
            taken == old(self).holding(),
            final(self).holding() == None::<H>,
    {
        self.held.take()
    }
}

} // verus!
