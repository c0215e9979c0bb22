//! The single-slot, latest-value-wins frame mailbox.
//!
//! The producer side never blocks: a send on a full slot hands the value
//! back, and the acquisition loop then evicts the stale frame and retries,
//! so the newest frame always wins and a slow consumer only ever costs
//! intermediate frames, never the most recent one.

use vstd::prelude::*;

verus! {

/// A bounded conduit holding at most one pending value.
pub struct Mailbox<T> {
    slot: Option<T>,
}

impl<T> Mailbox<T> {
    /// The pending value, if any.
    pub closed spec fn slot_spec(&self) -> Option<T> {
        self.slot
    }

    /// An empty mailbox.
    pub fn new() -> (m: Mailbox<T>)
        ensures
            m.slot_spec() is None,
    {
        Mailbox { slot: None }
    }

    /// Non-blocking send: fills an empty slot, or hands the rejected value
    /// straight back, leaving the slot untouched.
    pub fn try_send(&mut self, v: T) -> (r: Result<(), T>)
        ensures
            old(self).slot_spec() is None ==> final(self).slot_spec() == Some(v) && r is Ok,
            old(self).slot_spec() is Some ==> final(self).slot_spec() == old(self).slot_spec()
                && r == Result::<(), T>::Err(v),
    {
        if self.slot.is_none() {
            self.slot = Some(v);
            Ok(())
        } else {
            Err(v)
        }
    }

    /// Consume the pending value, if any, emptying the slot.
    pub fn take(&mut self) -> (r: Option<T>)
        ensures
            r == old(self).slot_spec(),
            final(self).slot_spec() is None,
    {
        self.slot.take()
    }

    /// Latest wins: place `v`, evicting and discarding whatever stale value
    /// still occupied the slot. Afterward `v` — and only `v` — is pending;
    /// an unconsumed predecessor is never delivered.
    pub fn publish(&mut self, v: T) -> (evicted: Option<T>)
        ensures
            final(self).slot_spec() == Some(v),
            evicted == old(self).slot_spec(),
    {
        match self.try_send(v) {
            Ok(()) => None,
            Err(rejected) => {
                let stale = self.take();
                match self.try_send(rejected) {
                    Ok(()) => stale,
                    Err(_) => {
                        proof {
                            assert(false);
                        }
                        None
                    },
                }
            },
        }
    }
}

} // verus!
