//! The single-slot indicator mailbox shared by the two operating loops.
//!
//! Both loops, one per core, request indicator changes through one mailbox of
//! depth 1; one dedicated task consumes the signals and drives the output
//! pin. A producer whose signal finds the slot occupied must wait and retry:
//! a pending signal is never overwritten and never dropped, so at most one
//! signal is pending system-wide at any instant.

use vstd::prelude::*;

use crate::led_state::LedState;

verus! {

/// A single-slot, many-producer one-consumer mailbox of indicator signals.
pub struct LedChannel {
    slot: Option<LedState>,
}

impl LedChannel {
    /// The signal pending in the slot, if any.
    pub closed spec fn spec_slot(&self) -> Option<LedState> {
        self.slot
    }

    /// How many signals are pending: the slot holds at most one.
    pub closed spec fn depth(&self) -> nat {
        if self.slot is Some {
            1
        } else {
            0
        }
    }

    /// A new mailbox with a free slot.
    pub fn new() -> (c: LedChannel)
        ensures
            c.spec_slot() is None,
    {
        LedChannel { slot: None }
    }

    /// Offer a signal. It is accepted exactly when the slot is free, and an
    /// accepted signal is stored unchanged; a refused offer leaves the
    /// pending signal as it was, so no signal is ever overwritten. A
    /// producer models a blocking send by offering again until accepted.
    pub fn try_send(&mut self, signal: LedState) -> (accepted: bool)
        ensures
            accepted <==> old(self).spec_slot() is None,
            accepted ==> final(self).spec_slot() == Some(signal),
            !accepted ==> final(self).spec_slot() == old(self).spec_slot(),
    {
        match self.slot {
            None => {
                self.slot = Some(signal);
                true
            }
            Some(_) => false,
        }
    }

    /// Take the pending signal, if any: exactly the one the accepted send
    /// stored, never invented and never lost, and the slot is free after.
    pub fn try_recv(&mut self) -> (received: Option<LedState>)
        ensures
            received == old(self).spec_slot(),
            final(self).spec_slot() is None,
    {
        let received = self.slot;
        self.slot = None;
        received
    }
}

/// The slot-depth invariant of the indicator mailbox: at any instant at most
/// one signal is pending, and one is pending exactly when the slot is
/// occupied.
pub proof fn lemma_channel_depth(c: &LedChannel)
    ensures
        c.depth() <= 1,
        c.depth() == 1 <==> c.spec_slot() is Some,
{
}

} // verus!
