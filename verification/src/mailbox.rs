//! The pause signal's channel, modelled as a one-element mailbox: a send
//! overwrites whatever waits in the slot, a take empties it, and neither
//! ever blocks. Losing an overwritten value is the intended behaviour;
//! whoever drains the mailbox sees the latest value sent and nothing older.

use vstd::prelude::*;

verus! {

/// A one-slot, store-latest mailbox carrying the pause state from the tray
/// thread to the control loop.
#[derive(Clone, Copy, Debug, PartialEq, Eq, Structural)]
pub struct PauseMailbox {
    /// The value waiting to be taken, if any.
    pub slot: Option<bool>,
}

/// What one send leaves in the mailbox: the sent value, whatever was there.
pub open spec fn send_step(m: PauseMailbox, paused: bool) -> PauseMailbox {
    (PauseMailbox { slot: Some(paused) })
}

/// The mailbox a sequence of sends leaves behind, starting from `m` and
/// performing each send in order.
pub open spec fn after_sends(m: PauseMailbox, sent: Seq<bool>) -> PauseMailbox
    decreases sent.len(),
{
    if sent.len() == 0 {
        m
    } else {
        send_step(after_sends(m, sent.drop_last()), sent.last())
    }
}

impl PauseMailbox {
    /// Creates an empty mailbox: nothing has been sent yet.
    pub fn empty() -> (m: PauseMailbox)
        ensures
            m.slot is None,
    {
        PauseMailbox { slot: None }
    }

    /// Stores `paused` in the slot, overwriting any value not yet taken.
    /// Never blocks.
    pub fn send(&mut self, paused: bool)
        ensures
            final(self).slot == Some(paused),
    {
        self.slot = Some(paused);
    }

    /// Takes the waiting value out of the slot, if there is one, leaving
    /// the mailbox empty. Never blocks.
    pub fn take(&mut self) -> (taken: Option<bool>)
        ensures
            taken == old(self).slot,
            final(self).slot is None,
    {
        let taken: Option<bool> = self.slot;
        self.slot = None;
        taken
    }
}

/// Latest value wins: after any non-empty sequence of sends, the slot holds
/// exactly the value sent last, whatever the mailbox held before.
pub proof fn lemma_latest_send_wins(m: PauseMailbox, sent: Seq<bool>)
    requires
        sent.len() > 0,
    ensures
        after_sends(m, sent).slot == Some(sent.last()),
{
}

} // verus!
