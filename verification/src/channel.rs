//! The bounded frame slot: the back-pressure contract between producer and
//! terminal.
//!
//! The frames channel has capacity one. When the terminal is slow, a send
//! finds the slot full and the artifact is dropped at the producer; nothing
//! ever queues up behind the one pending artifact. This type is the
//! channel's functional model; the shell realizes it with a bounded channel
//! of the same capacity between the two threads.
use crate::StringInfo;
use vstd::prelude::*;

verus! {

/// A frame channel of capacity one: at most one pending artifact.
pub struct FrameChannel {
    /// The single slot; `None` when the channel is empty.
    pub slot: Option<StringInfo>,
}

impl FrameChannel {
    /// How many artifacts are pending.
    pub open spec fn pending(&self) -> int {
        if self.slot is Some {
            1int
        } else {
            0int
        }
    }

    /// An empty channel.
    pub fn new() -> (r: Self)
        ensures
            r.slot is None,
            r.pending() == 0,
    {
        Self { slot: None }
    }

    /// Offers an artifact. Into an empty slot it goes whole; a full slot
    /// drops it — the back-pressure policy — and reports the drop.
    pub fn try_send(&mut self, artifact: StringInfo) -> (ok: bool)
        ensures
            old(self).slot is Some ==> !ok && *final(self) == *old(self),
            old(self).slot is None ==> ok && final(self).slot == Some(artifact),
            final(self).pending() <= 1,
    {
        if self.slot.is_some() {
            false
        } else {
            self.slot = Some(artifact);
            true
        }
    }

    /// Takes the pending artifact, if any, leaving the channel empty.
    pub fn try_recv(&mut self) -> (r: Option<StringInfo>)
        ensures
            final(self).slot is None,
            r == old(self).slot,
    {
        self.slot.take()
    }

    /// The channel never holds more than one pending artifact.
    pub proof fn lemma_capacity_one(&self)
        ensures
            0 <= self.pending() <= 1,
    {
    }
}

} // verus!
