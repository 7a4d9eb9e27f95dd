//! A single-slot, last-write-wins result channel.
//!
//! The producer side of a background fetch writes its outcome here; the
//! consumer polls once per frame. Only the most recently written value is
//! retained: an unread value is overwritten by a later write. Taking the
//! value clears the "has new value" flag, which does not fire again until
//! the next write.

use vstd::prelude::*;

verus! {

/// Holds at most the single most recent value sent and not yet taken.
pub struct ResultChannel<T> {
    /// The most recent value written since the last take, if any.
    pub slot: Option<T>,
}

/// The slot contents after a send: the new value, whatever was there before.
pub open spec fn sent<T>(slot: Option<T>, value: T) -> Option<T> {
    Some(value)
}

/// The slot contents after a take: empty, whatever was there before.
pub open spec fn taken<T>(slot: Option<T>) -> Option<T> {
    None
}

impl<T> ResultChannel<T> {
    /// An empty channel: nothing to consume until the first send.
    pub fn new() -> (r: Self)
        ensures
            r.slot is None,
    {
        ResultChannel { slot: None }
    }

    /// Whether a value has been sent since the last take.
    pub fn has_new(&self) -> (r: bool)
        ensures
            r == (self.slot is Some),
    {
        self.slot.is_some()
    }

    /// Write a value, discarding any unread predecessor (last write wins).
    pub fn send(&mut self, value: T)
        ensures
            final(self).slot == sent(old(self).slot, value),
    {
        self.slot = Some(value);
    }

    /// Consume the most recent value, if any, clearing the flag.
    pub fn take(&mut self) -> (r: Option<T>)
        ensures
            r == old(self).slot,
            final(self).slot == taken(old(self).slot),
    {
        self.slot.take()
    }
}

/// If the channel is written twice before being polled once, the consumer
/// sees only the second value; the poll clears the flag, and a further poll
/// yields nothing until the next write.
pub proof fn lemma_last_write_wins<T>(slot: Option<T>, first: T, second: T)
    ensures
        sent(sent(slot, first), second) == Some(second),
        taken(sent(sent(slot, first), second)) is None,
        taken(taken(sent(sent(slot, first), second))) is None,
{
}

} // verus!
