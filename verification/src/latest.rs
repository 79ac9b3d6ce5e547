//! A single-slot holder that always reflects the most recently written
//! arena message. It is never empty after construction.

use vstd::prelude::*;
use crate::messages::ArenaMessage;

verus! {

/// What one write does to the slot: the new value fully replaces the old.
pub open spec fn replaced(current: ArenaMessage, incoming: ArenaMessage) -> ArenaMessage {
    incoming
}

/// A single-slot holder for the latest arena message.
pub struct LatestValue {
    value: ArenaMessage,
}

impl View for LatestValue {
    type V = ArenaMessage;

    closed spec fn view(&self) -> ArenaMessage {
        self.value
    }
}

impl LatestValue {
    pub fn new(initial: ArenaMessage) -> (s: Self)
        ensures
            s@ == initial,
    {
        LatestValue { value: initial }
    }

    /// Unconditionally replaces the held value.
    pub fn set(&mut self, msg: ArenaMessage)
        ensures
            final(self)@ == replaced(old(self)@, msg),
            final(self)@ == msg,
    {
        self.value = msg;
    }

    /// Returns a copy of the currently held value.
    pub fn get(&self) -> (r: ArenaMessage)
        ensures
            r == self@,
    {
        self.value.clone()
    }
}

/// The last write wins: after writing `a` and then `b`, the slot holds `b`,
/// whatever it held before.
pub proof fn lemma_last_write_wins(initial: ArenaMessage, a: ArenaMessage, b: ArenaMessage)
    ensures
        replaced(replaced(initial, a), b) == b,
{
}

} // verus!
