//! A FIFO history of graph messages with a fixed capacity: appending past
//! capacity silently evicts the single oldest entry.

use vstd::prelude::*;
use std::collections::VecDeque;
use crate::messages::GraphMessage;

verus! {

/// The fixed capacity of the history.
pub const CAPACITY: usize = 10_000;

/// What one append does to the history's contents: the item becomes the
/// newest entry, and the oldest entry leaves if the capacity would be
/// exceeded.
pub open spec fn appended(h: Seq<GraphMessage>, x: GraphMessage) -> Seq<GraphMessage> {
    if h.len() < CAPACITY {
        h.push(x)
    } else {
        h.push(x).subrange(1, h.len() + 1 as int)
    }
}

/// The contents of a history that started empty and took this sequence of
/// appends, oldest first.
pub open spec fn replayed(items: Seq<GraphMessage>) -> Seq<GraphMessage>
    decreases items.len(),
{
    if items.len() == 0 {
        Seq::empty()
    } else {
        appended(replayed(items.drop_last()), items.last())
    }
}

/// A bounded FIFO sequence of graph messages, oldest first.
pub struct BoundedHistory {
    deque: VecDeque<GraphMessage>,
}

impl View for BoundedHistory {
    type V = Seq<GraphMessage>;

    closed spec fn view(&self) -> Seq<GraphMessage> {
        self.deque@
    }
}

impl BoundedHistory {
    /// The capacity bound holds at all times.
    pub open spec fn wf(&self) -> bool {
        self@.len() <= CAPACITY
    }

    pub fn new() -> (h: Self)
        ensures
            h@ == Seq::<GraphMessage>::empty(),
            h.wf(),
    {
        BoundedHistory { deque: VecDeque::new() }
    }

    /// Adds `msg` as the newest entry; if the capacity would be exceeded,
    /// evicts exactly the oldest entry. Always succeeds.
    pub fn append(&mut self, msg: GraphMessage)
        requires
            old(self).wf(),
        ensures
            final(self).wf(),
            final(self)@ == appended(old(self)@, msg),
    {
        self.deque.push_back(msg);
        if self.deque.len() > CAPACITY {
            self.deque.pop_front();
        }
    }

    /// A point-in-time copy of the contents, oldest first.
    pub fn snapshot(&self) -> (r: Vec<GraphMessage>)
        ensures
            r@ == self@,
    {
        let mut r: Vec<GraphMessage> = Vec::new();
        let mut i: usize = 0;
        while i < self.deque.len()
            invariant
                i <= self.deque.len(),
                r@ == self.deque@.subrange(0, i as int),
            decreases self.deque.len() - i,
        {
            r.push(self.deque[i].clone());
            assert(r@ =~= self.deque@.subrange(0, i + 1));
            i = i + 1;
        }
        assert(r@ =~= self.deque@);
        r
    }

    /// Removes all entries.
    pub fn clear(&mut self)
        ensures
            final(self).wf(),
            final(self)@ == Seq::<GraphMessage>::empty(),
    {
        self.deque.clear();
    }
}

/// After any sequence of appends to an initially empty history, the history
/// holds exactly the last `min(number of appends, CAPACITY)` appended items,
/// in their original order.
pub proof fn lemma_replay_keeps_latest(items: Seq<GraphMessage>)
    ensures
        replayed(items).len() == vstd::math::min(items.len() as int, CAPACITY as int),
        replayed(items) =~= items.subrange(
            items.len() - replayed(items).len(),
            items.len() as int,
        ),
    decreases items.len(),
{
    if items.len() == 0 {
    } else {
        let prefix = items.drop_last();
        lemma_replay_keeps_latest(prefix);
        let r = replayed(prefix);
        assert(replayed(items) == appended(r, items.last()));
        assert(prefix =~= items.subrange(0, items.len() - 1));
        if r.len() < CAPACITY {
            assert(replayed(items) =~= items.subrange(
                items.len() - (r.len() + 1),
                items.len() as int,
            ));
        } else {
            assert(replayed(items) =~= items.subrange(
                items.len() - CAPACITY,
                items.len() as int,
            ));
        }
    }
}

} // verus!
