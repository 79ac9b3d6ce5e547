//! The shared state a server process owns: one bounded history of graphs,
//! one deduplicating store of sources and one latest-value slot for the
//! arena, each guarded by its own reader-writer lock, together with the
//! operations the request handlers perform on it.
//!
//! Each lock carries the invariant of the store inside it, so every value
//! that ever rests in a lock is well formed. No operation holds more than
//! one lock at a time; `clear` takes its two locks one after the other, so
//! a concurrent reader may observe the history already empty while the
//! sources are not yet cleared.
//!
//! There is no poisoned-lock failure mode here: the locks are vstd's
//! verified reader-writer locks, and the verified code that runs inside a
//! critical section cannot panic, so every value a lock ever hands out
//! satisfies its invariant.

use vstd::prelude::*;
use vstd::rwlock::RwLock;
use vstd::rwlock::RwLockPredicate;
use crate::messages::GraphMessage;
use crate::messages::SourceMessage;
use crate::messages::ArenaMessage;
use crate::history::BoundedHistory;
use crate::history::CAPACITY;
use crate::dedup::DedupSet;
use crate::dedup::deduped;
use crate::latest::LatestValue;

verus! {

/// The invariant carried by the graph-history lock.
pub struct HistoryPred {}

impl RwLockPredicate<BoundedHistory> for HistoryPred {
    open spec fn inv(self, v: BoundedHistory) -> bool {
        v.wf()
    }
}

/// The invariant carried by the source-store lock.
pub struct SourcesPred {}

impl RwLockPredicate<DedupSet> for SourcesPred {
    open spec fn inv(self, v: DedupSet) -> bool {
        v.wf()
    }
}

/// The invariant carried by the arena lock: the slot always holds a value,
/// which the type itself already guarantees.
pub struct ArenaPred {}

impl RwLockPredicate<LatestValue> for ArenaPred {
    open spec fn inv(self, v: LatestValue) -> bool {
        true
    }
}

/// The state shared by all request-handling workers. Each sub-store has its
/// own lock, so unrelated operations never block each other.
pub struct SharedState {
    graphs: RwLock<BoundedHistory, HistoryPred>,
    sources: RwLock<DedupSet, SourcesPred>,
    arena: RwLock<LatestValue, ArenaPred>,
}

impl SharedState {
    /// A fresh state: empty history, empty sources, and the arena slot
    /// holding its sentinel default.
    pub fn new() -> (s: SharedState) {
        SharedState {
            graphs: RwLock::new(BoundedHistory::new(), Ghost(HistoryPred {})),
            sources: RwLock::new(DedupSet::new(), Ghost(SourcesPred {})),
            arena: RwLock::new(LatestValue::new(ArenaMessage::default()), Ghost(ArenaPred {})),
        }
    }

    /// Appends one graph message to the history, evicting the oldest entry
    /// if the capacity would be exceeded.
    pub fn add_graph(&self, msg: GraphMessage) {
        let (mut history, handle) = self.graphs.acquire_write();
        history.append(msg);
        handle.release_write(history);
    }

    /// Inserts one source message; a structurally equal record already
    /// present makes this a no-op.
    pub fn add_source(&self, msg: SourceMessage) {
        let (mut sources, handle) = self.sources.acquire_write();
        sources.insert(msg);
        handle.release_write(sources);
    }

    /// Unconditionally replaces the arena value.
    pub fn update_arena(&self, msg: ArenaMessage) {
        let (mut arena, handle) = self.arena.acquire_write();
        arena.set(msg);
        handle.release_write(arena);
    }

    /// Empties the history, then the sources. The arena lock is never
    /// touched: the arena value persists across clears. The two clears are
    /// not jointly atomic.
    pub fn clear(&self) -> (r: &'static str)
        ensures
            r@ == "History and sources cleared"@,
    {
        let (mut history, graphs_handle) = self.graphs.acquire_write();
        history.clear();
        graphs_handle.release_write(history);
        let (mut sources, sources_handle) = self.sources.acquire_write();
        sources.clear();
        sources_handle.release_write(sources);
        "History and sources cleared"
    }

    /// A consistent snapshot of the graph history, oldest first. The lock
    /// invariant bounds its length by the capacity.
    pub fn get_graphs(&self) -> (r: Vec<GraphMessage>)
        ensures
            r@.len() <= CAPACITY,
    {
        let handle = self.graphs.acquire_read();
        let r = handle.borrow().snapshot();
        handle.release_read();
        r
    }

    /// A consistent snapshot of the source store; the lock invariant keeps
    /// its members pairwise structurally distinct. Order carries no meaning.
    pub fn get_sources(&self) -> (r: Vec<SourceMessage>)
        ensures
            deduped(r@),
    {
        let handle = self.sources.acquire_read();
        let r = handle.borrow().snapshot();
        handle.release_read();
        r
    }

    /// A copy of the arena value most recently written, or the sentinel
    /// default if none was ever written.
    pub fn get_arena(&self) -> (r: ArenaMessage) {
        let handle = self.arena.acquire_read();
        let r = handle.borrow().get();
        handle.release_read();
        r
    }
}

} // verus!
