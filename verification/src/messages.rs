//! The three record shapes that producers send and consumers read back.

use vstd::prelude::*;

verus! {

/// One graph snapshot: an opaque serialized graph together with the
/// producer's timestamp. Duplicates are allowed and meaningful.
#[derive(Debug)]
pub struct GraphMessage {
    pub graph: String,
    pub timestamp: u64,
}

/// One source file: a numeric file identifier, a path-shaped string and the
/// file's text. Identity is the full triple: two messages with the same
/// `file_number` and `path` but different `source` are distinct records.
#[derive(Debug)]
pub struct SourceMessage {
    pub file_number: usize,
    pub path: String,
    pub source: String,
}

/// The singleton arena blob: an opaque serialized string payload.
#[derive(Debug)]
pub struct ArenaMessage {
    pub arena: String,
}

/// Structural equality of graph messages, by the contents of both fields.
pub open spec fn graph_eq(a: GraphMessage, b: GraphMessage) -> bool {
    a.graph@ == b.graph@ && a.timestamp == b.timestamp
}

/// Structural equality of source messages, over the full triple.
pub open spec fn source_eq(a: SourceMessage, b: SourceMessage) -> bool {
    a.file_number == b.file_number && a.path@ == b.path@ && a.source@ == b.source@
}

/// Structural equality of arena messages, by payload contents.
pub open spec fn arena_eq(a: ArenaMessage, b: ArenaMessage) -> bool {
    a.arena@ == b.arena@
}

impl Clone for GraphMessage {
    fn clone(&self) -> (res: Self)
        ensures
            res == *self,
    {
        GraphMessage { graph: self.graph.clone(), timestamp: self.timestamp }
    }
}

impl PartialEq for GraphMessage {
    fn eq(&self, other: &Self) -> (r: bool) {
        self.graph == other.graph && self.timestamp == other.timestamp
    }
}

impl vstd::std_specs::cmp::PartialEqSpecImpl for GraphMessage {
    open spec fn obeys_eq_spec() -> bool {
        true
    }

    open spec fn eq_spec(&self, other: &Self) -> bool {
        graph_eq(*self, *other)
    }
}

impl Clone for SourceMessage {
    fn clone(&self) -> (res: Self)
        ensures
            res == *self,
    {
        SourceMessage {
            file_number: self.file_number,
            path: self.path.clone(),
            source: self.source.clone(),
        }
    }
}

impl PartialEq for SourceMessage {
    fn eq(&self, other: &Self) -> (r: bool) {
        self.file_number == other.file_number && self.path == other.path
            && self.source == other.source
    }
}

impl vstd::std_specs::cmp::PartialEqSpecImpl for SourceMessage {
    open spec fn obeys_eq_spec() -> bool {
        true
    }

    open spec fn eq_spec(&self, other: &Self) -> bool {
        source_eq(*self, *other)
    }
}

impl Clone for ArenaMessage {
    fn clone(&self) -> (res: Self)
        ensures
            res == *self,
    {
        ArenaMessage { arena: self.arena.clone() }
    }
}

impl PartialEq for ArenaMessage {
    fn eq(&self, other: &Self) -> (r: bool) {
        self.arena == other.arena
    }
}

impl vstd::std_specs::cmp::PartialEqSpecImpl for ArenaMessage {
    open spec fn obeys_eq_spec() -> bool {
        true
    }

    open spec fn eq_spec(&self, other: &Self) -> bool {
        arena_eq(*self, *other)
    }
}

impl Default for ArenaMessage {
    /// The sentinel value the arena slot starts with.
    fn default() -> (r: Self)
        ensures
            r.arena@ == "Empty"@,
    {
        ArenaMessage { arena: "Empty".to_owned() }
    }
}

} // verus!
