//! A store of source messages that keeps at most one copy of each record,
//! under structural equality of the full (file_number, path, source) triple.
//!
//! Unlike the graph history, this store has no capacity bound; that
//! asymmetry is deliberate, though anyone hardening the design may want to
//! revisit it.

use vstd::prelude::*;
use crate::messages::SourceMessage;
use crate::messages::source_eq;

verus! {

/// Whether some entry of `s` is structurally equal to `x`.
pub open spec fn contains_eq(s: Seq<SourceMessage>, x: SourceMessage) -> bool {
    exists|i: int| 0 <= i < s.len() && source_eq(s[i], x)
}

/// Whether no two entries of `s` are structurally equal.
pub open spec fn deduped(s: Seq<SourceMessage>) -> bool {
    forall|i: int, j: int| 0 <= i < j < s.len() ==> !source_eq(s[i], s[j])
}

/// What one insert does to the store's contents: a no-op if an equal entry
/// is already present, otherwise the item is added.
pub open spec fn inserted(s: Seq<SourceMessage>, x: SourceMessage) -> Seq<SourceMessage> {
    if contains_eq(s, x) {
        s
    } else {
        s.push(x)
    }
}

/// A set of source messages; membership is decided by structural equality
/// of the full triple.
pub struct DedupSet {
    items: Vec<SourceMessage>,
}

impl View for DedupSet {
    type V = Seq<SourceMessage>;

    closed spec fn view(&self) -> Seq<SourceMessage> {
        self.items@
    }
}

impl DedupSet {
    /// No two members are structurally equal, at all times.
    pub open spec fn wf(&self) -> bool {
        deduped(self@)
    }

    pub fn new() -> (s: Self)
        ensures
            s@ == Seq::<SourceMessage>::empty(),
            s.wf(),
    {
        DedupSet { items: Vec::new() }
    }

    /// Whether a member structurally equal to `msg` is present.
    fn contains_matching(&self, msg: &SourceMessage) -> (r: bool)
        ensures
            r == contains_eq(self@, *msg),
    {
        let mut i: usize = 0;
        while i < self.items.len()
            invariant
                i <= self.items.len(),
                forall|k: int| 0 <= k < i ==> !source_eq(self@[k], *msg),
            decreases self.items.len() - i,
        {
            if &self.items[i] == msg {
                assert(source_eq(self@[i as int], *msg));
                return true;
            }
            i = i + 1;
        }
        false
    }

    /// Adds `msg` unless a structurally equal member is already present;
    /// in that case the store is unchanged. Always succeeds.
    pub fn insert(&mut self, msg: SourceMessage)
        requires
            old(self).wf(),
        ensures
            final(self).wf(),
            final(self)@ == inserted(old(self)@, msg),
    {
        if !self.contains_matching(&msg) {
            self.items.push(msg);
        }
    }

    /// A point-in-time copy of the members; their order carries no meaning.
    pub fn snapshot(&self) -> (r: Vec<SourceMessage>)
        ensures
            r@ == self@,
    {
        let mut r: Vec<SourceMessage> = Vec::new();
        let mut i: usize = 0;
        while i < self.items.len()
            invariant
                i <= self.items.len(),
                r@ == self.items@.subrange(0, i as int),
            decreases self.items.len() - i,
        {
            r.push(self.items[i].clone());
            assert(r@ =~= self.items@.subrange(0, i + 1));
            i = i + 1;
        }
        assert(r@ =~= self.items@);
        r
    }

    /// Removes all members.
    pub fn clear(&mut self)
        ensures
            final(self).wf(),
            final(self)@ == Seq::<SourceMessage>::empty(),
    {
        self.items.clear();
    }
}

/// Inserting the same item twice leaves exactly what one insert leaves:
/// insertion is idempotent under structural equality.
pub proof fn lemma_insert_idempotent(s: Seq<SourceMessage>, x: SourceMessage)
    ensures
        inserted(inserted(s, x), x) == inserted(s, x),
{
    if !contains_eq(s, x) {
        assert(source_eq(s.push(x)[s.len() as int], x));
        assert(contains_eq(s.push(x), x));
    }
}

/// After inserting `x` and then `y`, entries structurally equal to each of
/// them are present; in particular two items that differ in any field are
/// both retained.
pub proof fn lemma_insert_keeps_both(s: Seq<SourceMessage>, x: SourceMessage, y: SourceMessage)
    ensures
        contains_eq(inserted(inserted(s, x), y), x),
        contains_eq(inserted(inserted(s, x), y), y),
{
    let s1 = inserted(s, x);
    if !contains_eq(s, x) {
        assert(source_eq(s.push(x)[s.len() as int], x));
    }
    assert(contains_eq(s1, x));
    if !contains_eq(s1, y) {
        assert(source_eq(s1.push(y)[s1.len() as int], y));
        let i = choose|i: int| 0 <= i < s1.len() && source_eq(s1[i], x);
        assert(source_eq(s1.push(y)[i], x));
    }
}

} // verus!
