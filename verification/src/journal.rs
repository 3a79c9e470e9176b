//! The journal store: an ordered, append-only sequence of entries scoped to
//! one sandboxed instance's lifetime.
//!
//! Entries appear in exactly the order their originating calls completed; no
//! entry is ever inserted, reordered or removed after append.  The store
//! supports sequential append during execution and sequential indexed read
//! during restore.

use vstd::prelude::*;

use crate::entry::{EntryView, JournalEntry};

verus! {

/// Ordered, append-only record of completed system-call effects.
#[derive(Debug)]
pub struct Journal {
    entries: Vec<JournalEntry>,
}

impl View for Journal {
    type V = Seq<EntryView>;

    /// The stored entries, oldest first.
    closed spec fn view(&self) -> Seq<EntryView> {
        self.entries@.map_values(|e: JournalEntry| e@)
    }
}

impl Journal {
    /// Creates an empty journal, as at instance start.
    pub fn new() -> (j: Journal)
        ensures
            j@ =~= Seq::<EntryView>::empty(),
    {
        Journal { entries: Vec::new() }
    }

    /// Appends one entry at the end; nothing already stored moves.
    pub fn append(&mut self, e: JournalEntry)
        ensures
            final(self)@ =~= old(self)@.push(e@),
    {
        self.entries.push(e);
        proof {
            assert(self@ =~= old(self)@.push(e@));
        }
    }

    /// How many entries are stored.
    pub fn len(&self) -> (n: usize)
        ensures
            n == self@.len(),
    {
        self.entries.len()
    }

    /// Whether nothing has been journaled yet.
    pub fn is_empty(&self) -> (b: bool)
        ensures
            b == (self@.len() == 0),
    {
        self.entries.len() == 0
    }

    /// Reads the entry at position `i` (0 is the oldest).
    pub fn get(&self, i: usize) -> (e: &JournalEntry)
        requires
            i < self@.len(),
        ensures
            e@ == self@[i as int],
    {
        &self.entries[i]
    }
}

} // verus!
