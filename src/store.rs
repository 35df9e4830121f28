//! The single slot that holds the current reading.
//!
//! Every operation takes the whole record: a replacement overwrites all of
//! its fields at once and a snapshot copies all of them. Callers that share
//! the store between threads put it behind one lock.
use vstd::prelude::*;
use crate::reading::{Reading, ReadingView, default_reading};

verus! {

pub struct ReadingStore {
    current: Reading,
}

impl View for ReadingStore {
    type V = ReadingView;

    closed spec fn view(&self) -> ReadingView {
        self.current@
    }
}

/// The store's content after replacing `current` by `incoming`: the incoming
/// record, whole.
pub open spec fn replaced(current: ReadingView, incoming: ReadingView) -> ReadingView {
    incoming
}

/// The store's content after the replacements `incoming`, in order, from
/// `start`.
pub open spec fn after_replacements(start: ReadingView, incoming: Seq<ReadingView>) -> ReadingView
    decreases incoming.len(),
{
    if incoming.len() == 0 {
        start
    } else {
        replaced(after_replacements(start, incoming.drop_last()), incoming.last())
    }
}

impl ReadingStore {
    /// A store that holds the default reading.
    pub fn new() -> (s: ReadingStore)
        ensures
            s@ == default_reading(),
    {
        ReadingStore { current: Reading::initial() }
    }

    /// Overwrites the whole stored reading with `reading`.
    pub fn replace(&mut self, reading: Reading)
        ensures
            final(self)@ == replaced(old(self)@, reading@),
    {
        self.current = reading;
    }

    /// A copy of the stored reading.
    pub fn snapshot(&self) -> (r: Reading)
        ensures
            r@ == self@,
    {
        self.current.duplicate()
    }
}

/// Whatever the order in which a set of replacements is applied, the store
/// then holds exactly one of the incoming readings, whole: the one applied
/// last. No field of it comes from another replacement.
pub proof fn lemma_replacements_never_mix(start: ReadingView, incoming: Seq<ReadingView>)
    requires
        incoming.len() > 0,
    ensures
        after_replacements(start, incoming) == incoming.last(),
        incoming.contains(after_replacements(start, incoming)),
{
    assert(incoming[incoming.len() - 1] == incoming.last());
}

/// A snapshot taken after `replace(r)`, with no replacement in between,
/// equals `r`; so does every later one until the next replacement.
pub proof fn lemma_read_your_write(before: ReadingView, r: ReadingView)
    ensures
        replaced(before, r) == r,
        after_replacements(before, seq![r]) == r,
{
    assert(seq![r].drop_last() =~= Seq::<ReadingView>::empty());
}

} // verus!
