//! The return trace: the locations through which a failure was returned.

use crate::location::{Location, LocationView};
use vstd::prelude::*;

verus! {

/// An ordered, append-only sequence of locations.
///
/// Entries stand in the order in which they were recorded: the oldest first.
/// A trace grows by one entry per [`ReturnTrace::push`], or by the entries
/// of a cause spliced in front of it ([`ReturnTrace::caused`]); it never
/// shrinks. Two traces with the same entries are interchangeable, so
/// contracts speak of a trace by its view, the sequence of its entries.
#[derive(Debug)]
pub struct ReturnTrace {
    entries: Vec<Location>,
}

impl View for ReturnTrace {
    type V = Seq<LocationView>;

    closed spec fn view(&self) -> Seq<LocationView> {
        self.entries@.map_values(|l: Location| l@)
    }
}

impl Default for ReturnTrace {
    /// The empty trace.
    fn default() -> (out: ReturnTrace)
        ensures
            out@ == Seq::<LocationView>::empty(),
    {
        ReturnTrace::new()
    }
}

impl ReturnTrace {
    /// The empty trace.
    pub fn new() -> (out: ReturnTrace)
        ensures
            out@ == Seq::<LocationView>::empty(),
    {
        let out = ReturnTrace { entries: Vec::new() };
        assert(out@ =~= Seq::<LocationView>::empty());
        out
    }

    /// Appends `location` as the newest entry.
    pub fn push(&mut self, location: Location)
        ensures
            final(self)@ == old(self)@.push(location@),
    {
        self.entries.push(location);
        assert(self@ =~= old(self)@.push(location@));
    }

    /// The number of entries.
    pub fn len(&self) -> (out: usize)
        ensures
            out == self@.len(),
    {
        self.entries.len()
    }

    /// Whether the trace has no entry.
    pub fn is_empty(&self) -> (out: bool)
        ensures
            out <==> self@.len() == 0,
    {
        self.entries.len() == 0
    }

    /// The entry at `index`, counted from the oldest; `None` past the end.
    pub fn get(&self, index: usize) -> (out: Option<Location>)
        ensures
            index < self@.len() ==> (out matches Some(l) && l@ == self@[index as int]),
            index >= self@.len() ==> out is None,
    {
        if index < self.entries.len() {
            Some(self.entries[index])
        } else {
            None
        }
    }

    /// Makes `self` the cause of `other`: afterwards `other` holds the
    /// entries of `self`, then the entries it held before.
    pub fn caused(self, other: &mut ReturnTrace)
        ensures
            final(other)@ == self@ + old(other)@,
    {
        let mut cause = self;
        // put the cause first
        core::mem::swap(&mut cause, other);
        // put the rest of the trace after
        other.entries.append(&mut cause.entries);
        assert(other@ =~= self@ + old(other)@);
    }
}

} // verus!
