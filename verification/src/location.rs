//! Source locations: the entries of a return trace.

use vstd::prelude::*;

verus! {

/// The mathematical value of a [`Location`].
pub struct LocationView {
    pub file: Seq<char>,
    pub line: u32,
    pub column: u32,
}

/// A point in source text: file, line and column.
///
/// A location is captured by the code that stands at that point and handed
/// to the library; it never changes afterwards.
#[derive(Clone, Copy, Debug, PartialEq, Eq)]
pub struct Location {
    file: &'static str,
    line: u32,
    column: u32,
}

impl View for Location {
    type V = LocationView;

    closed spec fn view(&self) -> LocationView {
        LocationView { file: self.file@, line: self.line, column: self.column }
    }
}

impl Location {
    /// The location `file:line:column`.
    pub fn new(file: &'static str, line: u32, column: u32) -> (out: Location)
        ensures
            out@ == (LocationView { file: file@, line, column }),
    {
        Location { file, line, column }
    }

    /// The file's name.
    pub fn file(&self) -> (out: &'static str)
        ensures
            out@ == self@.file,
    {
        self.file
    }

    /// The line, counted from 1 by whoever captured the location.
    pub fn line(&self) -> (out: u32)
        ensures
            out == self@.line,
    {
        self.line
    }

    /// The column, counted from 1 by whoever captured the location.
    pub fn column(&self) -> (out: u32)
        ensures
            out == self@.column,
    {
        self.column
    }
}

} // verus!
