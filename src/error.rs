//! The kinds of failure the library reports, and positioned parse errors.

use vstd::prelude::*;

verus! {

#[derive(Copy, Clone, Debug, PartialEq, Eq, Structural, Hash)]
pub enum ErrorKind {
    /// The scale lacks the requested degree.
    UnknownSyllable,
    /// A duration modifier would leave the supported range.
    UnsupportedTweak,
    /// A string count, string index, fret or octave outside its range.
    UnsupportedConfiguration,
    /// An unknown directive name, or a directive value that does not parse.
    InvalidDirective,
    /// A slice reaches past the end of its line.
    OutOfRangeSlice,
    /// A token that the grammar does not admit.
    MalformedToken,
}

/// A failure while parsing, at a byte offset of the source.
#[derive(Copy, Clone, Debug, PartialEq, Eq, Structural, Hash)]
pub struct ParseError {
    pub kind: ErrorKind,
    pub offset: usize,
}

impl ParseError {
    pub fn new(kind: ErrorKind, offset: usize) -> (r: ParseError)
        ensures
            r.kind == kind,
            r.offset == offset,
    {
        ParseError { kind, offset }
    }
}

} // verus!
