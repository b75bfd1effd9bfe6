//! Positions and spans in source text.
use vstd::prelude::*;

verus! {

/// A point in source text: a byte offset, a line and a character on that line.
#[derive(Clone, Copy, Debug, PartialEq, Eq, Structural)]
pub struct Position {
    pub bytes: usize,
    pub line: usize,
    pub character: usize,
}

/// The extent of a token, node or diagnostic in source text.
#[derive(Clone, Copy, Debug, PartialEq, Eq, Structural)]
pub struct Span {
    pub start: Position,
    pub end: Position,
}

impl Span {
    /// The span does not run backwards.
    pub open spec fn well_formed(self) -> bool {
        self.start.bytes <= self.end.bytes
    }

    /// Number of bytes the span covers, zero for a span that runs backwards.
    pub fn byte_len(&self) -> (r: usize)
        ensures
            self.well_formed() ==> r == self.end.bytes - self.start.bytes,
            !self.well_formed() ==> r == 0,
    {
        if self.start.bytes <= self.end.bytes {
            self.end.bytes - self.start.bytes
        } else {
            0
        }
    }
}

} // verus!
