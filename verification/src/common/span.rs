use vstd::prelude::*;

verus! {

/// A position in the source: the index of a character.
pub type Pos = usize;

/// The half-open range `start..end` of characters that a token or a node covers.
#[derive(Debug, Clone, Copy, PartialEq, Eq, Structural)]
pub struct Span {
    pub start: Pos,
    pub end: Pos,
}

impl Span {
    /// The span from the start of `self` to the end of `other`.
    pub fn to(self, other: Span) -> (res: Span)
        ensures
            res == (Span { start: self.start, end: other.end }),
    {
        Span { start: self.start, end: other.end }
    }
}

} // verus!
