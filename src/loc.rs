//! Source locations.
use vstd::prelude::*;

verus! {

/// Handle of a source file.
pub type FileId = usize;

/// A byte range `from..to` in a source file.
#[derive(Clone, Copy, Debug, PartialEq, Eq, Structural)]
pub struct Span {
    pub from: usize,
    pub to: usize,
}

impl Span {
    /// The span `from..to`.
    pub fn new(from: usize, to: usize) -> (r: Span)
        ensures
            r == (Span { from, to }),
    {
        Span { from, to }
    }
}

} // verus!
