//! The errors of one resolution pass. Every failure of the parser or of the
//! resolution engine is one of these variants; each carries the index of the
//! token it points at, so a caller can render a located diagnostic.

use vstd::prelude::*;

verus! {

/// A terminal error of one expansion: no partial output accompanies it.
#[derive(Debug, Clone, Copy, PartialEq, Eq, Structural)]
pub enum Error {
    /// Malformed configuration text; `loc` is the offending token's index
    /// (or the input length, where the input ended too early).
    Syntax { loc: usize },
    /// The conditional grammar takes a single statement, but a second one was
    /// found; `loc` is the second statement's first token.
    RepeatedStatement { loc: usize },
    /// One name was given a special visibility twice; `loc` is the second
    /// occurrence of the name.
    MultipleVisibilities { loc: usize },
    /// A name has a special visibility but is also excluded; `loc` is the
    /// special-visibility statement.
    SpecialButExcluded { loc: usize },
}

} // verus!
