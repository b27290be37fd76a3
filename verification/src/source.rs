use vstd::prelude::*;

verus! {

/// A range of source text, from `start` (inclusive) to `end` (exclusive).
#[derive(Debug, Clone, Copy, PartialEq, Eq, Structural)]
pub struct Span {
    pub start: Position,
    pub end: Position,
}

/// A point in source text.
#[derive(Debug, Clone, Copy, PartialEq, Eq, Structural)]
pub struct Position {
    /// 0-based line number
    pub line: u32,
    /// 0-based column (byte offset within the line)
    pub column: u32,
    /// Byte offset from the start of the source
    pub offset: u32,
}

} // verus!
