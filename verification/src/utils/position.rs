//! One-based positions and ranges for reporting.

use vstd::prelude::*;

verus! {

/// A position in source code, one-based.
#[derive(Debug, Clone, Copy, PartialEq, Eq, Structural)]
pub struct Position {
    /// Line number, one-based.
    pub line: usize,
    /// Column number, one-based.
    pub column: usize,
}

/// A span between two positions.
#[derive(Debug, Clone, Copy, PartialEq, Eq, Structural)]
pub struct Range {
    /// Where the span starts.
    pub start: Position,
    /// Where the span ends.
    pub end: Position,
}

} // verus!
