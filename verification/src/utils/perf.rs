//! Memory statistics for performance accounting.

use vstd::prelude::*;

verus! {

/// Memory usage counts.
#[derive(Debug, Clone, Copy, PartialEq, Eq, Structural)]
pub struct MemoryStats {
    /// The highest number of bytes held at once.
    pub peak_bytes: usize,
    /// The number of bytes held now.
    pub current_bytes: usize,
    /// How many allocations were made.
    pub allocations: usize,
}

impl MemoryStats {
    /// Counts of zero.
    pub fn new() -> (r: MemoryStats)
        ensures
            r.peak_bytes == 0,
            r.current_bytes == 0,
            r.allocations == 0,
    {
        MemoryStats { peak_bytes: 0, current_bytes: 0, allocations: 0 }
    }
}

impl Default for MemoryStats {
    /// Counts of zero.
    fn default() -> (r: Self)
        ensures
            r.peak_bytes == 0,
            r.current_bytes == 0,
            r.allocations == 0,
    {
        MemoryStats::new()
    }
}

} // verus!
