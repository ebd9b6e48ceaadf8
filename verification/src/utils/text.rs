//! Text processing shells.

use vstd::prelude::*;

verus! {

/// Text processing helpers, kept as a placeholder shell.
#[derive(Debug, Clone)]
pub struct TextUtils {}

/// Facts about one line of source text, kept as a placeholder shell.
#[derive(Debug, Clone)]
pub struct LineInfo {}

} // verus!
