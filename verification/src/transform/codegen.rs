//! Rendering expression trees back to source text.

use vstd::prelude::*;

verus! {

/// Renders expressions back to source text.
pub struct CodeGenerator {}

/// Formatting preferences for rendering.
pub struct GenerationContext {}

} // verus!
