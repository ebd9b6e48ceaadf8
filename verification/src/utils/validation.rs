//! Validation shells.

use vstd::prelude::*;

verus! {

/// Applies validation rules to expressions, kept as a placeholder shell.
pub struct Validator {}

/// One validation rule, kept as a placeholder shell.
#[derive(Debug, Clone)]
pub struct ValidationRule {}

} // verus!
