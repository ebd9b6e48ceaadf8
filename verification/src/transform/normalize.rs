//! Normalisation of expression trees to a canonical shape.

use vstd::prelude::*;

verus! {

use crate::ast::Expression;
use crate::error::ParseError;

/// Rewrites expressions into a canonical shape.
pub struct Normalizer {}

impl Normalizer {
    /// Builds a normaliser with the default rules.
    pub fn new() -> (r: Normalizer) {
        Normalizer {  }
    }

    /// Normalises an expression; the scaffolding pass keeps it.
    pub fn normalize(&mut self, expr: Expression) -> (r: core::result::Result<
        Expression,
        ParseError,
    >)
        ensures
            r matches Ok(e) && e@ == expr@,
    {
        Ok(expr)
    }

    /// Applies configuration; the scaffolding pass keeps none.
    pub fn with_config(self, _config: Config) -> (r: Normalizer) {
        self
    }
}

/// One normalisation rule.
#[derive(Debug, Clone)]
pub struct NormalizationRule {}

/// Configuration options for normalisation.
#[derive(Debug, Clone)]
pub struct Config {}

} // verus!
