//! Optimisation of expression trees.

use vstd::prelude::*;

verus! {

use crate::ast::Expression;
use crate::error::ParseError;
use vstd::string::StringExecFns;

/// Rewrites expressions for speed while keeping their meaning.
pub struct Optimizer {}

impl Optimizer {
    /// Builds an optimiser with the default passes.
    pub fn new() -> (r: Optimizer) {
        Optimizer {  }
    }

    /// Optimises an expression; the scaffolding pass keeps it.
    pub fn optimize(&mut self, expr: Expression) -> (r: core::result::Result<
        OptimizationResult,
        ParseError,
    >)
        ensures
            r matches Ok(o) && o.expression@ == expr@ && o.description@
                == "No optimization applied"@,
    {
        Ok(
            OptimizationResult {
                expression: expr,
                description: String::from_str("No optimization applied"),
            },
        )
    }

    /// Applies configuration; the scaffolding pass keeps none.
    pub fn with_config(self, _config: Config) -> (r: Optimizer) {
        self
    }
}

/// One optimisation pass.
#[derive(Debug, Clone)]
pub struct OptimizationPass {}

/// What an optimisation run produced.
#[derive(Debug)]
pub struct OptimizationResult {
    /// The optimised expression.
    pub expression: Expression,
    /// What was done, in words.
    pub description: String,
}

/// Configuration options for optimisation.
#[derive(Debug, Clone)]
pub struct Config {}

} // verus!
