//! Lint rules over expression trees.

use vstd::prelude::*;

verus! {

use crate::ast::Expression;
use crate::error::ParseError;

/// Applies lint rules to expressions.
pub struct Linter {}

impl Linter {
    /// Builds a linter with the default rules.
    pub fn new() -> (r: Linter) {
        Linter {  }
    }

    /// Lints an expression; the scaffolding pass reports nothing.
    pub fn lint(&mut self, _expr: &Expression) -> (r: core::result::Result<
        Vec<LintResult>,
        ParseError,
    >)
        ensures
            r matches Ok(v) && v@.len() == 0,
    {
        Ok(Vec::new())
    }

    /// Applies configuration; the scaffolding pass keeps none.
    pub fn with_config(self, _config: Config) -> (r: Linter) {
        self
    }
}

/// One lint rule.
#[derive(Debug, Clone)]
pub struct LintRule {}

/// One lint finding.
#[derive(Debug, Clone)]
pub struct LintResult {}

/// Configuration options for the linter.
#[derive(Debug, Clone)]
pub struct Config {}

} // verus!
