//! Semantic checks over expression trees.

use vstd::prelude::*;

verus! {

use crate::ast::Expression;
use crate::error::ParseError;

/// Checks type consistency and scoping rules.
pub struct SemanticAnalyzer {}

impl SemanticAnalyzer {
    /// Builds the analyzer.
    pub fn new() -> (r: SemanticAnalyzer) {
        SemanticAnalyzer {  }
    }

    /// Analyzes an expression; the scaffolding pass accepts everything.
    pub fn analyze(&mut self, _expression: &Expression) -> (r: core::result::Result<
        SemanticInfo,
        ParseError,
    >)
        ensures
            r is Ok,
    {
        Ok(SemanticInfo {  })
    }

    /// Applies configuration; the scaffolding pass keeps none.
    pub fn with_config(self, _config: Config) -> (r: SemanticAnalyzer) {
        self
    }
}

/// What semantic analysis gathered.
#[derive(Debug, Clone)]
pub struct SemanticInfo {}

/// Configuration options for semantic analysis.
#[derive(Debug, Clone)]
pub struct Config {}

/// One semantic finding.
#[derive(Debug, Clone)]
pub struct SemanticError {}

} // verus!
