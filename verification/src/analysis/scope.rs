//! Scope analysis for name resolution.

use vstd::prelude::*;

verus! {

use crate::ast::Expression;
use crate::error::ParseError;

/// Tracks variable scopes and bindings.
pub struct ScopeAnalyzer {}

impl ScopeAnalyzer {
    /// Builds the analyzer.
    pub fn new() -> (r: ScopeAnalyzer) {
        ScopeAnalyzer {  }
    }

    /// Analyzes an expression; the scaffolding pass finds no scopes.
    pub fn analyze(&mut self, _expr: &Expression) -> (r: core::result::Result<
        Vec<Scope>,
        ParseError,
    >)
        ensures
            r matches Ok(v) && v@.len() == 0,
    {
        Ok(Vec::new())
    }
}

/// One variable scope.
#[derive(Debug, Clone)]
pub struct Scope {}

/// The kinds of scope an expression can open.
#[derive(Debug, Clone)]
pub enum ScopeType {
    /// The scope a let expression opens.
    Let,
}

/// Configuration options for scope analysis.
#[derive(Debug, Clone)]
pub struct Config {}

} // verus!
