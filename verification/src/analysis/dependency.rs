//! Dependency analysis over expression trees.

use vstd::prelude::*;

verus! {

use crate::ast::Expression;
use crate::error::ParseError;

/// Tracks imports and references to build a dependency graph.
pub struct DependencyAnalyzer {}

impl DependencyAnalyzer {
    /// Builds the analyzer.
    pub fn new() -> (r: DependencyAnalyzer) {
        DependencyAnalyzer {  }
    }

    /// Analyzes an expression; the scaffolding pass finds no edges.
    pub fn analyze(&mut self, _expression: &Expression) -> (r: core::result::Result<
        DependencyGraph,
        ParseError,
    >)
        ensures
            r is Ok,
    {
        Ok(DependencyGraph::new())
    }
}

/// One dependency relationship.
#[derive(Debug, Clone)]
pub struct Dependency {}

/// The dependencies found in analyzed code.
#[derive(Debug, Clone)]
pub struct DependencyGraph {}

impl DependencyGraph {
    /// An empty graph.
    pub fn new() -> (r: DependencyGraph) {
        DependencyGraph {  }
    }
}

/// Configuration options for dependency analysis.
#[derive(Debug, Clone)]
pub struct Config {}

} // verus!
