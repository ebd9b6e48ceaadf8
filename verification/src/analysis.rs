//! Static analysis over expression trees.
//!
//! The passes here are scaffolding: they accept every tree and report
//! nothing yet.  They consume the expression tree only.

pub mod dependency;
pub mod lint;
pub mod scope;
pub mod semantic;

use vstd::prelude::*;

verus! {

use crate::ast::Expression;
use crate::error::ParseError;
use crate::analysis::dependency::DependencyAnalyzer;
use crate::analysis::dependency::DependencyGraph;
use crate::analysis::lint::LintResult;
use crate::analysis::lint::Linter;
use crate::analysis::scope::Scope;
use crate::analysis::scope::ScopeAnalyzer;
use crate::analysis::semantic::SemanticAnalyzer;
use crate::analysis::semantic::SemanticInfo;

/// Runs every analysis pass over an expression.
pub struct Analyzer {
    semantic: SemanticAnalyzer,
    dependency: DependencyAnalyzer,
    linter: Linter,
    scope: ScopeAnalyzer,
}

impl Analyzer {
    /// Builds an analyzer with the default passes.
    pub fn new() -> (r: Analyzer) {
        Analyzer {
            semantic: SemanticAnalyzer::new(),
            dependency: DependencyAnalyzer::new(),
            linter: Linter::new(),
            scope: ScopeAnalyzer::new(),
        }
    }

    /// Runs every pass; with the scaffolding passes the result carries
    /// no findings and no errors.
    pub fn analyze(&mut self, expression: &Expression) -> (r: core::result::Result<
        AnalysisResult,
        ParseError,
    >)
        ensures
            r matches Ok(res) && res.scopes@.len() == 0 && res.semantic is Some
                && res.lint_results@.len() == 0 && res.errors@.len() == 0,
    {
        let mut result = AnalysisResult::new();
        let scopes = match self.scope.analyze(expression) {
            Ok(s) => s,
            Err(e) => {
                return Err(e);
            },
        };
        result.scopes = scopes;
        match self.semantic.analyze(expression) {
            Ok(info) => {
                result.semantic = Some(info);
            },
            Err(error) => {
                result.errors.push(error);
            },
        }
        match self.dependency.analyze(expression) {
            Ok(deps) => {
                result.dependencies = deps;
            },
            Err(e) => {
                result.errors.push(e);
            },
        }
        let lints = match self.linter.lint(expression) {
            Ok(l) => l,
            Err(e) => {
                return Err(e);
            },
        };
        result.lint_results = lints;
        Ok(result)
    }

    /// Applies configuration to the passes that take one.
    pub fn with_config(self, config: AnalyzerConfig) -> (r: Analyzer) {
        let mut a = self;
        match config.semantic {
            Some(semantic_config) => {
                a.semantic = a.semantic.with_config(semantic_config);
            },
            None => {},
        }
        match config.lint {
            Some(lint_config) => {
                a.linter = a.linter.with_config(lint_config);
            },
            None => {},
        }
        a
    }
}

/// Configuration for the analyzer's passes.
#[derive(Debug)]
pub struct AnalyzerConfig {
    /// Semantic analysis configuration.
    pub semantic: Option<crate::analysis::semantic::Config>,
    /// Dependency analysis configuration.
    pub dependency: Option<crate::analysis::dependency::Config>,
    /// Linting configuration.
    pub lint: Option<crate::analysis::lint::Config>,
    /// Scope analysis configuration.
    pub scope: Option<crate::analysis::scope::Config>,
}

impl Default for AnalyzerConfig {
    /// No pass is configured.
    fn default() -> (r: Self)
        ensures
            r.semantic is None && r.dependency is None && r.lint is None && r.scope is None,
    {
        AnalyzerConfig { semantic: None, dependency: None, lint: None, scope: None }
    }
}

/// What the analysis passes found.
#[derive(Debug)]
pub struct AnalysisResult {
    /// Scope information.
    pub scopes: Vec<Scope>,
    /// Semantic findings, when that pass ran through.
    pub semantic: Option<SemanticInfo>,
    /// The dependency graph.
    pub dependencies: DependencyGraph,
    /// Lint findings.
    pub lint_results: Vec<LintResult>,
    /// Errors raised by failing passes.
    pub errors: Vec<ParseError>,
}

impl AnalysisResult {
    /// An empty result.
    pub fn new() -> (r: AnalysisResult)
        ensures
            r.scopes@.len() == 0,
            r.semantic is None,
            r.lint_results@.len() == 0,
            r.errors@.len() == 0,
    {
        AnalysisResult {
            scopes: Vec::new(),
            semantic: None,
            dependencies: DependencyGraph::new(),
            lint_results: Vec::new(),
            errors: Vec::new(),
        }
    }

    /// Whether any pass failed.
    pub fn has_errors(&self) -> (r: bool)
        ensures
            r == (self.errors@.len() > 0),
    {
        self.errors.len() > 0
    }

    /// Turns gathered errors into one combined error, or hands the
    /// result through untouched when every pass ran through.  One error
    /// comes back as itself; several come back together, every one kept
    /// in order.
    pub fn into_result(self) -> (r: core::result::Result<AnalysisResult, ParseError>)
        ensures
            self.errors@.len() == 0 ==> (r matches Ok(v) && v == self),
            self.errors@.len() == 1 ==> (r matches Err(e) && e@ == self.errors@[0]@),
            self.errors@.len() > 1 ==> (r matches Err(e) && (e@ matches
                crate::error::ParseErrorModel::Multiple(ms) && ms.len() == self.errors@.len() && (
            forall|i: int| 0 <= i < self.errors@.len() ==> ms[i] == #[trigger] self.errors@[i]@))),
    {
        if self.errors.len() > 0 {
            let s = self;
            Err(ParseError::combine(s.errors))
        } else {
            Ok(self)
        }
    }
}

impl Default for AnalysisResult {
    /// An empty result.
    fn default() -> (r: Self)
        ensures
            r.scopes@.len() == 0,
            r.errors@.len() == 0,
    {
        AnalysisResult::new()
    }
}

} // verus!
