//! Refactoring of expression trees.

use vstd::prelude::*;

verus! {

use crate::ast::Expression;
use crate::error::ParseError;

/// Applies refactoring rules that keep an expression's meaning.
pub struct Refactorer {}

impl Refactorer {
    /// Builds a refactorer with the default rules.
    pub fn new() -> (r: Refactorer) {
        Refactorer {  }
    }

    /// Refactors an expression; the scaffolding pass changes nothing.
    pub fn refactor(&mut self, _expr: &Expression) -> (r: core::result::Result<
        Vec<RefactorResult>,
        ParseError,
    >)
        ensures
            r matches Ok(v) && v@.len() == 0,
    {
        Ok(Vec::new())
    }

    /// Applies configuration; the scaffolding pass keeps none.
    pub fn with_config(self, _config: Config) -> (r: Refactorer) {
        self
    }
}

/// One refactoring rule.
#[derive(Debug, Clone)]
pub struct RefactorRule {}

/// What one refactoring rule did.
#[derive(Debug)]
pub struct RefactorResult {
    /// The rule's name.
    pub rule_name: String,
    /// What was done, in words.
    pub description: String,
    /// The expression before the rule.
    pub before: Expression,
    /// The expression after the rule.
    pub after: Expression,
}

/// Configuration options for refactoring.
#[derive(Debug, Clone)]
pub struct Config {}

} // verus!
