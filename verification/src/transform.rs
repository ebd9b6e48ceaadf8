//! Transformations over expression trees.
//!
//! The passes here are scaffolding: each hands its input back unchanged,
//! so the combined transformation applies no step.

pub mod codegen;
pub mod normalize;
pub mod optimize;
pub mod refactor;
pub mod utils;

use vstd::prelude::*;

verus! {

use crate::ast::Expression;
use crate::error::ParseError;
use crate::transform::normalize::Normalizer;
use crate::transform::optimize::Optimizer;
use crate::transform::refactor::Refactorer;
use vstd::string::StringExecFns;

/// Runs every transformation pass over an expression.
pub struct Transformer {
    refactorer: Refactorer,
    optimizer: Optimizer,
    normalizer: Normalizer,
}

impl Transformer {
    /// Builds a transformer with the default passes.
    pub fn new() -> (r: Transformer) {
        Transformer {
            refactorer: Refactorer::new(),
            optimizer: Optimizer::new(),
            normalizer: Normalizer::new(),
        }
    }

    /// Applies normalisation, optimisation and refactoring in turn.
    /// With the scaffolding passes each keeps the expression's value,
    /// so no step is recorded and the result equals the input.
    pub fn transform(&mut self, expression: Expression) -> (r: core::result::Result<
        TransformResult,
        ParseError,
    >)
        ensures
            r matches Ok(res) && res.original@ == expression@ && res.transformed@ == expression@
                && res.steps@.len() == 0,
    {
        let mut current = expression.clone();
        let steps: Vec<TransformStep> = Vec::new();
        let normalized = match self.normalizer.normalize(current) {
            Ok(n) => n,
            Err(e) => {
                return Err(e);
            },
        };
        current = normalized;
        let optimized = match self.optimizer.optimize(current) {
            Ok(o) => o,
            Err(e) => {
                return Err(e);
            },
        };
        current = optimized.expression;
        match self.refactorer.refactor(&current) {
            Ok(_results) => {},
            Err(e) => {
                return Err(e);
            },
        }
        Ok(TransformResult { original: expression, transformed: current, steps })
    }

    /// Applies configuration to the passes that take one.
    pub fn with_config(self, config: TransformerConfig) -> (r: Transformer) {
        let mut t = self;
        match config.refactor {
            Some(c) => {
                t.refactorer = t.refactorer.with_config(c);
            },
            None => {},
        }
        match config.optimizer {
            Some(c) => {
                t.optimizer = t.optimizer.with_config(c);
            },
            None => {},
        }
        match config.normalizer {
            Some(c) => {
                t.normalizer = t.normalizer.with_config(c);
            },
            None => {},
        }
        t
    }
}

impl Default for Transformer {
    /// A transformer with the default passes.
    fn default() -> (r: Self) {
        Transformer::new()
    }
}

/// Configuration for the transformer's passes.
#[derive(Debug)]
pub struct TransformerConfig {
    /// Refactoring configuration.
    pub refactor: Option<crate::transform::refactor::Config>,
    /// Optimisation configuration.
    pub optimizer: Option<crate::transform::optimize::Config>,
    /// Normalisation configuration.
    pub normalizer: Option<crate::transform::normalize::Config>,
}

impl Default for TransformerConfig {
    /// No pass is configured.
    fn default() -> (r: Self)
        ensures
            r.refactor is None && r.optimizer is None && r.normalizer is None,
    {
        TransformerConfig { refactor: None, optimizer: None, normalizer: None }
    }
}

/// What a transformation run produced.
#[derive(Debug)]
pub struct TransformResult {
    /// The expression before any pass.
    pub original: Expression,
    /// The expression after every pass.
    pub transformed: Expression,
    /// The steps that changed something, in order.
    pub steps: Vec<TransformStep>,
}

impl TransformResult {
    /// Whether any step changed the expression.
    pub fn was_transformed(&self) -> (r: bool)
        ensures
            r == (self.steps@.len() > 0),
    {
        self.steps.len() > 0
    }

    /// Renders a one-line summary of the applied steps.
    pub fn summary(&self) -> (r: String)
        ensures
            self.steps@.len() == 0 ==> r@ == "No transformations applied"@,
    {
        if self.steps.len() == 0 {
            return String::from_str("No transformations applied");
        }
        let mut out = String::new();
        out.append("Applied ");
        let n = crate::strutil::usize_to_string(self.steps.len());
        out.append(n.as_str());
        out.append(" transformation(s): ");
        let mut i: usize = 0;
        while i < self.steps.len()
            decreases self.steps@.len() - i,
        {
            if i > 0 {
                out.append(", ");
            }
            out.append(self.steps[i].name.as_str());
            i = i + 1;
        }
        out
    }
}

/// One transformation step: what changed and how.
#[derive(Debug)]
pub struct TransformStep {
    /// The rule's name.
    pub name: String,
    /// What the rule does, in words.
    pub description: String,
    /// The expression before the step.
    pub before: Expression,
    /// The expression after the step.
    pub after: Expression,
}

/// A transformation pass a library user can implement.
pub trait TransformPass {
    /// Applies the pass to an expression.
    fn apply(&mut self, expression: Expression) -> core::result::Result<Expression, ParseError>;

    /// The pass's name.
    fn name(&self) -> &str;

    /// What the pass does, in words.
    fn description(&self) -> &str;

    /// Whether the pass wants to run on the expression; the default
    /// accepts everything.
    fn should_apply(&self, _expression: &Expression) -> (r: bool) {
        true
    }
}

} // verus!
