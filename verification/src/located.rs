//! Expressions paired with their source locations, and diagnostics that
//! carry an optional suggestion.

use vstd::prelude::*;

verus! {

use crate::ast::Expression;
use crate::ast::SourceLocation;
use crate::cst::CstNode;
use vstd::string::StringExecFns;

/// An expression together with where it came from.
#[derive(Debug)]
pub struct LocatedExpression {
    /// The expression itself.
    pub expr: Expression,
    /// The source range it was lowered from.
    pub loc: SourceLocation,
}

impl LocatedExpression {
    /// Pairs an expression with a location.
    pub fn new(expr: Expression, loc: SourceLocation) -> (r: LocatedExpression)
        ensures
            r.expr@ == expr@,
            r.loc == loc,
    {
        LocatedExpression { expr, loc }
    }

    /// Pairs an expression with the range of the node it came from.
    pub fn from_node(expr: Expression, node: &CstNode) -> (r: LocatedExpression)
        requires
            node@.start_row < usize::MAX,
            node@.start_col < usize::MAX,
        ensures
            r.expr@ == expr@,
            r.loc.start_byte == node@.start_byte,
            r.loc.end_byte == node@.end_byte,
    {
        LocatedExpression { expr, loc: SourceLocation::from_tree_sitter_node(node) }
    }
}

/// A parse result that keeps the lowered expression with its location.
pub struct ParseResultWithLocation {
    /// The engine's tree handle.
    pub tree: tree_sitter::Tree,
    /// The lowered expression, where lowering went through.
    pub ast: Option<LocatedExpression>,
    /// The text that was parsed.
    pub source: String,
    /// The collected diagnostics.
    pub diagnostics: Vec<Diagnostic>,
}

/// A located diagnostic with an optional suggested fix.
#[derive(Debug)]
pub struct Diagnostic {
    /// How grave the finding is.
    pub severity: Severity,
    /// The human-readable message.
    pub message: String,
    /// Where in the source the finding lies.
    pub location: SourceLocation,
    /// A suggested fix, if one is known.
    pub suggestion: Option<String>,
}

/// Severity levels for located diagnostics.
#[derive(Debug, Clone, Copy, PartialEq, Eq, Structural)]
pub enum Severity {
    /// Invalid syntax.
    Error,
    /// Suspicious but acceptable input.
    Warning,
    /// Neutral information.
    Info,
    /// A gentle suggestion.
    Hint,
}

impl Diagnostic {
    /// Builds an error diagnostic at the given place.
    pub fn error(message: String, location: SourceLocation) -> (r: Diagnostic)
        ensures
            r.severity == Severity::Error,
            r.message@ == message@,
            r.location == location,
            r.suggestion is None,
    {
        Diagnostic { severity: Severity::Error, message, location, suggestion: None }
    }

    /// Attaches a suggested fix.
    pub fn with_suggestion(self, suggestion: String) -> (r: Diagnostic)
        ensures
            r.severity == self.severity,
            r.message@ == self.message@,
            r.location == self.location,
            r.suggestion matches Some(s) && s@ == suggestion@,
    {
        let mut d = self;
        d.suggestion = Some(suggestion);
        d
    }
}

} // verus!
