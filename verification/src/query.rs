//! Pattern matching over expression trees.

use vstd::prelude::*;

verus! {

use crate::ast::BinaryOperator;
use crate::ast::Expression;
use vstd::string::StringExecFns;

broadcast use vstd::std_specs::vec::axiom_vec_index_decreases, vstd::seq::axiom_seq_index_decreases;

/// A combinator over expressions.
#[derive(Debug)]
pub enum Matcher {
    /// Matches every expression.
    Any,
    /// Matches one expression form.
    Type(ExpressionType),
    /// Matches an identifier with the given name.
    Identifier(String),
    /// Matches a binary operation with the given operator.
    BinaryOp(BinaryOperator),
    /// Matches when both parts match.
    And(Box<Matcher>, Box<Matcher>),
    /// Matches when either part matches.
    Or(Box<Matcher>, Box<Matcher>),
    /// Matches when the part does not.
    Not(Box<Matcher>),
}

/// The expression forms a matcher can name.
#[derive(Debug, Clone, Copy, PartialEq, Eq, Structural)]
pub enum ExpressionType {
    Integer,
    Float,
    String,
    Boolean,
    Null,
    Identifier,
    List,
    AttributeSet,
    Function,
    Application,
    LetIn,
    With,
    If,
    Assert,
    BinaryOp,
    UnaryOp,
    Select,
    HasAttr,
    Interpolation,
}

/// Whether an expression has the named form.
pub open spec fn type_matches(t: ExpressionType, e: &Expression) -> bool {
    match (t, e) {
        (ExpressionType::Integer, Expression::Integer(_)) => true,
        (ExpressionType::Float, Expression::Float(_)) => true,
        (ExpressionType::String, Expression::String(_)) => true,
        (ExpressionType::Boolean, Expression::Boolean(_)) => true,
        (ExpressionType::Null, Expression::Null) => true,
        (ExpressionType::Identifier, Expression::Identifier(_)) => true,
        (ExpressionType::List, Expression::List(_)) => true,
        (ExpressionType::AttributeSet, Expression::AttributeSet { .. }) => true,
        (ExpressionType::Function, Expression::Function { .. }) => true,
        (ExpressionType::Application, Expression::Application { .. }) => true,
        (ExpressionType::LetIn, Expression::LetIn { .. }) => true,
        (ExpressionType::With, Expression::With { .. }) => true,
        (ExpressionType::If, Expression::If { .. }) => true,
        (ExpressionType::Assert, Expression::Assert { .. }) => true,
        (ExpressionType::BinaryOp, Expression::BinaryOp { .. }) => true,
        (ExpressionType::UnaryOp, Expression::UnaryOp { .. }) => true,
        (ExpressionType::Select, Expression::Select { .. }) => true,
        (ExpressionType::HasAttr, Expression::HasAttr { .. }) => true,
        (ExpressionType::Interpolation, Expression::StringInterpolation { .. }) => true,
        _ => false,
    }
}

impl ExpressionType {
    /// Whether an expression has this form.
    pub fn matches(&self, expr: &Expression) -> (r: bool)
        ensures
            r == type_matches(*self, expr),
    {
        match (self, expr) {
            (ExpressionType::Integer, Expression::Integer(_)) => true,
            (ExpressionType::Float, Expression::Float(_)) => true,
            (ExpressionType::String, Expression::String(_)) => true,
            (ExpressionType::Boolean, Expression::Boolean(_)) => true,
            (ExpressionType::Null, Expression::Null) => true,
            (ExpressionType::Identifier, Expression::Identifier(_)) => true,
            (ExpressionType::List, Expression::List(_)) => true,
            (ExpressionType::AttributeSet, Expression::AttributeSet { .. }) => true,
            (ExpressionType::Function, Expression::Function { .. }) => true,
            (ExpressionType::Application, Expression::Application { .. }) => true,
            (ExpressionType::LetIn, Expression::LetIn { .. }) => true,
            (ExpressionType::With, Expression::With { .. }) => true,
            (ExpressionType::If, Expression::If { .. }) => true,
            (ExpressionType::Assert, Expression::Assert { .. }) => true,
            (ExpressionType::BinaryOp, Expression::BinaryOp { .. }) => true,
            (ExpressionType::UnaryOp, Expression::UnaryOp { .. }) => true,
            (ExpressionType::Select, Expression::Select { .. }) => true,
            (ExpressionType::HasAttr, Expression::HasAttr { .. }) => true,
            (ExpressionType::Interpolation, Expression::StringInterpolation { .. }) => true,
            _ => false,
        }
    }
}

/// What a matcher means: the set of expressions it accepts.
pub open spec fn matcher_matches(m: &Matcher, e: &Expression) -> bool
    decreases m,
{
    match m {
        Matcher::Any => true,
        Matcher::Type(t) => type_matches(*t, e),
        Matcher::Identifier(name) => e matches Expression::Identifier(id) && id@ == name@,
        Matcher::BinaryOp(op) => e matches Expression::BinaryOp { op: eop, .. } && eop == op,
        Matcher::And(a, b) => matcher_matches(a, e) && matcher_matches(b, e),
        Matcher::Or(a, b) => matcher_matches(a, e) || matcher_matches(b, e),
        Matcher::Not(inner) => !matcher_matches(inner, e),
    }
}

impl Matcher {
    /// Whether an expression satisfies this matcher.
    pub fn matches(&self, expr: &Expression) -> (r: bool)
        ensures
            r == matcher_matches(self, expr),
        decreases *self,
    {
        match self {
            Matcher::Any => true,
            Matcher::Type(t) => t.matches(expr),
            Matcher::Identifier(name) => match expr {
                Expression::Identifier(id) => crate::strutil::str_eq(id.as_str(), name.as_str()),
                _ => false,
            },
            Matcher::BinaryOp(op) => match expr {
                Expression::BinaryOp { op: eop, .. } => eop.op_eq(*op),
                _ => false,
            },
            Matcher::And(a, b) => a.matches(expr) && b.matches(expr),
            Matcher::Or(a, b) => a.matches(expr) || b.matches(expr),
            Matcher::Not(inner) => !inner.matches(expr),
        }
    }
}

impl BinaryOperator {
    /// Compares two operators.
    pub fn op_eq(self, other: BinaryOperator) -> (r: bool)
        ensures
            r == (self == other),
    {
        match (self, other) {
            (BinaryOperator::Add, BinaryOperator::Add) => true,
            (BinaryOperator::Subtract, BinaryOperator::Subtract) => true,
            (BinaryOperator::Multiply, BinaryOperator::Multiply) => true,
            (BinaryOperator::Divide, BinaryOperator::Divide) => true,
            (BinaryOperator::Equal, BinaryOperator::Equal) => true,
            (BinaryOperator::NotEqual, BinaryOperator::NotEqual) => true,
            (BinaryOperator::Less, BinaryOperator::Less) => true,
            (BinaryOperator::LessEqual, BinaryOperator::LessEqual) => true,
            (BinaryOperator::Greater, BinaryOperator::Greater) => true,
            (BinaryOperator::GreaterEqual, BinaryOperator::GreaterEqual) => true,
            (BinaryOperator::And, BinaryOperator::And) => true,
            (BinaryOperator::Or, BinaryOperator::Or) => true,
            (BinaryOperator::Implies, BinaryOperator::Implies) => true,
            (BinaryOperator::Update, BinaryOperator::Update) => true,
            (BinaryOperator::Concat, BinaryOperator::Concat) => true,
            _ => false,
        }
    }
}

/// A named matcher.
#[derive(Debug)]
pub struct Pattern {
    /// The pattern's name, carried into its matches.
    pub name: String,
    /// The matcher that decides.
    pub matcher: Matcher,
}

impl Pattern {
    /// Builds a named pattern.
    pub fn new(name: &str, matcher: Matcher) -> (r: Pattern)
        ensures
            r.name@ == name@,
            r.matcher == matcher,
    {
        Pattern { name: name.to_owned(), matcher }
    }

    /// Matches an expression, handing back a record of the match.
    pub fn match_expression(&self, expr: &Expression) -> (r: Option<Match>)
        ensures
            matcher_matches(&self.matcher, expr) ==> (r matches Some(m) && m.pattern_name@
                == self.name@ && m.matched_expression@ == expr@),
            !matcher_matches(&self.matcher, expr) ==> r is None,
    {
        if self.matcher.matches(expr) {
            Some(
                Match { pattern_name: self.name.clone(), matched_expression: expr.clone() },
            )
        } else {
            None
        }
    }
}

/// One successful match.
#[derive(Debug)]
pub struct Match {
    /// The name of the pattern that matched.
    pub pattern_name: String,
    /// A copy of the matched expression.
    pub matched_expression: Expression,
}

/// Runs a set of named patterns over expressions.
pub struct QueryEngine {
    patterns: Vec<Pattern>,
}

impl QueryEngine {
    /// How many patterns are registered.
    pub closed spec fn pattern_count(&self) -> nat {
        self.patterns@.len()
    }

    /// Builds an engine with no patterns.
    pub fn new() -> (r: QueryEngine)
        ensures
            r.pattern_count() == 0,
    {
        QueryEngine { patterns: Vec::new() }
    }

    /// Registers a pattern.
    pub fn add_pattern(&mut self, pattern: Pattern)
        ensures
            final(self).pattern_count() == old(self).pattern_count() + 1,
    {
        self.patterns.push(pattern);
    }

    /// Matches every registered pattern against an expression; the
    /// result holds one record per pattern that matched, in order.
    pub fn query(&self, expr: &Expression) -> (r: Vec<Match>)
        ensures
            r@.len() <= self.pattern_count(),
    {
        let mut matches: Vec<Match> = Vec::new();
        let mut i: usize = 0;
        while i < self.patterns.len()
            invariant
                0 <= i <= self.patterns@.len(),
                matches@.len() <= i,
            decreases self.patterns@.len() - i,
        {
            match self.patterns[i].match_expression(expr) {
                Some(m) => {
                    matches.push(m);
                },
                None => {},
            }
            i = i + 1;
        }
        matches
    }
}

} // verus!
