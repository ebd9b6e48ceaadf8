//! A visitor over expression trees, with one overridable callback per
//! node form and a default walk that reaches every sub-expression.

use vstd::prelude::*;

verus! {

use crate::ast::Attribute;
use crate::ast::BinaryOperator;
use crate::ast::Binding;
use crate::ast::Expression;
use crate::ast::Parameter;
use crate::ast::PathType;
use crate::ast::StringPart;
use crate::ast::UnaryOperator;
use vstd::string::StringExecFns;

broadcast use vstd::std_specs::vec::axiom_vec_index_decreases, vstd::seq::axiom_seq_index_decreases;

/// Callbacks for each expression form; each defaults to doing nothing.
/// `walk_expression` drives a visitor through a whole tree.
pub trait Visitor {
    /// Called for each expression before its parts.
    fn visit_expression(&mut self, expr: &Expression) {
    }

    /// Called for each integer literal.
    fn visit_integer(&mut self, n: i64) {
    }

    /// Called for each float literal, with its source text.
    fn visit_float(&mut self, f: &str) {
    }

    /// Called for each string literal.
    fn visit_string(&mut self, s: &str) {
    }

    /// Called for each path literal.
    fn visit_path(&mut self, p: &PathType) {
    }

    /// Called for each boolean literal.
    fn visit_boolean(&mut self, b: bool) {
    }

    /// Called for each null literal.
    fn visit_null(&mut self) {
    }

    /// Called for each identifier.
    fn visit_identifier(&mut self, id: &str) {
    }

    /// Called for each binary operation, with operator and operands.
    fn visit_binary_op(&mut self, op: BinaryOperator, left: &Expression, right: &Expression) {
    }

    /// Called for each unary operation, with operator and operand.
    fn visit_unary_op(&mut self, op: UnaryOperator, operand: &Expression) {
    }

    /// Called for each function parameter.
    fn visit_parameter(&mut self, p: &Parameter) {
    }

    /// Called for each interpolated string, with its parts.
    fn visit_string_interpolation(&mut self, parts: &Vec<StringPart>) {
    }

    /// Called for each list, with its elements.
    fn visit_list(&mut self, items: &Vec<Expression>) {
    }

    /// Called for each attribute set, with its flag and attributes.
    fn visit_attribute_set(&mut self, recursive: bool, attributes: &Vec<Attribute>) {
    }

    /// Called for each function, with its parameter and body.
    fn visit_function(&mut self, parameter: &Parameter, body: &Expression) {
    }

    /// Called for each application, with its function and argument.
    fn visit_application(&mut self, function: &Expression, argument: &Expression) {
    }

    /// Called for each let expression, with its bindings and body.
    fn visit_let_in(&mut self, bindings: &Vec<Binding>, body: &Expression) {
    }

    /// Called for each with expression, with its scope and body.
    fn visit_with(&mut self, scope: &Expression, body: &Expression) {
    }

    /// Called for each conditional, with its three parts.
    fn visit_if(
        &mut self,
        condition: &Expression,
        then_branch: &Expression,
        else_branch: &Expression,
    ) {
    }

    /// Called for each assertion, with its condition and body.
    fn visit_assert(&mut self, condition: &Expression, body: &Expression) {
    }

    /// Called for each selection, with its subject, path and default.
    fn visit_select(&mut self, expr: &Expression, path: &Vec<String>, default: &Option<
        Box<Expression>,
    >) {
    }

    /// Called for each attribute test, with its subject and path.
    fn visit_has_attr(&mut self, expr: &Expression, path: &Vec<String>) {
    }

    /// Called for each import, with its path expression.
    fn visit_import(&mut self, path: &Expression) {
    }

    /// Called for each inherit statement, with its source and names.
    fn visit_inherit(&mut self, source: &Option<Box<Expression>>, attributes: &Vec<String>) {
    }
}

/// Drives a visitor through an expression tree: the expression callback
/// first, then the form's own callback, then every sub-expression in
/// document order.
pub fn walk_expression<V: Visitor>(v: &mut V, expr: &Expression)
    decreases *expr, 1nat,
{
    v.visit_expression(expr);
    match expr {
        Expression::Integer(n) => {
            v.visit_integer(*n);
        },
        Expression::Float(f) => {
            v.visit_float(f.as_str());
        },
        Expression::String(s) => {
            v.visit_string(s.as_str());
        },
        Expression::StringInterpolation { parts } => {
            v.visit_string_interpolation(parts);
            walk_parts(v, parts, 0);
        },
        Expression::Path(p) => {
            v.visit_path(p);
        },
        Expression::Boolean(b) => {
            v.visit_boolean(*b);
        },
        Expression::Null => {
            v.visit_null();
        },
        Expression::Identifier(id) => {
            v.visit_identifier(id.as_str());
        },
        Expression::List(items) => {
            v.visit_list(items);
            walk_exprs(v, items, 0);
        },
        Expression::AttributeSet { recursive, attributes } => {
            v.visit_attribute_set(*recursive, attributes);
            walk_attrs(v, attributes, 0);
        },
        Expression::Function { parameter, body } => {
            v.visit_parameter(parameter);
            v.visit_function(parameter, body);
            walk_expression(v, body);
        },
        Expression::Application { function, argument } => {
            v.visit_application(function, argument);
            walk_expression(v, function);
            walk_expression(v, argument);
        },
        Expression::LetIn { bindings, body } => {
            v.visit_let_in(bindings, body);
            walk_bindings(v, bindings, 0);
            walk_expression(v, body);
        },
        Expression::With { scope, body } => {
            v.visit_with(scope, body);
            walk_expression(v, scope);
            walk_expression(v, body);
        },
        Expression::If { condition, then_branch, else_branch } => {
            v.visit_if(condition, then_branch, else_branch);
            walk_expression(v, condition);
            walk_expression(v, then_branch);
            walk_expression(v, else_branch);
        },
        Expression::Assert { condition, body } => {
            v.visit_assert(condition, body);
            walk_expression(v, condition);
            walk_expression(v, body);
        },
        Expression::BinaryOp { op, left, right } => {
            v.visit_binary_op(*op, left, right);
            walk_expression(v, left);
            walk_expression(v, right);
        },
        Expression::UnaryOp { op, operand } => {
            v.visit_unary_op(*op, operand);
            walk_expression(v, operand);
        },
        Expression::Select { expr: obj, path, default } => {
            v.visit_select(obj, path, default);
            walk_expression(v, obj);
            match default {
                Some(d) => {
                    walk_expression(v, d);
                },
                None => {},
            }
        },
        Expression::HasAttr { expr: obj, path } => {
            v.visit_has_attr(obj, path);
            walk_expression(v, obj);
        },
        Expression::Import { path } => {
            v.visit_import(path);
            walk_expression(v, path);
        },
        Expression::Inherit { source, attributes } => {
            v.visit_inherit(source, attributes);
            match source {
                Some(s) => {
                    walk_expression(v, s);
                },
                None => {},
            }
        },
    }
}

/// Walks the expressions of `items[i..]`.
fn walk_exprs<V: Visitor>(v: &mut V, items: &Vec<Expression>, i: usize)
    decreases *items, 0nat, items@.len() - i,
{
    if i < items.len() {
        walk_expression(v, &items[i]);
        walk_exprs(v, items, i + 1);
    }
}

/// Walks the parts of an interpolated string, visiting each splice.
fn walk_parts<V: Visitor>(v: &mut V, parts: &Vec<StringPart>, i: usize)
    decreases *parts, 0nat, parts@.len() - i,
{
    if i < parts.len() {
        match &parts[i] {
            StringPart::Literal(_) => {},
            StringPart::Interpolation(e) => {
                walk_expression(v, e);
            },
        }
        walk_parts(v, parts, i + 1);
    }
}

/// Walks the values of an attribute set.
fn walk_attrs<V: Visitor>(v: &mut V, attrs: &Vec<Attribute>, i: usize)
    decreases *attrs, 0nat, attrs@.len() - i,
{
    if i < attrs.len() {
        walk_expression(v, &attrs[i].value);
        walk_attrs(v, attrs, i + 1);
    }
}

/// Walks the values and sources of let bindings.
fn walk_bindings<V: Visitor>(v: &mut V, bindings: &Vec<Binding>, i: usize)
    decreases *bindings, 0nat, bindings@.len() - i,
{
    if i < bindings.len() {
        walk_expression(v, &bindings[i].value);
        match &bindings[i].from {
            Some(f) => {
                walk_expression(v, f);
            },
            None => {},
        }
        walk_bindings(v, bindings, i + 1);
    }
}

/// A visitor that gathers every identifier it sees.
pub struct IdentifierCollector {
    /// The identifiers seen so far, in visit order.
    pub identifiers: Vec<String>,
}

impl IdentifierCollector {
    /// Builds a collector with nothing gathered.
    pub fn new() -> (r: IdentifierCollector)
        ensures
            r.identifiers@.len() == 0,
    {
        IdentifierCollector { identifiers: Vec::new() }
    }
}

impl Visitor for IdentifierCollector {
    fn visit_identifier(&mut self, id: &str) {
        self.identifiers.push(id.to_owned());
    }
}

} // verus!
