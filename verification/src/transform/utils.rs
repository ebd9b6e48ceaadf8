//! Helpers for applying transformation passes.

use vstd::prelude::*;

verus! {

use crate::ast::Attribute;
use crate::ast::Binding;
use crate::ast::Expression;
use crate::ast::Parameter;
use crate::ast::PathType;
use crate::ast::PatternField;
use crate::ast::StringPart;
use crate::error::ParseError;
use crate::strutil::str_eq;
use crate::transform::TransformPass;
use crate::transform::TransformStep;
use vstd::string::StringExecFns;

broadcast use vstd::std_specs::vec::axiom_vec_index_decreases, vstd::seq::axiom_seq_index_decreases;

/// Applies one pass to an expression, recording a step when the pass
/// changed the expression's structure.
pub fn apply_pass<P: TransformPass>(pass: P, expression: Expression) -> (r: core::result::Result<
    Option<TransformStep>,
    ParseError,
>) {
    let mut pass = pass;
    if !pass.should_apply(&expression) {
        return Ok(None);
    }
    let before = expression.clone();
    match pass.apply(expression) {
        Ok(after) => {
            if expressions_equal(&after, &before) {
                Ok(None)
            } else {
                Ok(
                    Some(
                        TransformStep {
                            name: pass.name().to_owned(),
                            description: pass.description().to_owned(),
                            before,
                            after,
                        },
                    ),
                )
            }
        },
        Err(e) => Err(e),
    }
}

/// Whether two expressions are structurally equal: same form, same
/// literals, and equal parts throughout.
pub fn expressions_equal(a: &Expression, b: &Expression) -> (r: bool)
    ensures
        r == (a@ == b@),
    decreases *a, 1nat,
{
    match (a, b) {
        (Expression::Integer(x), Expression::Integer(y)) => *x == *y,
        (Expression::Float(x), Expression::Float(y)) => str_eq(x.as_str(), y.as_str()),
        (Expression::String(x), Expression::String(y)) => str_eq(x.as_str(), y.as_str()),
        (
            Expression::StringInterpolation { parts: xp },
            Expression::StringInterpolation { parts: yp },
        ) => {
            let r = parts_equal(xp, yp, 0);
            proof {
                crate::ast::lemma_interp_model(*xp);
                crate::ast::lemma_interp_model(*yp);
                crate::ast::lemma_parts_view_eq(*xp, *yp);
            }
            r
        },
        (Expression::Path(x), Expression::Path(y)) => paths_equal(x, y),
        (Expression::Boolean(x), Expression::Boolean(y)) => *x == *y,
        (Expression::Null, Expression::Null) => true,
        (Expression::Identifier(x), Expression::Identifier(y)) => str_eq(x.as_str(), y.as_str()),
        (Expression::List(xs), Expression::List(ys)) => {
            let r = exprs_equal(xs, ys, 0);
            proof {
                crate::ast::lemma_list_model(*xs);
                crate::ast::lemma_list_model(*ys);
                crate::ast::lemma_exprs_view_eq(*xs, *ys);
            }
            r
        },
        (
            Expression::AttributeSet { recursive: xr, attributes: xa },
            Expression::AttributeSet { recursive: yr, attributes: ya },
        ) => {
            let r = *xr == *yr && attrs_equal(xa, ya, 0);
            proof {
                crate::ast::lemma_attrset_model(*xr, *xa);
                crate::ast::lemma_attrset_model(*yr, *ya);
                crate::ast::lemma_attrs_view_eq(*xa, *ya);
            }
            r
        },
        (
            Expression::Function { parameter: xp, body: xb },
            Expression::Function { parameter: yp, body: yb },
        ) => params_equal(xp, yp) && expressions_equal(xb, yb),
        (
            Expression::Application { function: xf, argument: xa },
            Expression::Application { function: yf, argument: ya },
        ) => expressions_equal(xf, yf) && expressions_equal(xa, ya),
        (
            Expression::LetIn { bindings: xs, body: xb },
            Expression::LetIn { bindings: ys, body: yb },
        ) => {
            let r = bindings_equal(xs, ys, 0) && expressions_equal(xb, yb);
            proof {
                crate::ast::lemma_letin_model(*xs, *xb);
                crate::ast::lemma_letin_model(*ys, *yb);
                crate::ast::lemma_bindings_view_eq(*xs, *ys);
            }
            r
        },
        (
            Expression::With { scope: xs, body: xb },
            Expression::With { scope: ys, body: yb },
        ) => expressions_equal(xs, ys) && expressions_equal(xb, yb),
        (
            Expression::If { condition: xc, then_branch: xt, else_branch: xe },
            Expression::If { condition: yc, then_branch: yt, else_branch: ye },
        ) => expressions_equal(xc, yc) && expressions_equal(xt, yt) && expressions_equal(xe, ye),
        (
            Expression::Assert { condition: xc, body: xb },
            Expression::Assert { condition: yc, body: yb },
        ) => expressions_equal(xc, yc) && expressions_equal(xb, yb),
        (
            Expression::BinaryOp { op: xo, left: xl, right: xr },
            Expression::BinaryOp { op: yo, left: yl, right: yr },
        ) => xo.op_eq(*yo) && expressions_equal(xl, yl) && expressions_equal(xr, yr),
        (
            Expression::UnaryOp { op: xo, operand: xa },
            Expression::UnaryOp { op: yo, operand: ya },
        ) => unops_equal(*xo, *yo) && expressions_equal(xa, ya),
        (
            Expression::Select { expr: xe, path: xp, default: xd },
            Expression::Select { expr: ye, path: yp, default: yd },
        ) => {
            let r = expressions_equal(xe, ye) && strings_equal(xp, yp, 0) && (match (xd, yd) {
                (Some(x), Some(y)) => expressions_equal(x, y),
                (None, None) => true,
                _ => false,
            });
            proof {
                crate::ast::lemma_strings_view_eq(*xp, *yp);
            }
            r
        },
        (
            Expression::HasAttr { expr: xe, path: xp },
            Expression::HasAttr { expr: ye, path: yp },
        ) => {
            let r = expressions_equal(xe, ye) && strings_equal(xp, yp, 0);
            proof {
                crate::ast::lemma_strings_view_eq(*xp, *yp);
            }
            r
        },
        (Expression::Import { path: xp }, Expression::Import { path: yp }) => expressions_equal(
            xp,
            yp,
        ),
        (
            Expression::Inherit { source: xs, attributes: xa },
            Expression::Inherit { source: ys, attributes: ya },
        ) => {
            let r = strings_equal(xa, ya, 0) && (match (xs, ys) {
                (Some(x), Some(y)) => expressions_equal(x, y),
                (None, None) => true,
                _ => false,
            });
            proof {
                crate::ast::lemma_strings_view_eq(*xa, *ya);
            }
            r
        },
        _ => false,
    }
}

fn unops_equal(a: crate::ast::UnaryOperator, b: crate::ast::UnaryOperator) -> (r: bool)
    ensures
        r == (a == b),
{
    match (a, b) {
        (crate::ast::UnaryOperator::Not, crate::ast::UnaryOperator::Not) => true,
        (crate::ast::UnaryOperator::Negate, crate::ast::UnaryOperator::Negate) => true,
        _ => false,
    }
}

fn paths_equal(a: &PathType, b: &PathType) -> (r: bool)
    ensures
        r == (a@ == b@),
{
    match (a, b) {
        (PathType::Absolute(x), PathType::Absolute(y)) => str_eq(x.as_str(), y.as_str()),
        (PathType::Relative(x), PathType::Relative(y)) => str_eq(x.as_str(), y.as_str()),
        (PathType::Home(x), PathType::Home(y)) => str_eq(x.as_str(), y.as_str()),
        (PathType::Search(x), PathType::Search(y)) => str_eq(x.as_str(), y.as_str()),
        _ => false,
    }
}

fn strings_equal(a: &Vec<String>, b: &Vec<String>, i: usize) -> (r: bool)
    ensures
        r == (a@.len() == b@.len() && (forall|j: int|
            i <= j < a@.len() ==> #[trigger] a@[j]@ == b@[j]@)),
    decreases a@.len() - i,
{
    if a.len() != b.len() {
        false
    } else if i >= a.len() {
        true
    } else {
        let here = str_eq(a[i].as_str(), b[i].as_str());
        let rest = strings_equal(a, b, i + 1);
        proof {
            if here && rest {
                assert forall|j: int| i <= j < a@.len() implies #[trigger] a@[j]@ == b@[j]@ by {
                    if j != i {
                        assert(i + 1 <= j < a@.len());
                    }
                }
            }
        }
        here && rest
    }
}

fn exprs_equal(a: &Vec<Expression>, b: &Vec<Expression>, i: usize) -> (r: bool)
    ensures
        r == (a@.len() == b@.len() && (forall|j: int|
            i <= j < a@.len() ==> #[trigger] a@[j]@ == b@[j]@)),
    decreases *a, 0nat, a@.len() - i,
{
    if a.len() != b.len() {
        false
    } else if i >= a.len() {
        true
    } else {
        let here = expressions_equal(&a[i], &b[i]);
        let rest = exprs_equal(a, b, i + 1);
        proof {
            if here && rest {
                assert forall|j: int| i <= j < a@.len() implies #[trigger] a@[j]@ == b@[j]@ by {
                    if j != i {
                        assert(i + 1 <= j < a@.len());
                    }
                }
            }
        }
        here && rest
    }
}

fn parts_equal(a: &Vec<StringPart>, b: &Vec<StringPart>, i: usize) -> (r: bool)
    ensures
        r == (a@.len() == b@.len() && (forall|j: int|
            i <= j < a@.len() ==> #[trigger] a@[j]@ == b@[j]@)),
    decreases *a, 0nat, a@.len() - i,
{
    if a.len() != b.len() {
        false
    } else if i >= a.len() {
        true
    } else {
        let here = match (&a[i], &b[i]) {
            (StringPart::Literal(x), StringPart::Literal(y)) => str_eq(x.as_str(), y.as_str()),
            (StringPart::Interpolation(x), StringPart::Interpolation(y)) => expressions_equal(
                x,
                y,
            ),
            _ => false,
        };
        proof {
            assert(here == (a@[i as int]@ == b@[i as int]@));
        }
        let rest = parts_equal(a, b, i + 1);
        proof {
            if here && rest {
                assert forall|j: int| i <= j < a@.len() implies #[trigger] a@[j]@ == b@[j]@ by {
                    if j != i {
                        assert(i + 1 <= j < a@.len());
                    }
                }
            }
        }
        here && rest
    }
}

fn attrs_equal(a: &Vec<Attribute>, b: &Vec<Attribute>, i: usize) -> (r: bool)
    ensures
        r == (a@.len() == b@.len() && (forall|j: int|
            i <= j < a@.len() ==> #[trigger] a@[j]@ == b@[j]@)),
    decreases *a, 0nat, a@.len() - i,
{
    if a.len() != b.len() {
        false
    } else if i >= a.len() {
        true
    } else {
        let here = strings_equal(&a[i].path, &b[i].path, 0) && expressions_equal(
            &a[i].value,
            &b[i].value,
        );
        proof {
            crate::ast::lemma_strings_view_eq(a@[i as int].path, b@[i as int].path);
            assert(here == (a@[i as int]@ == b@[i as int]@));
        }
        let rest = attrs_equal(a, b, i + 1);
        proof {
            if here && rest {
                assert forall|j: int| i <= j < a@.len() implies #[trigger] a@[j]@ == b@[j]@ by {
                    if j != i {
                        assert(i + 1 <= j < a@.len());
                    }
                }
            }
        }
        here && rest
    }
}

fn bindings_equal(a: &Vec<Binding>, b: &Vec<Binding>, i: usize) -> (r: bool)
    ensures
        r == (a@.len() == b@.len() && (forall|j: int|
            i <= j < a@.len() ==> #[trigger] a@[j]@ == b@[j]@)),
    decreases *a, 0nat, a@.len() - i,
{
    if a.len() != b.len() {
        false
    } else if i >= a.len() {
        true
    } else {
        let here = str_eq(a[i].name.as_str(), b[i].name.as_str()) && expressions_equal(
            &a[i].value,
            &b[i].value,
        ) && a[i].inherit == b[i].inherit && (match (&a[i].from, &b[i].from) {
            (Some(x), Some(y)) => expressions_equal(x, y),
            (None, None) => true,
            _ => false,
        });
        proof {
            assert(here == (a@[i as int]@ == b@[i as int]@));
        }
        let rest = bindings_equal(a, b, i + 1);
        proof {
            if here && rest {
                assert forall|j: int| i <= j < a@.len() implies #[trigger] a@[j]@ == b@[j]@ by {
                    if j != i {
                        assert(i + 1 <= j < a@.len());
                    }
                }
            }
        }
        here && rest
    }
}

fn params_equal(a: &Parameter, b: &Parameter) -> (r: bool)
    ensures
        r == (a@ == b@),
    decreases *a, 0nat, 0nat,
{
    match (a, b) {
        (Parameter::Identifier(x), Parameter::Identifier(y)) => str_eq(x.as_str(), y.as_str()),
        (
            Parameter::Pattern { fields: xf, ellipsis: xe, bind: xb },
            Parameter::Pattern { fields: yf, ellipsis: ye, bind: yb },
        ) => {
            let r = *xe == *ye && fields_equal(xf, yf, 0) && (match (xb, yb) {
                (Some(x), Some(y)) => str_eq(x.as_str(), y.as_str()),
                (None, None) => true,
                _ => false,
            });
            proof {
                crate::ast::lemma_pattern_param_model(*xf, *xe, *xb);
                crate::ast::lemma_pattern_param_model(*yf, *ye, *yb);
                crate::ast::lemma_fields_view_eq(*xf, *yf);
            }
            r
        },
        _ => false,
    }
}

fn fields_equal(a: &Vec<PatternField>, b: &Vec<PatternField>, i: usize) -> (r: bool)
    ensures
        r == (a@.len() == b@.len() && (forall|j: int|
            i <= j < a@.len() ==> #[trigger] a@[j]@ == b@[j]@)),
    decreases *a, 0nat, a@.len() - i,
{
    if a.len() != b.len() {
        false
    } else if i >= a.len() {
        true
    } else {
        let here = str_eq(a[i].name.as_str(), b[i].name.as_str()) && (match (
            &a[i].default,
            &b[i].default,
        ) {
            (Some(x), Some(y)) => expressions_equal(x, y),
            (None, None) => true,
            _ => false,
        });
        proof {
            assert(here == (a@[i as int]@ == b@[i as int]@));
        }
        let rest = fields_equal(a, b, i + 1);
        proof {
            if here && rest {
                assert forall|j: int| i <= j < a@.len() implies #[trigger] a@[j]@ == b@[j]@ by {
                    if j != i {
                        assert(i + 1 <= j < a@.len());
                    }
                }
            }
        }
        here && rest
    }
}

} // verus!
