//! Lowering of the concrete syntax tree into the typed expression tree.
//!
//! Every node kind maps to one expression form through a total dispatch;
//! an unknown kind or a malformed node is a hard failure that carries the
//! offending kind or a description.  A depth budget guards the descent:
//! when it runs out, lowering fails with a resource-limit error instead
//! of exhausting the stack.
//!
//! `lower_node` is the mathematical account of the whole dispatch; the
//! executable entry points return exactly what it describes.

use vstd::prelude::*;

verus! {

use crate::ast::Attribute;
use crate::ast::AttributeModel;
use crate::ast::BindingModel;
use crate::ast::Binding;
use crate::ast::BinaryOperator;
use crate::ast::UnaryOperator;
use crate::ast::ExprModel;
use crate::ast::Expression;
use crate::ast::Parameter;
use crate::ast::ParameterModel;
use crate::ast::PathModel;
use crate::ast::PathType;
use crate::ast::PatternField;
use crate::ast::PatternFieldModel;
use crate::ast::StringPart;
use crate::ast::StringPartModel;
use crate::cst::CstModel;
use crate::cst::CstNode;
use crate::cst::find_field;
use crate::cst::find_kind;
use crate::cst::nodes_view;
use crate::error::ParseError;
use crate::error::ParseErrorModel;
use crate::strutil::parse_i64_spec;
use crate::strutil::parse_i64;
use crate::strutil::split_dots;
use crate::strutil::split_on_dots;
use crate::strutil::str_eq;
use vstd::string::StringExecFns;
use vstd::string::StrSliceExecFns;

broadcast use vstd::std_specs::vec::axiom_vec_index_decreases, vstd::seq::axiom_seq_index_decreases;

/// What can go wrong while lowering.
#[verifier::ext_equal]
pub enum LowerErr {
    /// Malformed structure, with a description.
    Invalid(Seq<char>),
    /// A kind outside the dispatch table, or an unknown operator.
    Unknown(Seq<char>),
    /// Node text that is not valid text.
    BadText,
    /// An integer literal that cannot be read.
    BadInt,
    /// The depth budget ran out.
    TooDeep,
}

/// The error value each lowering failure carries.
pub open spec fn lower_err_model(e: LowerErr) -> ParseErrorModel {
    match e {
        LowerErr::Invalid(s) => ParseErrorModel::InvalidNode(s),
        LowerErr::Unknown(s) => ParseErrorModel::UnknownNodeType(s),
        LowerErr::BadText => ParseErrorModel::Utf8Error("node text is not valid UTF-8"@),
        LowerErr::BadInt => ParseErrorModel::ParseFailed("invalid integer literal"@),
        LowerErr::TooDeep => ParseErrorModel::ResourceLimitExceeded {
            resource: "nesting depth"@,
            limit: "maximum nesting depth"@,
        },
    }
}

/// Whether an executable lowering outcome is the one the model gives.
pub open spec fn lower_matches(
    sm: core::result::Result<ExprModel, LowerErr>,
    r: core::result::Result<Expression, ParseError>,
) -> bool {
    match sm {
        Ok(m) => r matches Ok(e) && e@ == m,
        Err(le) => r matches Err(pe) && pe@ == lower_err_model(le),
    }
}

/// Kinds that are transparent wrappers around one child.
pub open spec fn is_wrapper_kind(k: Seq<char>) -> bool {
    k == "source_file"@ || k == "source_code"@ || k == "expr"@ || k == "paren_expr"@ || k
        == "parenthesized_expression"@ || k == "literal"@ || k == "list_element"@
}

/// Kinds that carry a string literal.
pub open spec fn is_string_kind(k: Seq<char>) -> bool {
    k == "string"@ || k == "string_expression"@ || k == "indented_string"@ || k
        == "indented_string_expression"@
}

/// Kinds that carry a path literal.
pub open spec fn is_path_kind(k: Seq<char>) -> bool {
    k == "path"@ || k == "path_expression"@ || k == "hpath_expression"@ || k == "spath_expression"@
}

/// Kinds that carry an attribute set.
pub open spec fn is_attrset_kind(k: Seq<char>) -> bool {
    k == "attrset"@ || k == "attrset_expression"@ || k == "rec_attrset"@ || k
        == "rec_attrset_expression"@
}

/// String-delimiter kinds that lowering discards.
pub open spec fn is_string_delim_kind(k: Seq<char>) -> bool {
    k == "string_start"@ || k == "string_end"@ || k == "indented_string_start"@ || k
        == "indented_string_end"@ || k == "\""@ || k == "''"@
}

/// The binary operator a token names, where one does.
pub open spec fn binop_of(t: Seq<char>) -> Option<BinaryOperator> {
    if t == "+"@ {
        Some(BinaryOperator::Add)
    } else if t == "-"@ {
        Some(BinaryOperator::Subtract)
    } else if t == "*"@ {
        Some(BinaryOperator::Multiply)
    } else if t == "/"@ {
        Some(BinaryOperator::Divide)
    } else if t == "=="@ {
        Some(BinaryOperator::Equal)
    } else if t == "!="@ {
        Some(BinaryOperator::NotEqual)
    } else if t == "<"@ {
        Some(BinaryOperator::Less)
    } else if t == "<="@ {
        Some(BinaryOperator::LessEqual)
    } else if t == ">"@ {
        Some(BinaryOperator::Greater)
    } else if t == ">="@ {
        Some(BinaryOperator::GreaterEqual)
    } else if t == "&&"@ {
        Some(BinaryOperator::And)
    } else if t == "||"@ {
        Some(BinaryOperator::Or)
    } else if t == "++"@ {
        Some(BinaryOperator::Concat)
    } else if t == "//"@ {
        Some(BinaryOperator::Update)
    } else {
        None
    }
}

/// The unary operator a token names, where one does.
pub open spec fn unop_of(t: Seq<char>) -> Option<UnaryOperator> {
    if t == "!"@ {
        Some(UnaryOperator::Not)
    } else if t == "-"@ {
        Some(UnaryOperator::Negate)
    } else {
        None
    }
}

/// The first child, from `i` on, whose text names a binary operator, or
/// a text fault on the way there.
pub open spec fn scan_operator(children: Seq<CstModel>, i: int) -> core::result::Result<
    Option<Seq<char>>,
    LowerErr,
>
    decreases children.len() - i,
{
    if i < 0 || i >= children.len() {
        Ok(None)
    } else {
        match children[i].text {
            None => Err(LowerErr::BadText),
            Some(t) => {
                if binop_of(t) is Some {
                    Ok(Some(t))
                } else {
                    scan_operator(children, i + 1)
                }
            },
        }
    }
}

/// The classification of path text by its shape.
pub open spec fn classify_path(t: Seq<char>) -> PathModel {
    if t.len() >= 1 && t[0] == '/' {
        PathModel::Absolute(t)
    } else if t.len() >= 2 && t[0] == '~' && t[1] == '/' {
        PathModel::Home(t)
    } else if t.len() >= 2 && t[0] == '<' && t[t.len() - 1] == '>' {
        PathModel::Search(t.subrange(1, t.len() - 1))
    } else {
        PathModel::Relative(t)
    }
}

/// The node lowering descends into for a transparent wrapper: the child
/// filling the `expression` field, or the first child.
pub open spec fn unwrap_target(m: CstModel) -> Option<CstModel> {
    match find_field(m.children, "expression"@) {
        Some(c) => Some(c),
        None => {
            if m.children.len() > 0 {
                Some(m.children[0])
            } else {
                None
            }
        },
    }
}

/// The literal text all-literal string parts concatenate to.
pub open spec fn concat_literals(parts: Seq<StringPartModel>, i: int) -> Seq<char>
    decreases parts.len() - i,
{
    if i < 0 || i >= parts.len() {
        Seq::empty()
    } else {
        match parts[i] {
            StringPartModel::Literal(s) => s + concat_literals(parts, i + 1),
            StringPartModel::Interpolation(_) => concat_literals(parts, i + 1),
        }
    }
}

/// The value of the whole lowering dispatch on one node.
pub open spec fn lower_node(m: CstModel, depth: nat) -> core::result::Result<ExprModel, LowerErr>
    decreases depth, 3nat, 0nat,
{
    if depth == 0 {
        Err(LowerErr::TooDeep)
    } else {
        let k = m.kind;
        if is_wrapper_kind(k) {
            match unwrap_target(m) {
                Some(c) => lower_node(c, (depth - 1) as nat),
                None => {
                    if k == "list_element"@ {
                        Err(LowerErr::Invalid("Empty list element"@))
                    } else {
                        Err(LowerErr::Invalid("Empty expression"@))
                    }
                },
            }
        } else if k == "integer"@ || k == "integer_expression"@ {
            match m.text {
                None => Err(LowerErr::BadText),
                Some(t) => match parse_i64_spec(t) {
                    Some(v) => Ok(ExprModel::Integer(v)),
                    None => Err(LowerErr::BadInt),
                },
            }
        } else if k == "float"@ || k == "float_expression"@ {
            match m.text {
                None => Err(LowerErr::BadText),
                Some(t) => Ok(ExprModel::Float(t)),
            }
        } else if is_string_kind(k) {
            match string_parts(m.children, 0, (depth - 1) as nat) {
                Err(e) => Err(e),
                Ok((parts, has_interp)) => {
                    if has_interp {
                        Ok(ExprModel::StringInterpolation { parts })
                    } else if parts.len() == 0 {
                        Ok(ExprModel::String(Seq::empty()))
                    } else {
                        Ok(ExprModel::String(concat_literals(parts, 0)))
                    }
                },
            }
        } else if k == "boolean"@ {
            match m.text {
                None => Err(LowerErr::BadText),
                Some(t) => Ok(ExprModel::Boolean(t == "true"@)),
            }
        } else if k == "null"@ {
            Ok(ExprModel::Null)
        } else if k == "identifier"@ {
            match m.text {
                None => Err(LowerErr::BadText),
                Some(t) => Ok(ExprModel::Identifier(t)),
            }
        } else if k == "variable_expression"@ {
            match m.text {
                None => Err(LowerErr::BadText),
                Some(t) => {
                    if t == "true"@ {
                        Ok(ExprModel::Boolean(true))
                    } else if t == "false"@ {
                        Ok(ExprModel::Boolean(false))
                    } else if t == "null"@ {
                        Ok(ExprModel::Null)
                    } else {
                        Ok(ExprModel::Identifier(t))
                    }
                },
            }
        } else if is_path_kind(k) {
            if m.children.len() > 0 {
                let c = m.children[0];
                if c.kind == "search_path_token"@ {
                    match c.text {
                        None => Err(LowerErr::BadText),
                        Some(t) => {
                            if t.len() >= 2 {
                                Ok(ExprModel::Path(PathModel::Search(t.subrange(1, t.len() - 1))))
                            } else {
                                Ok(ExprModel::Path(PathModel::Search(Seq::empty())))
                            }
                        },
                    }
                } else {
                    match c.text {
                        None => Err(LowerErr::BadText),
                        Some(t) => Ok(ExprModel::Path(classify_path(t))),
                    }
                }
            } else {
                match m.text {
                    None => Err(LowerErr::BadText),
                    Some(t) => Ok(ExprModel::Path(classify_path(t))),
                }
            }
        } else if k == "list"@ || k == "list_expression"@ {
            match list_elems(m.children, 0, (depth - 1) as nat) {
                Err(e) => Err(e),
                Ok(es) => Ok(ExprModel::List(es)),
            }
        } else if is_attrset_kind(k) {
            let recursive = k == "rec_attrset"@ || k == "rec_attrset_expression"@ || find_kind(
                m.children,
                "rec"@,
            ) is Some;
            match attrs_from(m.children, 0, (depth - 1) as nat) {
                Err(e) => Err(e),
                Ok(attrs) => Ok(ExprModel::AttributeSet { recursive, attributes: attrs }),
            }
        } else if k == "binary"@ || k == "binary_expression"@ {
            match find_field(m.children, "left"@) {
                None => Err(LowerErr::Invalid("Invalid binary operation"@)),
                Some(left) => match find_field(m.children, "right"@) {
                    None => Err(LowerErr::Invalid("Invalid binary operation"@)),
                    Some(right) => {
                        let opt = match find_field(m.children, "operator"@) {
                            Some(opn) => match opn.text {
                                None => Err(LowerErr::BadText),
                                Some(t) => Ok(Some(t)),
                            },
                            None => scan_operator(m.children, 0),
                        };
                        match opt {
                            Err(e) => Err(e),
                            Ok(None) => Err(LowerErr::Invalid("Invalid binary operation"@)),
                            Ok(Some(t)) => match binop_of(t) {
                                None => Err(LowerErr::Unknown("Unknown operator: "@ + t)),
                                Some(op) => match lower_node(left, (depth - 1) as nat) {
                                    Err(e) => Err(e),
                                    Ok(l) => match lower_node(right, (depth - 1) as nat) {
                                        Err(e) => Err(e),
                                        Ok(r) => Ok(
                                            ExprModel::BinaryOp {
                                                op,
                                                left: Box::new(l),
                                                right: Box::new(r),
                                            },
                                        ),
                                    },
                                },
                            },
                        }
                    },
                },
            }
        } else if k == "unary"@ || k == "unary_expression"@ {
            match find_field(m.children, "argument"@) {
                None => Err(LowerErr::Invalid("Invalid unary operation"@)),
                Some(arg) => {
                    let opt = match find_field(m.children, "operator"@) {
                        Some(opn) => match opn.text {
                            None => Err(LowerErr::BadText),
                            Some(t) => Ok(Some(t)),
                        },
                        None => Ok(None),
                    };
                    match opt {
                        Err(e) => Err(e),
                        Ok(None) => Err(LowerErr::Invalid("Invalid unary operation"@)),
                        Ok(Some(t)) => match unop_of(t) {
                            None => Err(LowerErr::Unknown("Unknown operator: "@ + t)),
                            Some(op) => match lower_node(arg, (depth - 1) as nat) {
                                Err(e) => Err(e),
                                Ok(a) => Ok(ExprModel::UnaryOp { op, operand: Box::new(a) }),
                            },
                        },
                    }
                },
            }
        } else if k == "select"@ || k == "select_expression"@ {
            let objf = match find_field(m.children, "obj"@) {
                Some(o) => Some(o),
                None => find_field(m.children, "expression"@),
            };
            let pathf = match find_field(m.children, "path"@) {
                Some(p) => Some(p),
                None => find_field(m.children, "attrpath"@),
            };
            match objf {
                None => Err(LowerErr::Invalid("Invalid selection"@)),
                Some(obj) => match pathf {
                    None => Err(LowerErr::Invalid("Invalid selection"@)),
                    Some(pathn) => match pathn.text {
                        None => Err(LowerErr::BadText),
                        Some(pt) => match lower_node(obj, (depth - 1) as nat) {
                            Err(e) => Err(e),
                            Ok(o) => match find_field(m.children, "default"@) {
                                None => Ok(
                                    ExprModel::Select {
                                        expr: Box::new(o),
                                        path: split_dots(pt),
                                        default: None,
                                    },
                                ),
                                Some(d) => match lower_node(d, (depth - 1) as nat) {
                                    Err(e) => Err(e),
                                    Ok(dm) => Ok(
                                        ExprModel::Select {
                                            expr: Box::new(o),
                                            path: split_dots(pt),
                                            default: Some(Box::new(dm)),
                                        },
                                    ),
                                },
                            },
                        },
                    },
                },
            }
        } else if k == "has_attr"@ || k == "has_attr_expression"@ {
            let objf = match find_field(m.children, "expression"@) {
                Some(o) => Some(o),
                None => find_field(m.children, "obj"@),
            };
            match objf {
                None => Err(LowerErr::Invalid("Invalid attribute test"@)),
                Some(obj) => match find_field(m.children, "attrpath"@) {
                    None => Err(LowerErr::Invalid("Invalid attribute test"@)),
                    Some(pathn) => match pathn.text {
                        None => Err(LowerErr::BadText),
                        Some(pt) => match lower_node(obj, (depth - 1) as nat) {
                            Err(e) => Err(e),
                            Ok(o) => Ok(
                                ExprModel::HasAttr { expr: Box::new(o), path: split_dots(pt) },
                            ),
                        },
                    },
                },
            }
        } else if k == "apply"@ || k == "apply_expression"@ || k == "application"@ {
            let fnf = match find_field(m.children, "fn"@) {
                Some(f) => Some(f),
                None => find_field(m.children, "function"@),
            };
            let argf = match find_field(m.children, "arg"@) {
                Some(a) => Some(a),
                None => find_field(m.children, "argument"@),
            };
            match fnf {
                None => Err(LowerErr::Invalid("Invalid application"@)),
                Some(f) => match argf {
                    None => Err(LowerErr::Invalid("Invalid application"@)),
                    Some(a) => match lower_node(f, (depth - 1) as nat) {
                        Err(e) => Err(e),
                        Ok(fm) => match lower_node(a, (depth - 1) as nat) {
                            Err(e) => Err(e),
                            Ok(am) => Ok(
                                ExprModel::Application {
                                    function: Box::new(fm),
                                    argument: Box::new(am),
                                },
                            ),
                        },
                    },
                },
            }
        } else if k == "let_expr"@ || k == "let_expression"@ {
            match let_parts(m.children, 0, (depth - 1) as nat) {
                Err(e) => Err(e),
                Ok((bindings, body0)) => {
                    let body = match find_field(m.children, "body"@) {
                        Some(bn) => match lower_node(bn, (depth - 1) as nat) {
                            Err(e) => Err(e),
                            Ok(b) => Ok(Some(b)),
                        },
                        None => Ok(body0),
                    };
                    match body {
                        Err(e) => Err(e),
                        Ok(None) => Err(LowerErr::Invalid("Let expression missing body"@)),
                        Ok(Some(b)) => Ok(ExprModel::LetIn { bindings, body: Box::new(b) }),
                    }
                },
            }
        } else if k == "if_expr"@ || k == "if_expression"@ {
            let condf = match find_field(m.children, "cond"@) {
                Some(c) => Some(c),
                None => find_field(m.children, "condition"@),
            };
            let thenf = match find_field(m.children, "then_expr"@) {
                Some(t) => Some(t),
                None => find_field(m.children, "consequence"@),
            };
            let elsef = match find_field(m.children, "else_expr"@) {
                Some(t) => Some(t),
                None => find_field(m.children, "alternative"@),
            };
            match condf {
                None => Err(LowerErr::Invalid("If missing condition"@)),
                Some(c) => match thenf {
                    None => Err(LowerErr::Invalid("If missing then branch"@)),
                    Some(t) => match elsef {
                        None => Err(LowerErr::Invalid("If missing else branch"@)),
                        Some(e0) => match lower_node(c, (depth - 1) as nat) {
                            Err(e) => Err(e),
                            Ok(cm) => match lower_node(t, (depth - 1) as nat) {
                                Err(e) => Err(e),
                                Ok(tm) => match lower_node(e0, (depth - 1) as nat) {
                                    Err(e) => Err(e),
                                    Ok(em) => Ok(
                                        ExprModel::If {
                                            condition: Box::new(cm),
                                            then_branch: Box::new(tm),
                                            else_branch: Box::new(em),
                                        },
                                    ),
                                },
                            },
                        },
                    },
                },
            }
        } else if k == "function"@ || k == "function_expression"@ {
            match find_field(m.children, "body"@) {
                None => Err(LowerErr::Invalid("Function missing body"@)),
                Some(bodyn) => {
                    let param = lower_parameter(m, (depth - 1) as nat);
                    match param {
                        Err(e) => Err(e),
                        Ok(p) => match lower_node(bodyn, (depth - 1) as nat) {
                            Err(e) => Err(e),
                            Ok(b) => Ok(ExprModel::Function { parameter: p, body: Box::new(b) }),
                        },
                    }
                },
            }
        } else if k == "with_keyword"@ {
            Ok(ExprModel::Identifier("with"@))
        } else if k == "import_keyword"@ {
            Ok(ExprModel::Identifier("import"@))
        } else if k == "assert_keyword"@ {
            Ok(ExprModel::Identifier("assert"@))
        } else if k == "inherit_keyword"@ {
            Ok(ExprModel::Identifier("inherit"@))
        } else if k == "with_expr"@ || k == "with_expression"@ {
            let nsf = match find_field(m.children, "namespace"@) {
                Some(n) => Some(n),
                None => find_field(m.children, "environment"@),
            };
            match nsf {
                None => Err(LowerErr::Invalid("With missing namespace"@)),
                Some(ns) => match find_field(m.children, "body"@) {
                    None => Err(LowerErr::Invalid("With missing body"@)),
                    Some(bn) => match lower_node(ns, (depth - 1) as nat) {
                        Err(e) => Err(e),
                        Ok(nm) => match lower_node(bn, (depth - 1) as nat) {
                            Err(e) => Err(e),
                            Ok(bm) => Ok(
                                ExprModel::With { scope: Box::new(nm), body: Box::new(bm) },
                            ),
                        },
                    },
                },
            }
        } else if k == "import_expr"@ {
            match find_field(m.children, "path"@) {
                None => Err(LowerErr::Invalid("Import missing path"@)),
                Some(p) => match lower_node(p, (depth - 1) as nat) {
                    Err(e) => Err(e),
                    Ok(pm) => Ok(ExprModel::Import { path: Box::new(pm) }),
                },
            }
        } else if k == "assert_expr"@ || k == "assert_expression"@ {
            match find_field(m.children, "condition"@) {
                None => Err(LowerErr::Invalid("Assert missing condition"@)),
                Some(c) => match find_field(m.children, "body"@) {
                    None => Err(LowerErr::Invalid("Assert missing body"@)),
                    Some(b) => match lower_node(c, (depth - 1) as nat) {
                        Err(e) => Err(e),
                        Ok(cm) => match lower_node(b, (depth - 1) as nat) {
                            Err(e) => Err(e),
                            Ok(bm) => Ok(
                                ExprModel::Assert { condition: Box::new(cm), body: Box::new(bm) },
                            ),
                        },
                    },
                },
            }
        } else if k == "inherit"@ || k == "inherit_from"@ {
            let source = match find_field(m.children, "source"@) {
                Some(sn) => {
                    if sn.children.len() >= 2 {
                        match lower_node(sn.children[1], (depth - 1) as nat) {
                            Err(e) => Err(e),
                            Ok(sm) => Ok(Some(sm)),
                        }
                    } else {
                        Ok(None)
                    }
                },
                None => match find_field(m.children, "expression"@) {
                    Some(en) => match lower_node(en, (depth - 1) as nat) {
                        Err(e) => Err(e),
                        Ok(em) => Ok(Some(em)),
                    },
                    None => Ok(None),
                },
            };
            match source {
                Err(e) => Err(e),
                Ok(src) => match find_field(m.children, "attrs"@) {
                    None => Err(LowerErr::Invalid("Inherit missing attributes"@)),
                    Some(attrsn) => match inherit_names(attrsn.children, 0) {
                        Err(e) => Err(e),
                        Ok(names) => Ok(
                            ExprModel::Inherit {
                                source: match src {
                                    Some(s) => Some(Box::new(s)),
                                    None => None,
                                },
                                attributes: names,
                            },
                        ),
                    },
                },
            }
        } else if k == "ERROR"@ {
            Err(LowerErr::Invalid("Malformed expression"@))
        } else {
            Err(LowerErr::Unknown(k))
        }
    }
}

/// The function parameter a `function` node carries: a bare name, a
/// wrapped `param` node, or a destructuring pattern with an optional
/// binding name.
pub open spec fn lower_parameter(m: CstModel, depth: nat) -> core::result::Result<
    ParameterModel,
    LowerErr,
>
    decreases depth, 2nat, 0nat,
{
    match find_field(m.children, "param"@) {
        Some(pn) => {
            if pn.kind == "identifier"@ {
                match pn.text {
                    None => Err(LowerErr::BadText),
                    Some(t) => Ok(ParameterModel::Identifier(t)),
                }
            } else if pn.kind == "pattern"@ || pn.kind == "formals"@ {
                match pattern_fields(pn.children, 0, depth) {
                    Err(e) => Err(e),
                    Ok((fields, ellipsis)) => Ok(
                        ParameterModel::Pattern { fields, ellipsis, bind: None },
                    ),
                }
            } else if pn.kind == "param"@ {
                if pn.children.len() > 0 {
                    let c = pn.children[0];
                    if c.kind == "identifier"@ {
                        match c.text {
                            None => Err(LowerErr::BadText),
                            Some(t) => Ok(ParameterModel::Identifier(t)),
                        }
                    } else if c.kind == "pattern"@ || c.kind == "formals"@ {
                        match pattern_fields(c.children, 0, depth) {
                            Err(e) => Err(e),
                            Ok((fields, ellipsis)) => Ok(
                                ParameterModel::Pattern { fields, ellipsis, bind: None },
                            ),
                        }
                    } else {
                        Err(LowerErr::Invalid("Unexpected param child"@))
                    }
                } else {
                    Err(LowerErr::Invalid("Empty param node"@))
                }
            } else {
                Ok(ParameterModel::Identifier("_"@))
            }
        },
        None => match find_field(m.children, "formals"@) {
            Some(fo) => {
                let bind = match find_field(m.children, "universal"@) {
                    Some(u) => match u.text {
                        None => Err(LowerErr::BadText),
                        Some(t) => Ok(Some(t)),
                    },
                    None => Ok(None),
                };
                match bind {
                    Err(e) => Err(e),
                    Ok(b) => match pattern_fields(fo.children, 0, depth) {
                        Err(e) => Err(e),
                        Ok((fields, ellipsis)) => Ok(
                            ParameterModel::Pattern { fields, ellipsis, bind: b },
                        ),
                    },
                }
            },
            None => match find_field(m.children, "universal"@) {
                Some(u) => match u.text {
                    None => Err(LowerErr::BadText),
                    Some(t) => Ok(ParameterModel::Identifier(t)),
                },
                None => Err(LowerErr::Invalid("Function missing parameter"@)),
            },
        },
    }
}

/// The fields and ellipsis flag of a destructuring pattern.
pub open spec fn pattern_fields(children: Seq<CstModel>, i: int, depth: nat) -> core::result::Result<
    (Seq<PatternFieldModel>, bool),
    LowerErr,
>
    decreases depth, 1nat, children.len() - i,
{
    if i < 0 || i >= children.len() {
        Ok((Seq::empty(), false))
    } else {
        let c = children[i];
        if c.kind == "pattern_elem"@ || c.kind == "formal"@ {
            match find_field(c.children, "name"@) {
                None => pattern_fields(children, i + 1, depth),
                Some(namen) => match namen.text {
                    None => Err(LowerErr::BadText),
                    Some(name) => {
                        let dflt = match find_field(c.children, "default"@) {
                            Some(dn) => {
                                if depth == 0 {
                                    Err(LowerErr::TooDeep)
                                } else {
                                    match lower_node(dn, (depth - 1) as nat) {
                                        Err(e) => Err(e),
                                        Ok(d) => Ok(Some(d)),
                                    }
                                }
                            },
                            None => Ok(None),
                        };
                        match dflt {
                            Err(e) => Err(e),
                            Ok(d) => match pattern_fields(children, i + 1, depth) {
                                Err(e) => Err(e),
                                Ok((rest, ell)) => Ok(
                                    (
                                        seq![PatternFieldModel { name, default: d }] + rest,
                                        ell,
                                    ),
                                ),
                            },
                        }
                    },
                },
            }
        } else if c.kind == "..."@ || c.kind == "ellipses"@ {
            match pattern_fields(children, i + 1, depth) {
                Err(e) => Err(e),
                Ok((rest, _)) => Ok((rest, true)),
            }
        } else {
            pattern_fields(children, i + 1, depth)
        }
    }
}

/// The parts of a string literal: literal runs and spliced expressions,
/// with a flag telling whether any splice occurred.
pub open spec fn string_parts(children: Seq<CstModel>, i: int, depth: nat) -> core::result::Result<
    (Seq<StringPartModel>, bool),
    LowerErr,
>
    decreases depth, 1nat, children.len() - i,
{
    if i < 0 || i >= children.len() {
        Ok((Seq::empty(), false))
    } else {
        let c = children[i];
        if is_string_delim_kind(c.kind) {
            string_parts(children, i + 1, depth)
        } else if c.kind == "interpolation"@ {
            let inner = match find_field(c.children, "expression"@) {
                Some(e) => Some(e),
                None => {
                    if c.children.len() >= 2 {
                        Some(c.children[1])
                    } else {
                        None
                    }
                },
            };
            match inner {
                None => string_parts(children, i + 1, depth),
                Some(en) => {
                    if depth == 0 {
                        Err(LowerErr::TooDeep)
                    } else {
                        match lower_node(en, (depth - 1) as nat) {
                            Err(e) => Err(e),
                            Ok(em) => match string_parts(children, i + 1, depth) {
                                Err(e) => Err(e),
                                Ok((rest, _)) => Ok(
                                    (
                                        seq![
                                            StringPartModel::Interpolation(Box::new(em)),
                                        ] + rest,
                                        true,
                                    ),
                                ),
                            },
                        }
                    }
                },
            }
        } else {
            match c.text {
                None => Err(LowerErr::BadText),
                Some(t) => {
                    if t.len() == 0 {
                        string_parts(children, i + 1, depth)
                    } else {
                        match string_parts(children, i + 1, depth) {
                            Err(e) => Err(e),
                            Ok((rest, hi)) => Ok((seq![StringPartModel::Literal(t)] + rest, hi)),
                        }
                    }
                },
            }
        }
    }
}

/// The lowered elements of a list: children that are element wrappers or
/// fill the `element` field.
pub open spec fn list_elems(children: Seq<CstModel>, i: int, depth: nat) -> core::result::Result<
    Seq<ExprModel>,
    LowerErr,
>
    decreases depth, 1nat, children.len() - i,
{
    if i < 0 || i >= children.len() {
        Ok(Seq::empty())
    } else {
        let c = children[i];
        let is_elem = c.kind == "list_element"@ || c.kind == "expr"@ || c.field == Some("element"@);
        if is_elem {
            if depth == 0 {
                Err(LowerErr::TooDeep)
            } else {
                match lower_node(c, (depth - 1) as nat) {
                    Err(e) => Err(e),
                    Ok(em) => match list_elems(children, i + 1, depth) {
                        Err(e) => Err(e),
                        Ok(rest) => Ok(seq![em] + rest),
                    },
                }
            }
        } else {
            list_elems(children, i + 1, depth)
        }
    }
}

/// The attributes of an attribute set, gathered in document order from
/// `attr` children, `binding` children, and `binding_set` containers.
pub open spec fn attrs_from(children: Seq<CstModel>, i: int, depth: nat) -> core::result::Result<
    Seq<AttributeModel>,
    LowerErr,
>
    decreases depth, 2nat, children.len() - i,
{
    if i < 0 || i >= children.len() {
        Ok(Seq::empty())
    } else {
        let c = children[i];
        if c.kind == "attr"@ || c.kind == "binding"@ {
            match attr_of_binding(c, depth) {
                Err(e) => Err(e),
                Ok(a) => match attrs_from(children, i + 1, depth) {
                    Err(e) => Err(e),
                    Ok(rest) => match a {
                        Some(am) => Ok(seq![am] + rest),
                        None => Ok(rest),
                    },
                },
            }
        } else if c.kind == "binding_set"@ {
            let innerr = if depth == 0 {
                Err(LowerErr::TooDeep)
            } else {
                attrs_from(c.children, 0, (depth - 1) as nat)
            };
            match innerr {
                Err(e) => Err(e),
                Ok(inner) => match attrs_from(children, i + 1, depth) {
                    Err(e) => Err(e),
                    Ok(rest) => Ok(inner + rest),
                },
            }
        } else {
            attrs_from(children, i + 1, depth)
        }
    }
}

/// The attribute one `attr` or `binding` node carries, if it is whole:
/// a node missing its name or value contributes nothing.
pub open spec fn attr_of_binding(c: CstModel, depth: nat) -> core::result::Result<
    Option<AttributeModel>,
    LowerErr,
>
    decreases depth, 1nat, 0nat,
{
    let namef = match find_field(c.children, "name"@) {
        Some(n) => Some(n),
        None => find_field(c.children, "attrpath"@),
    };
    let valuef = match find_field(c.children, "value"@) {
        Some(v) => Some(v),
        None => find_field(c.children, "expression"@),
    };
    match namef {
        None => Ok(None),
        Some(namen) => match valuef {
            None => Ok(None),
            Some(valuen) => match namen.text {
                None => Err(LowerErr::BadText),
                Some(name) => {
                    if depth == 0 {
                        Err(LowerErr::TooDeep)
                    } else {
                        match lower_node(valuen, (depth - 1) as nat) {
                            Err(e) => Err(e),
                            Ok(vm) => Ok(
                                Some(AttributeModel { path: seq![name], value: vm }),
                            ),
                        }
                    }
                },
            },
        },
    }
}

/// The bindings of a let expression and its last body candidate: any
/// child that is neither a binding nor a keyword token is lowered and
/// the last one stands as the body.
pub open spec fn let_parts(children: Seq<CstModel>, i: int, depth: nat) -> core::result::Result<
    (Seq<BindingModel>, Option<ExprModel>),
    LowerErr,
>
    decreases depth, 2nat, children.len() - i,
{
    if i < 0 || i >= children.len() {
        Ok((Seq::empty(), None))
    } else {
        let c = children[i];
        if c.kind == "binding"@ {
            match binding_of(c, depth) {
                Err(e) => Err(e),
                Ok(b) => match let_parts(children, i + 1, depth) {
                    Err(e) => Err(e),
                    Ok((rest, body)) => match b {
                        Some(bm) => Ok((seq![bm] + rest, body)),
                        None => Ok((rest, body)),
                    },
                },
            }
        } else if c.kind == "binding_set"@ {
            let innerr = if depth == 0 {
                Err(LowerErr::TooDeep)
            } else {
                bindings_from(c.children, 0, (depth - 1) as nat)
            };
            match innerr {
                Err(e) => Err(e),
                Ok(inner) => match let_parts(children, i + 1, depth) {
                    Err(e) => Err(e),
                    Ok((rest, body)) => Ok((inner + rest, body)),
                },
            }
        } else if c.kind == "let"@ || c.kind == "in"@ || c.kind == ";"@ || c.kind == "comment"@ {
            let_parts(children, i + 1, depth)
        } else {
            let herer = if depth == 0 {
                Err(LowerErr::TooDeep)
            } else {
                lower_node(c, (depth - 1) as nat)
            };
            match herer {
                Err(e) => Err(e),
                Ok(here) => match let_parts(children, i + 1, depth) {
                    Err(e) => Err(e),
                    Ok((rest, body)) => match body {
                        Some(b) => Ok((rest, Some(b))),
                        None => Ok((rest, Some(here))),
                    },
                },
            }
        }
    }
}

/// The bindings a `binding_set` holds.
pub open spec fn bindings_from(children: Seq<CstModel>, i: int, depth: nat) -> core::result::Result<
    Seq<BindingModel>,
    LowerErr,
>
    decreases depth, 1nat, children.len() - i,
{
    if i < 0 || i >= children.len() {
        Ok(Seq::empty())
    } else {
        let c = children[i];
        if c.kind == "binding"@ {
            match binding_of(c, depth) {
                Err(e) => Err(e),
                Ok(b) => match bindings_from(children, i + 1, depth) {
                    Err(e) => Err(e),
                    Ok(rest) => match b {
                        Some(bm) => Ok(seq![bm] + rest),
                        None => Ok(rest),
                    },
                },
            }
        } else {
            bindings_from(children, i + 1, depth)
        }
    }
}

/// The binding one `binding` node carries, if it is whole.
pub open spec fn binding_of(c: CstModel, depth: nat) -> core::result::Result<
    Option<BindingModel>,
    LowerErr,
>
    decreases depth, 0nat, 0nat,
{
    let namef = match find_field(c.children, "name"@) {
        Some(n) => Some(n),
        None => find_field(c.children, "attrpath"@),
    };
    let valuef = match find_field(c.children, "value"@) {
        Some(v) => Some(v),
        None => find_field(c.children, "expression"@),
    };
    match namef {
        None => Ok(None),
        Some(namen) => match valuef {
            None => Ok(None),
            Some(valuen) => match namen.text {
                None => Err(LowerErr::BadText),
                Some(name) => {
                    if depth == 0 {
                        Err(LowerErr::TooDeep)
                    } else {
                        match lower_node(valuen, (depth - 1) as nat) {
                            Err(e) => Err(e),
                            Ok(vm) => Ok(
                                Some(
                                    BindingModel { name, value: vm, inherit: false, from: None },
                                ),
                            ),
                        }
                    }
                },
            },
        },
    }
}

/// The names an inherit statement lists: the texts of its identifier
/// children.
pub open spec fn inherit_names(children: Seq<CstModel>, i: int) -> core::result::Result<
    Seq<Seq<char>>,
    LowerErr,
>
    decreases children.len() - i,
{
    if i < 0 || i >= children.len() {
        Ok(Seq::empty())
    } else {
        let c = children[i];
        if c.kind == "identifier"@ {
            match c.text {
                None => Err(LowerErr::BadText),
                Some(t) => match inherit_names(children, i + 1) {
                    Err(e) => Err(e),
                    Ok(rest) => Ok(seq![t] + rest),
                },
            }
        } else {
            inherit_names(children, i + 1)
        }
    }
}

/// Builds a structural-fault error.
fn err_invalid(msg: &'static str) -> (r: ParseError)
    ensures
        r@ == ParseErrorModel::InvalidNode(msg@),
{
    ParseError::InvalidNode(String::from_str(msg))
}

/// Builds an unknown-kind error carrying the offending kind.
fn err_unknown_kind(k: &String) -> (r: ParseError)
    ensures
        r@ == ParseErrorModel::UnknownNodeType(k@),
{
    ParseError::UnknownNodeType(k.clone())
}

/// Builds an unknown-operator error carrying the operator text.
fn err_unknown_op(t: &str) -> (r: ParseError)
    ensures
        r@ == ParseErrorModel::UnknownNodeType("Unknown operator: "@ + t@),
{
    let mut m = String::new();
    m.append("Unknown operator: ");
    m.append(t);
    proof {
        assert(m@ =~= "Unknown operator: "@ + t@);
    }
    ParseError::UnknownNodeType(m)
}

/// Builds the error for node text that is not valid text.
fn err_bad_text() -> (r: ParseError)
    ensures
        r@ == lower_err_model(LowerErr::BadText),
{
    ParseError::Utf8Error(String::from_str("node text is not valid UTF-8"))
}

/// Builds the error for an unreadable integer literal.
fn err_bad_int() -> (r: ParseError)
    ensures
        r@ == lower_err_model(LowerErr::BadInt),
{
    ParseError::ParseFailed(String::from_str("invalid integer literal"))
}

/// Builds the error for an exhausted depth budget.
fn err_too_deep() -> (r: ParseError)
    ensures
        r@ == lower_err_model(LowerErr::TooDeep),
{
    ParseError::ResourceLimitExceeded {
        resource: String::from_str("nesting depth"),
        limit: String::from_str("maximum nesting depth"),
    }
}

/// Reads the binary operator a token names.
fn exec_binop_of(t: &str) -> (r: Option<BinaryOperator>)
    ensures
        r == binop_of(t@),
{
    if str_eq(t, "+") {
        Some(BinaryOperator::Add)
    } else if str_eq(t, "-") {
        Some(BinaryOperator::Subtract)
    } else if str_eq(t, "*") {
        Some(BinaryOperator::Multiply)
    } else if str_eq(t, "/") {
        Some(BinaryOperator::Divide)
    } else if str_eq(t, "==") {
        Some(BinaryOperator::Equal)
    } else if str_eq(t, "!=") {
        Some(BinaryOperator::NotEqual)
    } else if str_eq(t, "<") {
        Some(BinaryOperator::Less)
    } else if str_eq(t, "<=") {
        Some(BinaryOperator::LessEqual)
    } else if str_eq(t, ">") {
        Some(BinaryOperator::Greater)
    } else if str_eq(t, ">=") {
        Some(BinaryOperator::GreaterEqual)
    } else if str_eq(t, "&&") {
        Some(BinaryOperator::And)
    } else if str_eq(t, "||") {
        Some(BinaryOperator::Or)
    } else if str_eq(t, "++") {
        Some(BinaryOperator::Concat)
    } else if str_eq(t, "//") {
        Some(BinaryOperator::Update)
    } else {
        None
    }
}

/// Reads the unary operator a token names.
fn exec_unop_of(t: &str) -> (r: Option<UnaryOperator>)
    ensures
        r == unop_of(t@),
{
    if str_eq(t, "!") {
        Some(UnaryOperator::Not)
    } else if str_eq(t, "-") {
        Some(UnaryOperator::Negate)
    } else {
        None
    }
}

/// Scans the children for the first token that names a binary operator.
fn exec_scan_operator(children: &Vec<CstNode>, i: usize) -> (r: core::result::Result<
    Option<String>,
    ParseError,
>)
    ensures
        match scan_operator(nodes_view(*children), i as int) {
            Ok(None) => r matches Ok(o) && o is None,
            Ok(Some(t)) => r matches Ok(o) && o matches Some(s) && s@ == t,
            Err(le) => r matches Err(pe) && pe@ == lower_err_model(le),
        },
    decreases children@.len() - i,
{
    if i >= children.len() {
        return Ok(None);
    }
    proof {
        assert(nodes_view(*children)[i as int] == children[i as int]@);
    }
    match &children[i].text {
        None => Err(err_bad_text()),
        Some(t) => {
            if exec_binop_of(t.as_str()).is_some() {
                Ok(Some(t.clone()))
            } else {
                exec_scan_operator(children, i + 1)
            }
        },
    }
}

/// Classifies path text by its shape.
fn exec_classify_path(t: &str) -> (r: PathType)
    ensures
        r@ == classify_path(t@),
{
    let n = t.unicode_len();
    if n >= 1 && t.get_char(0) == '/' {
        PathType::Absolute(t.to_owned())
    } else if n >= 2 && t.get_char(0) == '~' && t.get_char(1) == '/' {
        PathType::Home(t.to_owned())
    } else if n >= 2 && t.get_char(0) == '<' && t.get_char(n - 1) == '>' {
        PathType::Search(t.substring_char(1, n - 1).to_owned())
    } else {
        PathType::Relative(t.to_owned())
    }
}

/// Gathers the names an inherit statement lists.
fn exec_inherit_names(children: &Vec<CstNode>, i: usize) -> (r: core::result::Result<
    Vec<String>,
    ParseError,
>)
    ensures
        match inherit_names(nodes_view(*children), i as int) {
            Ok(names) => r matches Ok(v) && crate::ast::strings_view(v) == names,
            Err(le) => r matches Err(pe) && pe@ == lower_err_model(le),
        },
    decreases children@.len() - i,
{
    if i >= children.len() {
        let v: Vec<String> = Vec::new();
        proof {
            assert(crate::ast::strings_view(v) =~= Seq::<Seq<char>>::empty());
        }
        return Ok(v);
    }
    proof {
        assert(nodes_view(*children)[i as int] == children[i as int]@);
    }
    if children[i].kind_is("identifier") {
        match &children[i].text {
            None => Err(err_bad_text()),
            Some(t) => {
                let name = t.clone();
                match exec_inherit_names(children, i + 1) {
                    Err(e) => Err(e),
                    Ok(mut rest) => {
                        let ghost old_rest = rest@;
                        rest.insert(0, name);
                        proof {
                            let sm = inherit_names(nodes_view(*children), i as int);
                            match inherit_names(nodes_view(*children), i + 1) {
                                Ok(names) => {
                                    assert forall|k: int|
                                        0 <= k < rest@.len() implies #[trigger] crate::ast::strings_view(
                                        rest,
                                    )[k] == (seq![t@] + names)[k] by {
                                        if k == 0 {
                                        } else {
                                            assert(rest@[k] == old_rest[k - 1]);
                                            assert(crate::ast::strings_view(rest)[k]
                                                == rest@[k]@);
                                            assert(names[k - 1] == old_rest[k - 1]@);
                                        }
                                    }
                                    assert(crate::ast::strings_view(rest) =~= seq![t@] + names);
                                },
                                Err(_) => {
                                    assert(false);
                                },
                            }
                        }
                        Ok(rest)
                    },
                }
            },
        }
    } else {
        exec_inherit_names(children, i + 1)
    }
}

/// Concatenates the literal runs of all-literal string parts.
fn exec_concat_literals(parts: &Vec<StringPart>, i: usize) -> (r: String)
    ensures
        r@ == concat_literals(crate::ast::parts_view(*parts), i as int),
    decreases parts@.len() - i,
{
    if i >= parts.len() {
        let s = String::new();
        return s;
    }
    proof {
        assert(crate::ast::parts_view(*parts)[i as int] == parts[i as int]@);
    }
    match &parts[i] {
        StringPart::Literal(s) => {
            let mut out = s.clone();
            let rest = exec_concat_literals(parts, i + 1);
            out.append(rest.as_str());
            proof {
                assert(out@ =~= s@ + rest@);
            }
            out
        },
        StringPart::Interpolation(_) => exec_concat_literals(parts, i + 1),
    }
}

/// Gathers the fields and ellipsis flag of a destructuring pattern.
fn exec_pattern_fields(children: &Vec<CstNode>, i: usize, depth: u64) -> (r: core::result::Result<
    (Vec<PatternField>, bool),
    ParseError,
>)
    ensures
        match pattern_fields(nodes_view(*children), i as int, depth as nat) {
            Ok((fs, ell)) => r matches Ok(p) && crate::ast::fields_view(p.0) == fs && p.1 == ell,
            Err(le) => r matches Err(pe) && pe@ == lower_err_model(le),
        },
    decreases depth, 1nat, children@.len() - i,
{
    if i >= children.len() {
        let v: Vec<PatternField> = Vec::new();
        proof {
            assert(crate::ast::fields_view(v) =~= Seq::<PatternFieldModel>::empty());
        }
        return Ok((v, false));
    }
    proof {
        assert(nodes_view(*children)[i as int] == children[i as int]@);
    }
    let c = &children[i];
    if c.kind_is("pattern_elem") || c.kind_is("formal") {
        match c.child_by_field("name") {
            None => exec_pattern_fields(children, i + 1, depth),
            Some(namen) => match &namen.text {
                None => Err(err_bad_text()),
                Some(name) => {
                    let dflt: core::result::Result<Option<Expression>, ParseError> = match c.child_by_field("default") {
                        Some(dn) => {
                            if depth == 0 {
                                Err(err_too_deep())
                            } else {
                                match node_to_ast_impl(dn, depth - 1) {
                                    Err(e) => Err(e),
                                    Ok(d) => Ok(Some(d)),
                                }
                            }
                        },
                        None => Ok(None),
                    };
                    match dflt {
                        Err(e) => Err(e),
                        Ok(d) => match exec_pattern_fields(children, i + 1, depth) {
                            Err(e) => Err(e),
                            Ok(p) => {
                                let (mut rest, ell) = p;
                                let ghost old_rest = rest@;
                                let fld = PatternField { name: name.clone(), default: d };
                                let ghost fldm = fld@;
                                rest.insert(0, fld);
                                proof {
                                    match pattern_fields(
                                        nodes_view(*children),
                                        i + 1,
                                        depth as nat,
                                    ) {
                                        Ok((fs, _)) => {
                                            assert forall|k: int|
                                                0 <= k < rest@.len() implies #[trigger] crate::ast::fields_view(
                                                rest,
                                            )[k] == (seq![fldm] + fs)[k] by {
                                                if k == 0 {
                                                } else {
                                                    assert(rest@[k] == old_rest[k - 1]);
                                                    assert(crate::ast::fields_view(rest)[k]
                                                        == rest@[k]@);
                                                    assert(fs[k - 1] == old_rest[k - 1]@);
                                                }
                                            }
                                            assert(crate::ast::fields_view(rest) =~= seq![fldm]
                                                + fs);
                                        },
                                        Err(_) => {
                                            assert(false);
                                        },
                                    }
                                }
                                Ok((rest, ell))
                            },
                        },
                    }
                },
            },
        }
    } else if c.kind_is("...") || c.kind_is("ellipses") {
        match exec_pattern_fields(children, i + 1, depth) {
            Err(e) => Err(e),
            Ok(p) => {
                let (rest, _) = p;
                Ok((rest, true))
            },
        }
    } else {
        exec_pattern_fields(children, i + 1, depth)
    }
}

/// Gathers the parts of a string literal.
fn exec_string_parts(children: &Vec<CstNode>, i: usize, depth: u64) -> (r: core::result::Result<
    (Vec<StringPart>, bool),
    ParseError,
>)
    ensures
        match string_parts(nodes_view(*children), i as int, depth as nat) {
            Ok((ps, hi)) => r matches Ok(p) && crate::ast::parts_view(p.0) == ps && p.1 == hi,
            Err(le) => r matches Err(pe) && pe@ == lower_err_model(le),
        },
    decreases depth, 1nat, children@.len() - i,
{
    if i >= children.len() {
        let v: Vec<StringPart> = Vec::new();
        proof {
            assert(crate::ast::parts_view(v) =~= Seq::<StringPartModel>::empty());
        }
        return Ok((v, false));
    }
    proof {
        assert(nodes_view(*children)[i as int] == children[i as int]@);
    }
    let c = &children[i];
    let is_delim = c.kind_is("string_start") || c.kind_is("string_end") || c.kind_is(
        "indented_string_start",
    ) || c.kind_is("indented_string_end") || c.kind_is("\"") || c.kind_is("''");
    if is_delim {
        exec_string_parts(children, i + 1, depth)
    } else if c.kind_is("interpolation") {
        let inner: Option<&CstNode> = match c.child_by_field("expression") {
            Some(e) => Some(e),
            None => {
                if c.children.len() >= 2 {
                    proof {
                        assert(c@.children[1] == c.children[1int]@);
                    }
                    Some(&c.children[1])
                } else {
                    None
                }
            },
        };
        match inner {
            None => exec_string_parts(children, i + 1, depth),
            Some(en) => {
                if depth == 0 {
                    Err(err_too_deep())
                } else {
                    match node_to_ast_impl(en, depth - 1) {
                        Err(e) => Err(e),
                        Ok(em) => match exec_string_parts(children, i + 1, depth) {
                            Err(e) => Err(e),
                            Ok(p) => {
                                let (mut rest, _) = p;
                                let ghost old_rest = rest@;
                                let part = StringPart::Interpolation(Box::new(em));
                                let ghost partm = part@;
                                rest.insert(0, part);
                                proof {
                                    match string_parts(
                                        nodes_view(*children),
                                        i + 1,
                                        depth as nat,
                                    ) {
                                        Ok((ps, _)) => {
                                            assert forall|k: int|
                                                0 <= k < rest@.len() implies #[trigger] crate::ast::parts_view(
                                                rest,
                                            )[k] == (seq![partm] + ps)[k] by {
                                                if k == 0 {
                                                } else {
                                                    assert(rest@[k] == old_rest[k - 1]);
                                                    assert(crate::ast::parts_view(rest)[k]
                                                        == rest@[k]@);
                                                    assert(ps[k - 1] == old_rest[k - 1]@);
                                                }
                                            }
                                            assert(crate::ast::parts_view(rest) =~= seq![partm]
                                                + ps);
                                        },
                                        Err(_) => {
                                            assert(false);
                                        },
                                    }
                                }
                                Ok((rest, true))
                            },
                        },
                    }
                }
            },
        }
    } else {
        match &c.text {
            None => Err(err_bad_text()),
            Some(t) => {
                if t.as_str().is_empty() {
                    exec_string_parts(children, i + 1, depth)
                } else {
                    match exec_string_parts(children, i + 1, depth) {
                        Err(e) => Err(e),
                        Ok(p) => {
                            let (mut rest, hi) = p;
                            let ghost old_rest = rest@;
                            let part = StringPart::Literal(t.clone());
                            let ghost partm = part@;
                            rest.insert(0, part);
                            proof {
                                match string_parts(nodes_view(*children), i + 1, depth as nat) {
                                    Ok((ps, _)) => {
                                        assert forall|k: int|
                                            0 <= k < rest@.len() implies #[trigger] crate::ast::parts_view(
                                            rest,
                                        )[k] == (seq![partm] + ps)[k] by {
                                            if k == 0 {
                                            } else {
                                                assert(rest@[k] == old_rest[k - 1]);
                                                assert(crate::ast::parts_view(rest)[k]
                                                    == rest@[k]@);
                                                assert(ps[k - 1] == old_rest[k - 1]@);
                                            }
                                        }
                                        assert(crate::ast::parts_view(rest) =~= seq![partm] + ps);
                                    },
                                    Err(_) => {
                                        assert(false);
                                    },
                                }
                            }
                            Ok((rest, hi))
                        },
                    }
                }
            },
        }
    }
}

/// Gathers the lowered elements of a list node.
fn exec_list_elems(children: &Vec<CstNode>, i: usize, depth: u64) -> (r: core::result::Result<
    Vec<Expression>,
    ParseError,
>)
    ensures
        match list_elems(nodes_view(*children), i as int, depth as nat) {
            Ok(es) => r matches Ok(v) && crate::ast::exprs_view(v) == es,
            Err(le) => r matches Err(pe) && pe@ == lower_err_model(le),
        },
    decreases depth, 1nat, children@.len() - i,
{
    if i >= children.len() {
        let v: Vec<Expression> = Vec::new();
        proof {
            assert(crate::ast::exprs_view(v) =~= Seq::<ExprModel>::empty());
        }
        return Ok(v);
    }
    proof {
        assert(nodes_view(*children)[i as int] == children[i as int]@);
    }
    let c = &children[i];
    let is_elem = c.kind_is("list_element") || c.kind_is("expr") || (match &c.field {
        Some(f) => str_eq(f.as_str(), "element"),
        None => false,
    });
    if is_elem {
        if depth == 0 {
            Err(err_too_deep())
        } else {
            match node_to_ast_impl(c, depth - 1) {
                Err(e) => Err(e),
                Ok(em) => match exec_list_elems(children, i + 1, depth) {
                    Err(e) => Err(e),
                    Ok(mut rest) => {
                        let ghost old_rest = rest@;
                        let ghost emm = em@;
                        rest.insert(0, em);
                        proof {
                            match list_elems(nodes_view(*children), i + 1, depth as nat) {
                                Ok(es) => {
                                    assert forall|k: int|
                                        0 <= k < rest@.len() implies #[trigger] crate::ast::exprs_view(
                                        rest,
                                    )[k] == (seq![emm] + es)[k] by {
                                        if k == 0 {
                                        } else {
                                            assert(rest@[k] == old_rest[k - 1]);
                                            assert(crate::ast::exprs_view(rest)[k] == rest@[k]@);
                                            assert(es[k - 1] == old_rest[k - 1]@);
                                        }
                                    }
                                    assert(crate::ast::exprs_view(rest) =~= seq![emm] + es);
                                },
                                Err(_) => {
                                    assert(false);
                                },
                            }
                        }
                        Ok(rest)
                    },
                },
            }
        }
    } else {
        exec_list_elems(children, i + 1, depth)
    }
}

/// Reads the attribute one `attr` or `binding` node carries.
fn exec_attr_of_binding(c: &CstNode, depth: u64) -> (r: core::result::Result<
    Option<Attribute>,
    ParseError,
>)
    ensures
        match attr_of_binding(c@, depth as nat) {
            Ok(Some(am)) => r matches Ok(o) && o matches Some(a) && a@ == am,
            Ok(None) => r matches Ok(o) && o is None,
            Err(le) => r matches Err(pe) && pe@ == lower_err_model(le),
        },
    decreases depth, 1nat, 0nat,
{
    let namef = match c.child_by_field("name") {
        Some(n) => Some(n),
        None => c.child_by_field("attrpath"),
    };
    let valuef = match c.child_by_field("value") {
        Some(v) => Some(v),
        None => c.child_by_field("expression"),
    };
    match namef {
        None => Ok(None),
        Some(namen) => match valuef {
            None => Ok(None),
            Some(valuen) => match &namen.text {
                None => Err(err_bad_text()),
                Some(name) => {
                    if depth == 0 {
                        Err(err_too_deep())
                    } else {
                        match node_to_ast_impl(valuen, depth - 1) {
                            Err(e) => Err(e),
                            Ok(vm) => {
                                let mut path: Vec<String> = Vec::new();
                                path.push(name.clone());
                                let a = Attribute { path, value: vm };
                                proof {
                                    assert(crate::ast::strings_view(a.path) =~= seq![name@]);
                                }
                                Ok(Some(a))
                            },
                        }
                    }
                },
            },
        },
    }
}

/// Reads the binding one `binding` node carries.
fn exec_binding_of(c: &CstNode, depth: u64) -> (r: core::result::Result<
    Option<Binding>,
    ParseError,
>)
    ensures
        match binding_of(c@, depth as nat) {
            Ok(Some(bm)) => r matches Ok(o) && o matches Some(b) && b@ == bm,
            Ok(None) => r matches Ok(o) && o is None,
            Err(le) => r matches Err(pe) && pe@ == lower_err_model(le),
        },
    decreases depth, 0nat, 0nat,
{
    let namef = match c.child_by_field("name") {
        Some(n) => Some(n),
        None => c.child_by_field("attrpath"),
    };
    let valuef = match c.child_by_field("value") {
        Some(v) => Some(v),
        None => c.child_by_field("expression"),
    };
    match namef {
        None => Ok(None),
        Some(namen) => match valuef {
            None => Ok(None),
            Some(valuen) => match &namen.text {
                None => Err(err_bad_text()),
                Some(name) => {
                    if depth == 0 {
                        Err(err_too_deep())
                    } else {
                        match node_to_ast_impl(valuen, depth - 1) {
                            Err(e) => Err(e),
                            Ok(vm) => Ok(
                                Some(
                                    Binding {
                                        name: name.clone(),
                                        value: vm,
                                        inherit: false,
                                        from: None,
                                    },
                                ),
                            ),
                        }
                    }
                },
            },
        },
    }
}

/// Gathers the attributes of an attribute set.
#[verifier::rlimit(100)]
fn exec_attrs_from(children: &Vec<CstNode>, i: usize, depth: u64) -> (r: core::result::Result<
    Vec<Attribute>,
    ParseError,
>)
    ensures
        match attrs_from(nodes_view(*children), i as int, depth as nat) {
            Ok(ams) => r matches Ok(v) && crate::ast::attrs_view(v) == ams,
            Err(le) => r matches Err(pe) && pe@ == lower_err_model(le),
        },
    decreases depth, 2nat, children@.len() - i,
{
    if i >= children.len() {
        let v: Vec<Attribute> = Vec::new();
        proof {
            assert(crate::ast::attrs_view(v) =~= Seq::<AttributeModel>::empty());
        }
        return Ok(v);
    }
    proof {
        assert(nodes_view(*children)[i as int] == children[i as int]@);
    }
    let c = &children[i];
    if c.kind_is("attr") || c.kind_is("binding") {
        match exec_attr_of_binding(c, depth) {
            Err(e) => Err(e),
            Ok(a) => match exec_attrs_from(children, i + 1, depth) {
                Err(e) => Err(e),
                Ok(mut rest) => match a {
                    None => Ok(rest),
                    Some(am) => {
                        let ghost old_rest = rest@;
                        let ghost amm = am@;
                        rest.insert(0, am);
                        proof {
                            match attrs_from(nodes_view(*children), i + 1, depth as nat) {
                                Ok(ams) => {
                                    assert forall|k: int|
                                        0 <= k < rest@.len() implies #[trigger] crate::ast::attrs_view(
                                        rest,
                                    )[k] == (seq![amm] + ams)[k] by {
                                        if k == 0 {
                                        } else {
                                            assert(rest@[k] == old_rest[k - 1]);
                                            assert(crate::ast::attrs_view(rest)[k] == rest@[k]@);
                                            assert(ams[k - 1] == old_rest[k - 1]@);
                                        }
                                    }
                                    assert(crate::ast::attrs_view(rest) =~= seq![amm] + ams);
                                },
                                Err(_) => {
                                    assert(false);
                                },
                            }
                        }
                        Ok(rest)
                    },
                },
            },
        }
    } else if c.kind_is("binding_set") {
        let innerr: core::result::Result<Vec<Attribute>, ParseError> = if depth == 0 {
            Err(err_too_deep())
        } else {
            proof {
                crate::cst::lemma_children_view(c);
            }
            exec_attrs_from(&c.children, 0, depth - 1)
        };
        match innerr {
            Err(e) => Err(e),
            Ok(inner) => match exec_attrs_from(children, i + 1, depth) {
                Err(e) => Err(e),
                Ok(rest) => {
                    let ghost innerm = crate::ast::attrs_view(inner);
                    let ghost restm = crate::ast::attrs_view(rest);
                    let mut out = inner;
                    let ghost out_before = out@;
                    let mut tail = rest;
                    let ghost tail_before = tail@;
                    out.append(&mut tail);
                    proof {
                        match attrs_from(nodes_view(*children), i + 1, depth as nat) {
                            Ok(ams) => {
                                assert forall|k: int|
                                    0 <= k < out@.len() implies #[trigger] crate::ast::attrs_view(
                                    out,
                                )[k] == (innerm + ams)[k] by {
                                    assert(crate::ast::attrs_view(out)[k] == out@[k]@);
                                    if k < out_before.len() {
                                        assert(out@[k] == out_before[k]);
                                        assert(innerm[k] == out_before[k]@);
                                    } else {
                                        let j = k - out_before.len();
                                        assert(out@[k] == tail_before[j]);
                                        assert(restm[j] == tail_before[j]@);
                                        assert(ams[j] == restm[j]);
                                    }
                                }
                                assert(crate::ast::attrs_view(out) =~= innerm + ams);
                            },
                            Err(_) => {
                                assert(false);
                            },
                        }
                    }
                    Ok(out)
                },
            },
        }
    } else {
        exec_attrs_from(children, i + 1, depth)
    }
}

/// Gathers the bindings a `binding_set` holds.
fn exec_bindings_from(children: &Vec<CstNode>, i: usize, depth: u64) -> (r: core::result::Result<
    Vec<Binding>,
    ParseError,
>)
    ensures
        match bindings_from(nodes_view(*children), i as int, depth as nat) {
            Ok(bms) => r matches Ok(v) && crate::ast::bindings_view(v) == bms,
            Err(le) => r matches Err(pe) && pe@ == lower_err_model(le),
        },
    decreases depth, 1nat, children@.len() - i,
{
    if i >= children.len() {
        let v: Vec<Binding> = Vec::new();
        proof {
            assert(crate::ast::bindings_view(v) =~= Seq::<BindingModel>::empty());
        }
        return Ok(v);
    }
    proof {
        assert(nodes_view(*children)[i as int] == children[i as int]@);
    }
    let c = &children[i];
    if c.kind_is("binding") {
        match exec_binding_of(c, depth) {
            Err(e) => Err(e),
            Ok(b) => match exec_bindings_from(children, i + 1, depth) {
                Err(e) => Err(e),
                Ok(mut rest) => match b {
                    None => Ok(rest),
                    Some(bm) => {
                        let ghost old_rest = rest@;
                        let ghost bmm = bm@;
                        rest.insert(0, bm);
                        proof {
                            match bindings_from(nodes_view(*children), i + 1, depth as nat) {
                                Ok(bms) => {
                                    assert forall|k: int|
                                        0 <= k < rest@.len() implies #[trigger] crate::ast::bindings_view(
                                        rest,
                                    )[k] == (seq![bmm] + bms)[k] by {
                                        if k == 0 {
                                        } else {
                                            assert(rest@[k] == old_rest[k - 1]);
                                            assert(crate::ast::bindings_view(rest)[k]
                                                == rest@[k]@);
                                            assert(bms[k - 1] == old_rest[k - 1]@);
                                        }
                                    }
                                    assert(crate::ast::bindings_view(rest) =~= seq![bmm] + bms);
                                },
                                Err(_) => {
                                    assert(false);
                                },
                            }
                        }
                        Ok(rest)
                    },
                },
            },
        }
    } else {
        exec_bindings_from(children, i + 1, depth)
    }
}

/// Gathers a let expression's bindings and its last body candidate.
#[verifier::rlimit(100)]
fn exec_let_parts(children: &Vec<CstNode>, i: usize, depth: u64) -> (r: core::result::Result<
    (Vec<Binding>, Option<Expression>),
    ParseError,
>)
    ensures
        match let_parts(nodes_view(*children), i as int, depth as nat) {
            Ok((bms, body)) => r matches Ok(p) && crate::ast::bindings_view(p.0) == bms && (match body {
                Some(bm) => p.1 matches Some(b) && b@ == bm,
                None => p.1 is None,
            }),
            Err(le) => r matches Err(pe) && pe@ == lower_err_model(le),
        },
    decreases depth, 2nat, children@.len() - i,
{
    if i >= children.len() {
        let v: Vec<Binding> = Vec::new();
        proof {
            assert(crate::ast::bindings_view(v) =~= Seq::<BindingModel>::empty());
        }
        return Ok((v, None));
    }
    proof {
        assert(nodes_view(*children)[i as int] == children[i as int]@);
    }
    let c = &children[i];
    if c.kind_is("binding") {
        match exec_binding_of(c, depth) {
            Err(e) => Err(e),
            Ok(b) => match exec_let_parts(children, i + 1, depth) {
                Err(e) => Err(e),
                Ok(p) => {
                    let (mut rest, body) = p;
                    match b {
                        None => Ok((rest, body)),
                        Some(bm) => {
                            let ghost old_rest = rest@;
                            let ghost bmm = bm@;
                            rest.insert(0, bm);
                            proof {
                                match let_parts(nodes_view(*children), i + 1, depth as nat) {
                                    Ok((bms, _)) => {
                                        assert forall|k: int|
                                            0 <= k < rest@.len() implies #[trigger] crate::ast::bindings_view(
                                            rest,
                                        )[k] == (seq![bmm] + bms)[k] by {
                                            if k == 0 {
                                            } else {
                                                assert(rest@[k] == old_rest[k - 1]);
                                                assert(crate::ast::bindings_view(rest)[k]
                                                    == rest@[k]@);
                                                assert(bms[k - 1] == old_rest[k - 1]@);
                                            }
                                        }
                                        assert(crate::ast::bindings_view(rest) =~= seq![bmm]
                                            + bms);
                                    },
                                    Err(_) => {
                                        assert(false);
                                    },
                                }
                            }
                            Ok((rest, body))
                        },
                    }
                },
            },
        }
    } else if c.kind_is("binding_set") {
        let innerr: core::result::Result<Vec<Binding>, ParseError> = if depth == 0 {
            Err(err_too_deep())
        } else {
            proof {
                crate::cst::lemma_children_view(c);
            }
            exec_bindings_from(&c.children, 0, depth - 1)
        };
        match innerr {
            Err(e) => Err(e),
            Ok(inner) => match exec_let_parts(children, i + 1, depth) {
                Err(e) => Err(e),
                Ok(p) => {
                    let (rest, body) = p;
                    let ghost innerm = crate::ast::bindings_view(inner);
                    let ghost restm = crate::ast::bindings_view(rest);
                    let mut out = inner;
                    let ghost out_before = out@;
                    let mut tail = rest;
                    let ghost tail_before = tail@;
                    out.append(&mut tail);
                    proof {
                        match let_parts(nodes_view(*children), i + 1, depth as nat) {
                            Ok((bms, _)) => {
                                assert forall|k: int|
                                    0 <= k < out@.len() implies #[trigger] crate::ast::bindings_view(
                                    out,
                                )[k] == (innerm + bms)[k] by {
                                    assert(crate::ast::bindings_view(out)[k] == out@[k]@);
                                    if k < out_before.len() {
                                        assert(out@[k] == out_before[k]);
                                        assert(innerm[k] == out_before[k]@);
                                    } else {
                                        let j = k - out_before.len();
                                        assert(out@[k] == tail_before[j]);
                                        assert(restm[j] == tail_before[j]@);
                                        assert(bms[j] == restm[j]);
                                    }
                                }
                                assert(crate::ast::bindings_view(out) =~= innerm + bms);
                            },
                            Err(_) => {
                                assert(false);
                            },
                        }
                    }
                    Ok((out, body))
                },
            },
        }
    } else if c.kind_is("let") || c.kind_is("in") || c.kind_is(";") || c.kind_is("comment") {
        exec_let_parts(children, i + 1, depth)
    } else {
        let herer: core::result::Result<Expression, ParseError> = if depth == 0 {
            Err(err_too_deep())
        } else {
            node_to_ast_impl(c, depth - 1)
        };
        match herer {
            Err(e) => Err(e),
            Ok(here) => match exec_let_parts(children, i + 1, depth) {
                Err(e) => Err(e),
                Ok(p) => {
                    let (rest, body) = p;
                    match body {
                        Some(b) => Ok((rest, Some(b))),
                        None => Ok((rest, Some(here))),
                    }
                },
            },
        }
    }
}

/// Reads the parameter of a function node.
fn exec_lower_parameter(n: &CstNode, depth: u64) -> (r: core::result::Result<
    Parameter,
    ParseError,
>)
    ensures
        match lower_parameter(n@, depth as nat) {
            Ok(pm) => r matches Ok(p) && p@ == pm,
            Err(le) => r matches Err(pe) && pe@ == lower_err_model(le),
        },
    decreases depth, 2nat, 0nat,
{
    match n.child_by_field("param") {
        Some(pn) => {
            if pn.kind_is("identifier") {
                match &pn.text {
                    None => Err(err_bad_text()),
                    Some(t) => Ok(Parameter::Identifier(t.clone())),
                }
            } else if pn.kind_is("pattern") || pn.kind_is("formals") {
                proof {
                    crate::cst::lemma_children_view(pn);
                }
                match exec_pattern_fields(&pn.children, 0, depth) {
                    Err(e) => Err(e),
                    Ok(p) => {
                        let (fields, ellipsis) = p;
                        let pr = Parameter::Pattern { fields, ellipsis, bind: None };
                        proof {
                            crate::ast::lemma_pattern_param_model(fields, ellipsis, None);
                        }
                        Ok(pr)
                    },
                }
            } else if pn.kind_is("param") {
                if pn.children.len() > 0 {
                    proof {
                        assert(pn@.children[0] == pn.children[0int]@);
                    }
                    let c = &pn.children[0];
                    if c.kind_is("identifier") {
                        match &c.text {
                            None => Err(err_bad_text()),
                            Some(t) => Ok(Parameter::Identifier(t.clone())),
                        }
                    } else if c.kind_is("pattern") || c.kind_is("formals") {
                        proof {
                            crate::cst::lemma_children_view(c);
                        }
                        match exec_pattern_fields(&c.children, 0, depth) {
                            Err(e) => Err(e),
                            Ok(p) => {
                                let (fields, ellipsis) = p;
                                let pr = Parameter::Pattern { fields, ellipsis, bind: None };
                                proof {
                                    crate::ast::lemma_pattern_param_model(fields, ellipsis, None);
                                }
                                Ok(pr)
                            },
                        }
                    } else {
                        Err(err_invalid("Unexpected param child"))
                    }
                } else {
                    Err(err_invalid("Empty param node"))
                }
            } else {
                Ok(Parameter::Identifier(String::from_str("_")))
            }
        },
        None => match n.child_by_field("formals") {
            Some(fo) => {
                let bind: core::result::Result<Option<String>, ParseError> = match n.child_by_field("universal") {
                    Some(u) => match &u.text {
                        None => Err(err_bad_text()),
                        Some(t) => Ok(Some(t.clone())),
                    },
                    None => Ok(None),
                };
                match bind {
                    Err(e) => Err(e),
                    Ok(b) => {
                        proof {
                            crate::cst::lemma_children_view(fo);
                        }
                        match exec_pattern_fields(&fo.children, 0, depth) {
                            Err(e) => Err(e),
                            Ok(p) => {
                                let (fields, ellipsis) = p;
                                let pr = Parameter::Pattern { fields, ellipsis, bind: b };
                                proof {
                                    crate::ast::lemma_pattern_param_model(fields, ellipsis, b);
                                }
                                Ok(pr)
                            },
                        }
                    },
                }
            },
            None => match n.child_by_field("universal") {
                Some(u) => match &u.text {
                    None => Err(err_bad_text()),
                    Some(t) => Ok(Parameter::Identifier(t.clone())),
                },
                None => Err(err_invalid("Function missing parameter")),
            },
        },
    }
}

/// Lowers one node of the concrete syntax tree, spending one unit of the
/// depth budget per level of descent.  The result is exactly what the
/// `lower_node` model gives.
pub fn node_to_ast(n: &CstNode, depth: u64) -> (r: core::result::Result<Expression, ParseError>)
    ensures
        lower_matches(lower_node(n@, depth as nat), r),
    decreases depth, 3nat, 0nat,
{
    node_to_ast_impl(n, depth)
}

#[verifier::rlimit(100)]
fn node_to_ast_impl(n: &CstNode, depth: u64) -> (r: core::result::Result<Expression, ParseError>)
    ensures
        lower_matches(lower_node(n@, depth as nat), r),
    decreases depth, 3nat, 0nat,
{
    if depth == 0 {
        return Err(err_too_deep());
    }
    proof {
        crate::cst::lemma_children_view(n);
    }
    let is_wrapper = n.kind_is("source_file") || n.kind_is("source_code") || n.kind_is("expr")
        || n.kind_is("paren_expr") || n.kind_is("parenthesized_expression") || n.kind_is("literal")
        || n.kind_is("list_element");
    if is_wrapper {
        let target: Option<&CstNode> = match n.child_by_field("expression") {
            Some(c) => Some(c),
            None => {
                if n.children.len() > 0 {
                    proof {
                        assert(n@.children[0] == n.children[0int]@);
                    }
                    Some(&n.children[0])
                } else {
                    None
                }
            },
        };
        match target {
            Some(c) => node_to_ast_impl(c, depth - 1),
            None => {
                if n.kind_is("list_element") {
                    Err(err_invalid("Empty list element"))
                } else {
                    Err(err_invalid("Empty expression"))
                }
            },
        }
    } else if n.kind_is("integer") || n.kind_is("integer_expression") {
        match &n.text {
            None => Err(err_bad_text()),
            Some(t) => match parse_i64(t.as_str()) {
                Some(v) => Ok(Expression::Integer(v)),
                None => Err(err_bad_int()),
            },
        }
    } else if n.kind_is("float") || n.kind_is("float_expression") {
        match &n.text {
            None => Err(err_bad_text()),
            Some(t) => Ok(Expression::Float(t.clone())),
        }
    } else if n.kind_is("string") || n.kind_is("string_expression") || n.kind_is("indented_string")
        || n.kind_is("indented_string_expression") {
        match exec_string_parts(&n.children, 0, depth - 1) {
            Err(e) => Err(e),
            Ok(p) => {
                let (parts, has_interp) = p;
                if has_interp {
                    let e = Expression::StringInterpolation { parts };
                    proof {
                        crate::ast::lemma_interp_model(parts);
                    }
                    Ok(e)
                } else if parts.len() == 0 {
                    Ok(Expression::String(String::new()))
                } else {
                    Ok(Expression::String(exec_concat_literals(&parts, 0)))
                }
            },
        }
    } else if n.kind_is("boolean") {
        match &n.text {
            None => Err(err_bad_text()),
            Some(t) => Ok(Expression::Boolean(str_eq(t.as_str(), "true"))),
        }
    } else if n.kind_is("null") {
        Ok(Expression::Null)
    } else if n.kind_is("identifier") {
        match &n.text {
            None => Err(err_bad_text()),
            Some(t) => Ok(Expression::Identifier(t.clone())),
        }
    } else if n.kind_is("variable_expression") {
        match &n.text {
            None => Err(err_bad_text()),
            Some(t) => {
                if str_eq(t.as_str(), "true") {
                    Ok(Expression::Boolean(true))
                } else if str_eq(t.as_str(), "false") {
                    Ok(Expression::Boolean(false))
                } else if str_eq(t.as_str(), "null") {
                    Ok(Expression::Null)
                } else {
                    Ok(Expression::Identifier(t.clone()))
                }
            },
        }
    } else if n.kind_is("path") || n.kind_is("path_expression") || n.kind_is("hpath_expression")
        || n.kind_is("spath_expression") {
        if n.children.len() > 0 {
            proof {
                assert(n@.children[0] == n.children[0int]@);
            }
            let c = &n.children[0];
            if c.kind_is("search_path_token") {
                match &c.text {
                    None => Err(err_bad_text()),
                    Some(t) => {
                        let len = t.as_str().unicode_len();
                        if len >= 2 {
                            let inner = t.as_str().substring_char(1, len - 1).to_owned();
                            Ok(Expression::Path(PathType::Search(inner)))
                        } else {
                            Ok(Expression::Path(PathType::Search(String::new())))
                        }
                    },
                }
            } else {
                match &c.text {
                    None => Err(err_bad_text()),
                    Some(t) => Ok(Expression::Path(exec_classify_path(t.as_str()))),
                }
            }
        } else {
            match &n.text {
                None => Err(err_bad_text()),
                Some(t) => Ok(Expression::Path(exec_classify_path(t.as_str()))),
            }
        }
    } else if n.kind_is("list") || n.kind_is("list_expression") {
        match exec_list_elems(&n.children, 0, depth - 1) {
            Err(e) => Err(e),
            Ok(es) => {
                let e = Expression::List(es);
                proof {
                    crate::ast::lemma_list_model(es);
                }
                Ok(e)
            },
        }
    } else if n.kind_is("attrset") || n.kind_is("attrset_expression") || n.kind_is("rec_attrset")
        || n.kind_is("rec_attrset_expression") {
        let recursive = n.kind_is("rec_attrset") || n.kind_is("rec_attrset_expression") || (match n.child_by_kind("rec") {
            Some(_) => true,
            None => false,
        });
        match exec_attrs_from(&n.children, 0, depth - 1) {
            Err(e) => Err(e),
            Ok(attrs) => {
                let e = Expression::AttributeSet { recursive, attributes: attrs };
                proof {
                    crate::ast::lemma_attrset_model(recursive, attrs);
                }
                Ok(e)
            },
        }
    } else if n.kind_is("binary") || n.kind_is("binary_expression") {
        match n.child_by_field("left") {
            None => Err(err_invalid("Invalid binary operation")),
            Some(left) => match n.child_by_field("right") {
                None => Err(err_invalid("Invalid binary operation")),
                Some(right) => {
                    let opt: core::result::Result<Option<String>, ParseError> = match n.child_by_field("operator") {
                        Some(opn) => match &opn.text {
                            None => Err(err_bad_text()),
                            Some(t) => Ok(Some(t.clone())),
                        },
                        None => exec_scan_operator(&n.children, 0),
                    };
                    match opt {
                        Err(e) => Err(e),
                        Ok(None) => Err(err_invalid("Invalid binary operation")),
                        Ok(Some(t)) => match exec_binop_of(t.as_str()) {
                            None => Err(err_unknown_op(t.as_str())),
                            Some(op) => match node_to_ast_impl(left, depth - 1) {
                                Err(e) => Err(e),
                                Ok(l) => match node_to_ast_impl(right, depth - 1) {
                                    Err(e) => Err(e),
                                    Ok(rr) => Ok(
                                        Expression::BinaryOp {
                                            op,
                                            left: Box::new(l),
                                            right: Box::new(rr),
                                        },
                                    ),
                                },
                            },
                        },
                    }
                },
            },
        }
    } else if n.kind_is("unary") || n.kind_is("unary_expression") {
        match n.child_by_field("argument") {
            None => Err(err_invalid("Invalid unary operation")),
            Some(arg) => {
                let opt: core::result::Result<Option<String>, ParseError> = match n.child_by_field("operator") {
                    Some(opn) => match &opn.text {
                        None => Err(err_bad_text()),
                        Some(t) => Ok(Some(t.clone())),
                    },
                    None => Ok(None),
                };
                match opt {
                    Err(e) => Err(e),
                    Ok(None) => Err(err_invalid("Invalid unary operation")),
                    Ok(Some(t)) => match exec_unop_of(t.as_str()) {
                        None => Err(err_unknown_op(t.as_str())),
                        Some(op) => match node_to_ast_impl(arg, depth - 1) {
                            Err(e) => Err(e),
                            Ok(a) => Ok(Expression::UnaryOp { op, operand: Box::new(a) }),
                        },
                    },
                }
            },
        }
    } else if n.kind_is("select") || n.kind_is("select_expression") {
        let objf = match n.child_by_field("obj") {
            Some(o) => Some(o),
            None => n.child_by_field("expression"),
        };
        let pathf = match n.child_by_field("path") {
            Some(p) => Some(p),
            None => n.child_by_field("attrpath"),
        };
        match objf {
            None => Err(err_invalid("Invalid selection")),
            Some(obj) => match pathf {
                None => Err(err_invalid("Invalid selection")),
                Some(pathn) => match &pathn.text {
                    None => Err(err_bad_text()),
                    Some(pt) => match node_to_ast_impl(obj, depth - 1) {
                        Err(e) => Err(e),
                        Ok(o) => {
                            let path = split_on_dots(pt.as_str());
                            proof {
                                assert forall|k: int|
                                    0 <= k < path@.len() implies #[trigger] crate::ast::strings_view(
                                    path,
                                )[k] == split_dots(pt@)[k] by {
                                    assert(crate::ast::strings_view(path)[k] == path@[k]@);
                                }
                                assert(crate::ast::strings_view(path) =~= split_dots(pt@));
                            }
                            match n.child_by_field("default") {
                                None => Ok(
                                    Expression::Select {
                                        expr: Box::new(o),
                                        path,
                                        default: None,
                                    },
                                ),
                                Some(d) => match node_to_ast_impl(d, depth - 1) {
                                    Err(e) => Err(e),
                                    Ok(dm) => Ok(
                                        Expression::Select {
                                            expr: Box::new(o),
                                            path,
                                            default: Some(Box::new(dm)),
                                        },
                                    ),
                                },
                            }
                        },
                    },
                },
            },
        }
    } else if n.kind_is("has_attr") || n.kind_is("has_attr_expression") {
        let objf = match n.child_by_field("expression") {
            Some(o) => Some(o),
            None => n.child_by_field("obj"),
        };
        match objf {
            None => Err(err_invalid("Invalid attribute test")),
            Some(obj) => match n.child_by_field("attrpath") {
                None => Err(err_invalid("Invalid attribute test")),
                Some(pathn) => match &pathn.text {
                    None => Err(err_bad_text()),
                    Some(pt) => match node_to_ast_impl(obj, depth - 1) {
                        Err(e) => Err(e),
                        Ok(o) => {
                            let path = split_on_dots(pt.as_str());
                            proof {
                                assert forall|k: int|
                                    0 <= k < path@.len() implies #[trigger] crate::ast::strings_view(
                                    path,
                                )[k] == split_dots(pt@)[k] by {
                                    assert(crate::ast::strings_view(path)[k] == path@[k]@);
                                }
                                assert(crate::ast::strings_view(path) =~= split_dots(pt@));
                            }
                            Ok(Expression::HasAttr { expr: Box::new(o), path })
                        },
                    },
                },
            },
        }
    } else if n.kind_is("apply") || n.kind_is("apply_expression") || n.kind_is("application") {
        let fnf = match n.child_by_field("fn") {
            Some(f) => Some(f),
            None => n.child_by_field("function"),
        };
        let argf = match n.child_by_field("arg") {
            Some(a) => Some(a),
            None => n.child_by_field("argument"),
        };
        match fnf {
            None => Err(err_invalid("Invalid application")),
            Some(f) => match argf {
                None => Err(err_invalid("Invalid application")),
                Some(a) => match node_to_ast_impl(f, depth - 1) {
                    Err(e) => Err(e),
                    Ok(fm) => match node_to_ast_impl(a, depth - 1) {
                        Err(e) => Err(e),
                        Ok(am) => Ok(
                            Expression::Application {
                                function: Box::new(fm),
                                argument: Box::new(am),
                            },
                        ),
                    },
                },
            },
        }
    } else if n.kind_is("let_expr") || n.kind_is("let_expression") {
        match exec_let_parts(&n.children, 0, depth - 1) {
            Err(e) => Err(e),
            Ok(p) => {
                let (bindings, body0) = p;
                let body: core::result::Result<Option<Expression>, ParseError> = match n.child_by_field("body") {
                    Some(bn) => match node_to_ast_impl(bn, depth - 1) {
                        Err(e) => Err(e),
                        Ok(b) => Ok(Some(b)),
                    },
                    None => Ok(body0),
                };
                match body {
                    Err(e) => Err(e),
                    Ok(None) => Err(err_invalid("Let expression missing body")),
                    Ok(Some(b)) => {
                        let bb = Box::new(b);
                        let e = Expression::LetIn { bindings, body: bb };
                        proof {
                            crate::ast::lemma_letin_model(bindings, bb);
                        }
                        Ok(e)
                    },
                }
            },
        }
    } else if n.kind_is("if_expr") || n.kind_is("if_expression") {
        let condf = match n.child_by_field("cond") {
            Some(cd) => Some(cd),
            None => n.child_by_field("condition"),
        };
        let thenf = match n.child_by_field("then_expr") {
            Some(t) => Some(t),
            None => n.child_by_field("consequence"),
        };
        let elsef = match n.child_by_field("else_expr") {
            Some(t) => Some(t),
            None => n.child_by_field("alternative"),
        };
        match condf {
            None => Err(err_invalid("If missing condition")),
            Some(cd) => match thenf {
                None => Err(err_invalid("If missing then branch")),
                Some(t) => match elsef {
                    None => Err(err_invalid("If missing else branch")),
                    Some(e0) => match node_to_ast_impl(cd, depth - 1) {
                        Err(e) => Err(e),
                        Ok(cm) => match node_to_ast_impl(t, depth - 1) {
                            Err(e) => Err(e),
                            Ok(tm) => match node_to_ast_impl(e0, depth - 1) {
                                Err(e) => Err(e),
                                Ok(em) => Ok(
                                    Expression::If {
                                        condition: Box::new(cm),
                                        then_branch: Box::new(tm),
                                        else_branch: Box::new(em),
                                    },
                                ),
                            },
                        },
                    },
                },
            },
        }
    } else if n.kind_is("function") || n.kind_is("function_expression") {
        match n.child_by_field("body") {
            None => Err(err_invalid("Function missing body")),
            Some(bodyn) => match exec_lower_parameter(n, depth - 1) {
                Err(e) => Err(e),
                Ok(param) => match node_to_ast_impl(bodyn, depth - 1) {
                    Err(e) => Err(e),
                    Ok(b) => Ok(Expression::Function { parameter: param, body: Box::new(b) }),
                },
            },
        }
    } else if n.kind_is("with_keyword") {
        Ok(Expression::Identifier(String::from_str("with")))
    } else if n.kind_is("import_keyword") {
        Ok(Expression::Identifier(String::from_str("import")))
    } else if n.kind_is("assert_keyword") {
        Ok(Expression::Identifier(String::from_str("assert")))
    } else if n.kind_is("inherit_keyword") {
        Ok(Expression::Identifier(String::from_str("inherit")))
    } else if n.kind_is("with_expr") || n.kind_is("with_expression") {
        let nsf = match n.child_by_field("namespace") {
            Some(ns) => Some(ns),
            None => n.child_by_field("environment"),
        };
        match nsf {
            None => Err(err_invalid("With missing namespace")),
            Some(ns) => match n.child_by_field("body") {
                None => Err(err_invalid("With missing body")),
                Some(bn) => match node_to_ast_impl(ns, depth - 1) {
                    Err(e) => Err(e),
                    Ok(nm) => match node_to_ast_impl(bn, depth - 1) {
                        Err(e) => Err(e),
                        Ok(bm) => Ok(Expression::With { scope: Box::new(nm), body: Box::new(bm) }),
                    },
                },
            },
        }
    } else if n.kind_is("import_expr") {
        match n.child_by_field("path") {
            None => Err(err_invalid("Import missing path")),
            Some(p) => match node_to_ast_impl(p, depth - 1) {
                Err(e) => Err(e),
                Ok(pm) => Ok(Expression::Import { path: Box::new(pm) }),
            },
        }
    } else if n.kind_is("assert_expr") || n.kind_is("assert_expression") {
        match n.child_by_field("condition") {
            None => Err(err_invalid("Assert missing condition")),
            Some(cd) => match n.child_by_field("body") {
                None => Err(err_invalid("Assert missing body")),
                Some(b) => match node_to_ast_impl(cd, depth - 1) {
                    Err(e) => Err(e),
                    Ok(cm) => match node_to_ast_impl(b, depth - 1) {
                        Err(e) => Err(e),
                        Ok(bm) => Ok(
                            Expression::Assert { condition: Box::new(cm), body: Box::new(bm) },
                        ),
                    },
                },
            },
        }
    } else if n.kind_is("inherit") || n.kind_is("inherit_from") {
        let source: core::result::Result<Option<Expression>, ParseError> = match n.child_by_field("source") {
            Some(sn) => {
                if sn.children.len() >= 2 {
                    proof {
                        assert(sn@.children[1] == sn.children[1int]@);
                    }
                    match node_to_ast_impl(&sn.children[1], depth - 1) {
                        Err(e) => Err(e),
                        Ok(sm) => Ok(Some(sm)),
                    }
                } else {
                    Ok(None)
                }
            },
            None => match n.child_by_field("expression") {
                Some(en) => match node_to_ast_impl(en, depth - 1) {
                    Err(e) => Err(e),
                    Ok(em) => Ok(Some(em)),
                },
                None => Ok(None),
            },
        };
        match source {
            Err(e) => Err(e),
            Ok(src) => match n.child_by_field("attrs") {
                None => Err(err_invalid("Inherit missing attributes")),
                Some(attrsn) => {
                    proof {
                        crate::cst::lemma_children_view(attrsn);
                    }
                    match exec_inherit_names(&attrsn.children, 0) {
                        Err(e) => Err(e),
                        Ok(names) => Ok(
                            Expression::Inherit {
                                source: match src {
                                    Some(s) => Some(Box::new(s)),
                                    None => None,
                                },
                                attributes: names,
                            },
                        ),
                    }
                },
            },
        }
    } else if n.kind_is("ERROR") {
        Err(err_invalid("Malformed expression"))
    } else {
        Err(err_unknown_kind(&n.kind))
    }
}

} // verus!
