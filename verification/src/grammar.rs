//! Node kinds, field names and grammar layers of the language.

use vstd::prelude::*;

verus! {

use crate::cst::CstNode;
use crate::strutil::str_eq;
use vstd::string::StringExecFns;

/// The node kinds of the grammar.
#[derive(Debug, Clone, Copy, PartialEq, Eq, Hash, Structural)]
pub enum NodeType {
    SourceFile,
    Integer,
    Float,
    String,
    IndentedString,
    Boolean,
    Null,
    Identifier,
    Path,
    Uri,
    List,
    Attrset,
    RecAttrset,
    BinaryExpression,
    UnaryExpression,
    Application,
    FunctionExpression,
    LetExpression,
    IfExpression,
    WithExpression,
    AssertExpression,
    ParenthesizedExpression,
    Select,
    HasAttr,
    Binding,
    Inherit,
    Attrpath,
    Formals,
    Formal,
    StringInterpolation,
    Comment,
    Error,
    Missing,
}

/// Every node kind, in declaration order.
pub open spec fn all_node_types() -> Seq<NodeType> {
    seq![
        NodeType::SourceFile,
        NodeType::Integer,
        NodeType::Float,
        NodeType::String,
        NodeType::IndentedString,
        NodeType::Boolean,
        NodeType::Null,
        NodeType::Identifier,
        NodeType::Path,
        NodeType::Uri,
        NodeType::List,
        NodeType::Attrset,
        NodeType::RecAttrset,
        NodeType::BinaryExpression,
        NodeType::UnaryExpression,
        NodeType::Application,
        NodeType::FunctionExpression,
        NodeType::LetExpression,
        NodeType::IfExpression,
        NodeType::WithExpression,
        NodeType::AssertExpression,
        NodeType::ParenthesizedExpression,
        NodeType::Select,
        NodeType::HasAttr,
        NodeType::Binding,
        NodeType::Inherit,
        NodeType::Attrpath,
        NodeType::Formals,
        NodeType::Formal,
        NodeType::StringInterpolation,
        NodeType::Comment,
        NodeType::Error,
        NodeType::Missing,
    ]
}

/// The kind tag that names each node type.
pub open spec fn node_type_name(t: NodeType) -> Seq<char> {
    match t {
        NodeType::SourceFile => "source_file"@,
        NodeType::Integer => "integer"@,
        NodeType::Float => "float"@,
        NodeType::String => "string"@,
        NodeType::IndentedString => "indented_string"@,
        NodeType::Boolean => "boolean"@,
        NodeType::Null => "null"@,
        NodeType::Identifier => "identifier"@,
        NodeType::Path => "path"@,
        NodeType::Uri => "uri"@,
        NodeType::List => "list"@,
        NodeType::Attrset => "attrset"@,
        NodeType::RecAttrset => "rec_attrset"@,
        NodeType::BinaryExpression => "binary_expression"@,
        NodeType::UnaryExpression => "unary_expression"@,
        NodeType::Application => "application"@,
        NodeType::FunctionExpression => "function_expression"@,
        NodeType::LetExpression => "let_expression"@,
        NodeType::IfExpression => "if_expression"@,
        NodeType::WithExpression => "with_expression"@,
        NodeType::AssertExpression => "assert_expression"@,
        NodeType::ParenthesizedExpression => "parenthesized_expression"@,
        NodeType::Select => "select"@,
        NodeType::HasAttr => "has_attr"@,
        NodeType::Binding => "binding"@,
        NodeType::Inherit => "inherit"@,
        NodeType::Attrpath => "attrpath"@,
        NodeType::Formals => "formals"@,
        NodeType::Formal => "formal"@,
        NodeType::StringInterpolation => "string_interpolation"@,
        NodeType::Comment => "comment"@,
        NodeType::Error => "ERROR"@,
        NodeType::Missing => "MISSING"@,
    }
}

/// The node type a kind tag names, where one does; error and missing
/// markers carry their own upper-case tags and are not named here.
pub open spec fn node_type_of(s: Seq<char>) -> Option<NodeType> {
    if s == "source_file"@ {
        Some(NodeType::SourceFile)
    } else if s == "integer"@ {
        Some(NodeType::Integer)
    } else if s == "float"@ {
        Some(NodeType::Float)
    } else if s == "string"@ {
        Some(NodeType::String)
    } else if s == "indented_string"@ {
        Some(NodeType::IndentedString)
    } else if s == "boolean"@ {
        Some(NodeType::Boolean)
    } else if s == "null"@ {
        Some(NodeType::Null)
    } else if s == "identifier"@ {
        Some(NodeType::Identifier)
    } else if s == "path"@ {
        Some(NodeType::Path)
    } else if s == "uri"@ {
        Some(NodeType::Uri)
    } else if s == "list"@ {
        Some(NodeType::List)
    } else if s == "attrset"@ {
        Some(NodeType::Attrset)
    } else if s == "rec_attrset"@ {
        Some(NodeType::RecAttrset)
    } else if s == "binary_expression"@ {
        Some(NodeType::BinaryExpression)
    } else if s == "unary_expression"@ {
        Some(NodeType::UnaryExpression)
    } else if s == "application"@ {
        Some(NodeType::Application)
    } else if s == "function_expression"@ {
        Some(NodeType::FunctionExpression)
    } else if s == "let_expression"@ {
        Some(NodeType::LetExpression)
    } else if s == "if_expression"@ {
        Some(NodeType::IfExpression)
    } else if s == "with_expression"@ {
        Some(NodeType::WithExpression)
    } else if s == "assert_expression"@ {
        Some(NodeType::AssertExpression)
    } else if s == "parenthesized_expression"@ {
        Some(NodeType::ParenthesizedExpression)
    } else if s == "select"@ {
        Some(NodeType::Select)
    } else if s == "has_attr"@ {
        Some(NodeType::HasAttr)
    } else if s == "binding"@ {
        Some(NodeType::Binding)
    } else if s == "inherit"@ {
        Some(NodeType::Inherit)
    } else if s == "attrpath"@ {
        Some(NodeType::Attrpath)
    } else if s == "formals"@ {
        Some(NodeType::Formals)
    } else if s == "formal"@ {
        Some(NodeType::Formal)
    } else if s == "string_interpolation"@ {
        Some(NodeType::StringInterpolation)
    } else if s == "comment"@ {
        Some(NodeType::Comment)
    } else if s == "ERROR"@ {
        Some(NodeType::Error)
    } else if s == "MISSING"@ {
        Some(NodeType::Missing)
    } else {
        None
    }
}

impl NodeType {
    /// Every node kind.
    pub fn all() -> (r: Vec<NodeType>)
        ensures
            r@ == all_node_types(),
    {
        let mut v: Vec<NodeType> = Vec::new();
        v.push(NodeType::SourceFile);
        v.push(NodeType::Integer);
        v.push(NodeType::Float);
        v.push(NodeType::String);
        v.push(NodeType::IndentedString);
        v.push(NodeType::Boolean);
        v.push(NodeType::Null);
        v.push(NodeType::Identifier);
        v.push(NodeType::Path);
        v.push(NodeType::Uri);
        v.push(NodeType::List);
        v.push(NodeType::Attrset);
        v.push(NodeType::RecAttrset);
        v.push(NodeType::BinaryExpression);
        v.push(NodeType::UnaryExpression);
        v.push(NodeType::Application);
        v.push(NodeType::FunctionExpression);
        v.push(NodeType::LetExpression);
        v.push(NodeType::IfExpression);
        v.push(NodeType::WithExpression);
        v.push(NodeType::AssertExpression);
        v.push(NodeType::ParenthesizedExpression);
        v.push(NodeType::Select);
        v.push(NodeType::HasAttr);
        v.push(NodeType::Binding);
        v.push(NodeType::Inherit);
        v.push(NodeType::Attrpath);
        v.push(NodeType::Formals);
        v.push(NodeType::Formal);
        v.push(NodeType::StringInterpolation);
        v.push(NodeType::Comment);
        v.push(NodeType::Error);
        v.push(NodeType::Missing);
        proof {
            assert(v@ =~= all_node_types());
        }
        v
    }

    /// The kind tag that names this node type.
    pub fn as_str(self) -> (r: &'static str)
        ensures
            r@ == node_type_name(self),
    {
        match self {
            NodeType::SourceFile => "source_file",
            NodeType::Integer => "integer",
            NodeType::Float => "float",
            NodeType::String => "string",
            NodeType::IndentedString => "indented_string",
            NodeType::Boolean => "boolean",
            NodeType::Null => "null",
            NodeType::Identifier => "identifier",
            NodeType::Path => "path",
            NodeType::Uri => "uri",
            NodeType::List => "list",
            NodeType::Attrset => "attrset",
            NodeType::RecAttrset => "rec_attrset",
            NodeType::BinaryExpression => "binary_expression",
            NodeType::UnaryExpression => "unary_expression",
            NodeType::Application => "application",
            NodeType::FunctionExpression => "function_expression",
            NodeType::LetExpression => "let_expression",
            NodeType::IfExpression => "if_expression",
            NodeType::WithExpression => "with_expression",
            NodeType::AssertExpression => "assert_expression",
            NodeType::ParenthesizedExpression => "parenthesized_expression",
            NodeType::Select => "select",
            NodeType::HasAttr => "has_attr",
            NodeType::Binding => "binding",
            NodeType::Inherit => "inherit",
            NodeType::Attrpath => "attrpath",
            NodeType::Formals => "formals",
            NodeType::Formal => "formal",
            NodeType::StringInterpolation => "string_interpolation",
            NodeType::Comment => "comment",
            NodeType::Error => "ERROR",
            NodeType::Missing => "MISSING",
        }
    }

    /// The node type a kind tag names, where one does.
    pub fn from_str(s: &str) -> (r: Option<NodeType>)
        ensures
            r == node_type_of(s@),
    {
        if str_eq(s, "source_file") {
            Some(NodeType::SourceFile)
        } else if str_eq(s, "integer") {
            Some(NodeType::Integer)
        } else if str_eq(s, "float") {
            Some(NodeType::Float)
        } else if str_eq(s, "string") {
            Some(NodeType::String)
        } else if str_eq(s, "indented_string") {
            Some(NodeType::IndentedString)
        } else if str_eq(s, "boolean") {
            Some(NodeType::Boolean)
        } else if str_eq(s, "null") {
            Some(NodeType::Null)
        } else if str_eq(s, "identifier") {
            Some(NodeType::Identifier)
        } else if str_eq(s, "path") {
            Some(NodeType::Path)
        } else if str_eq(s, "uri") {
            Some(NodeType::Uri)
        } else if str_eq(s, "list") {
            Some(NodeType::List)
        } else if str_eq(s, "attrset") {
            Some(NodeType::Attrset)
        } else if str_eq(s, "rec_attrset") {
            Some(NodeType::RecAttrset)
        } else if str_eq(s, "binary_expression") {
            Some(NodeType::BinaryExpression)
        } else if str_eq(s, "unary_expression") {
            Some(NodeType::UnaryExpression)
        } else if str_eq(s, "application") {
            Some(NodeType::Application)
        } else if str_eq(s, "function_expression") {
            Some(NodeType::FunctionExpression)
        } else if str_eq(s, "let_expression") {
            Some(NodeType::LetExpression)
        } else if str_eq(s, "if_expression") {
            Some(NodeType::IfExpression)
        } else if str_eq(s, "with_expression") {
            Some(NodeType::WithExpression)
        } else if str_eq(s, "assert_expression") {
            Some(NodeType::AssertExpression)
        } else if str_eq(s, "parenthesized_expression") {
            Some(NodeType::ParenthesizedExpression)
        } else if str_eq(s, "select") {
            Some(NodeType::Select)
        } else if str_eq(s, "has_attr") {
            Some(NodeType::HasAttr)
        } else if str_eq(s, "binding") {
            Some(NodeType::Binding)
        } else if str_eq(s, "inherit") {
            Some(NodeType::Inherit)
        } else if str_eq(s, "attrpath") {
            Some(NodeType::Attrpath)
        } else if str_eq(s, "formals") {
            Some(NodeType::Formals)
        } else if str_eq(s, "formal") {
            Some(NodeType::Formal)
        } else if str_eq(s, "string_interpolation") {
            Some(NodeType::StringInterpolation)
        } else if str_eq(s, "comment") {
            Some(NodeType::Comment)
        } else if str_eq(s, "ERROR") {
            Some(NodeType::Error)
        } else if str_eq(s, "MISSING") {
            Some(NodeType::Missing)
        } else {
            None
        }
    }

    /// Whether this node type is a literal value.
    pub fn is_literal(self) -> (r: bool)
        ensures
            r == (self == NodeType::Integer || self == NodeType::Float || self == NodeType::String
                || self == NodeType::IndentedString || self == NodeType::Boolean || self
                == NodeType::Null || self == NodeType::Path || self == NodeType::Uri),
    {
        match self {
            NodeType::Integer => true,
            NodeType::Float => true,
            NodeType::String => true,
            NodeType::IndentedString => true,
            NodeType::Boolean => true,
            NodeType::Null => true,
            NodeType::Path => true,
            NodeType::Uri => true,
            _ => false,
        }
    }

    /// Whether this node type is an expression.
    pub fn is_expression(self) -> (r: bool)
        ensures
            r == (self == NodeType::BinaryExpression || self == NodeType::UnaryExpression || self
                == NodeType::Application || self == NodeType::FunctionExpression || self
                == NodeType::LetExpression || self == NodeType::IfExpression || self
                == NodeType::WithExpression || self == NodeType::AssertExpression || self
                == NodeType::ParenthesizedExpression || self == NodeType::Select || self
                == NodeType::HasAttr || self == NodeType::List || self == NodeType::Attrset || self
                == NodeType::RecAttrset || self == NodeType::Integer || self == NodeType::Float
                || self == NodeType::String || self == NodeType::IndentedString || self
                == NodeType::Boolean || self == NodeType::Null || self == NodeType::Path || self
                == NodeType::Uri),
    {
        match self {
            NodeType::BinaryExpression => true,
            NodeType::UnaryExpression => true,
            NodeType::Application => true,
            NodeType::FunctionExpression => true,
            NodeType::LetExpression => true,
            NodeType::IfExpression => true,
            NodeType::WithExpression => true,
            NodeType::AssertExpression => true,
            NodeType::ParenthesizedExpression => true,
            NodeType::Select => true,
            NodeType::HasAttr => true,
            NodeType::List => true,
            NodeType::Attrset => true,
            NodeType::RecAttrset => true,
            _ => self.is_literal(),
        }
    }

    /// Whether this node type marks an error condition.
    pub fn is_error(self) -> (r: bool)
        ensures
            r == (self == NodeType::Error || self == NodeType::Missing),
    {
        match self {
            NodeType::Error => true,
            NodeType::Missing => true,
            _ => false,
        }
    }
}

/// The named fields of the grammar.
#[derive(Debug, Clone, Copy, PartialEq, Eq, Hash, Structural)]
pub enum FieldName {
    Expression,
    Body,
    Left,
    Right,
    Operator,
    Argument,
    Function,
    Parameter,
    Condition,
    Consequence,
    Alternative,
    Bindings,
    Attrpath,
    Elements,
    Name,
    Default,
    From,
    Attributes,
}

/// The string that names each field.
pub open spec fn field_name_str(f: FieldName) -> Seq<char> {
    match f {
        FieldName::Expression => "expression"@,
        FieldName::Body => "body"@,
        FieldName::Left => "left"@,
        FieldName::Right => "right"@,
        FieldName::Operator => "operator"@,
        FieldName::Argument => "argument"@,
        FieldName::Function => "function"@,
        FieldName::Parameter => "parameter"@,
        FieldName::Condition => "condition"@,
        FieldName::Consequence => "consequence"@,
        FieldName::Alternative => "alternative"@,
        FieldName::Bindings => "bindings"@,
        FieldName::Attrpath => "attrpath"@,
        FieldName::Elements => "elements"@,
        FieldName::Name => "name"@,
        FieldName::Default => "default"@,
        FieldName::From => "from"@,
        FieldName::Attributes => "attributes"@,
    }
}

impl FieldName {
    /// The string that names this field.
    pub fn as_str(self) -> (r: &'static str)
        ensures
            r@ == field_name_str(self),
    {
        match self {
            FieldName::Expression => "expression",
            FieldName::Body => "body",
            FieldName::Left => "left",
            FieldName::Right => "right",
            FieldName::Operator => "operator",
            FieldName::Argument => "argument",
            FieldName::Function => "function",
            FieldName::Parameter => "parameter",
            FieldName::Condition => "condition",
            FieldName::Consequence => "consequence",
            FieldName::Alternative => "alternative",
            FieldName::Bindings => "bindings",
            FieldName::Attrpath => "attrpath",
            FieldName::Elements => "elements",
            FieldName::Name => "name",
            FieldName::Default => "default",
            FieldName::From => "from",
            FieldName::Attributes => "attributes",
        }
    }
}

/// Grammar layers of growing breadth.
#[derive(Debug, Clone, Copy, PartialEq, Eq, Structural)]
pub enum GrammarLayer {
    /// Literals and operators.
    Basic,
    /// The language's standard features.
    Standard,
    /// Imports and scoping forms.
    Advanced,
    /// Everything, experimental forms included.
    Experimental,
}

/// The kind tags each layer admits; the experimental layer admits all.
pub open spec fn layer_nodes(l: GrammarLayer) -> Seq<Seq<char>> {
    match l {
        GrammarLayer::Basic => seq![
            "integer"@,
            "float"@,
            "string"@,
            "boolean"@,
            "null"@,
            "identifier"@,
            "binary_expression"@,
            "unary_expression"@,
            "list"@,
            "attribute_set"@,
            "parenthesized_expression"@,
        ],
        GrammarLayer::Standard => seq![
            "function"@,
            "function_application"@,
            "let_expression"@,
            "if_expression"@,
            "selection"@,
            "has_attribute"@,
        ],
        GrammarLayer::Advanced => seq![
            "with_expression"@,
            "assert_expression"@,
            "import"@,
            "derivation"@,
        ],
        GrammarLayer::Experimental => Seq::empty(),
    }
}

impl GrammarLayer {
    /// The kind tags this layer adds; the experimental layer lists none
    /// because it admits every node.
    pub fn allowed_nodes(&self) -> (r: Vec<&'static str>)
        ensures
            r@.len() == layer_nodes(*self).len(),
            forall|i: int| 0 <= i < r@.len() ==> #[trigger] r@[i]@ == layer_nodes(*self)[i],
    {
        let mut v: Vec<&'static str> = Vec::new();
        match self {
            GrammarLayer::Basic => {
                v.push("integer");
                v.push("float");
                v.push("string");
                v.push("boolean");
                v.push("null");
                v.push("identifier");
                v.push("binary_expression");
                v.push("unary_expression");
                v.push("list");
                v.push("attribute_set");
                v.push("parenthesized_expression");
            },
            GrammarLayer::Standard => {
                v.push("function");
                v.push("function_application");
                v.push("let_expression");
                v.push("if_expression");
                v.push("selection");
                v.push("has_attribute");
            },
            GrammarLayer::Advanced => {
                v.push("with_expression");
                v.push("assert_expression");
                v.push("import");
                v.push("derivation");
            },
            GrammarLayer::Experimental => {},
        }
        v
    }
}

/// Whether a node carries the expected kind tag.
pub fn validate_node_type(node: &CstNode, expected: NodeType) -> (r: bool)
    ensures
        r == (node@.kind == node_type_name(expected)),
{
    str_eq(node.kind.as_str(), expected.as_str())
}

/// Whether a node fills the named field with some child.
pub fn has_required_field(node: &CstNode, field: FieldName) -> (r: bool)
    ensures
        r == (crate::cst::find_field(node@.children, field_name_str(field)) is Some),
{
    match node.child_by_field(field.as_str()) {
        Some(_) => true,
        None => false,
    }
}

/// Checks a node's kind and required fields; the result lists one message
/// per violation, and is empty exactly when the node passes.
pub fn validate_node_structure(node: &CstNode, node_type: NodeType, required_fields: &Vec<
    FieldName,
>) -> (r: Vec<String>)
    ensures
        (r@.len() == 0) <==> (node@.kind == node_type_name(node_type) && (forall|i: int|
            0 <= i < required_fields@.len() ==> crate::cst::find_field(
                node@.children,
                field_name_str(#[trigger] required_fields@[i]),
            ) is Some)),
{
    let mut errors: Vec<String> = Vec::new();
    if !validate_node_type(node, node_type) {
        let mut m = String::new();
        m.append("Expected ");
        m.append(node_type.as_str());
        m.append(" but got ");
        m.append(node.kind.as_str());
        errors.push(m);
    }
    let mut i: usize = 0;
    while i < required_fields.len()
        invariant
            0 <= i <= required_fields@.len(),
            (errors@.len() == 0) <==> (node@.kind == node_type_name(node_type) && (forall|j: int|
                0 <= j < i ==> crate::cst::find_field(
                    node@.children,
                    field_name_str(#[trigger] required_fields@[j]),
                ) is Some)),
        decreases required_fields@.len() - i,
    {
        let f = required_fields[i];
        if !has_required_field(node, f) {
            let mut m = String::new();
            m.append("Missing required field: ");
            m.append(f.as_str());
            errors.push(m);
        }
        i = i + 1;
    }
    errors
}

} // verus!
