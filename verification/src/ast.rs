//! The typed expression tree that lowering produces, with a mathematical
//! model for every node type.
//!
//! Values are tree-shaped: each compound node owns its parts outright.
//! They are built once by the lowering engine and never changed after.

use vstd::prelude::*;

verus! {

broadcast use vstd::std_specs::vec::axiom_vec_index_decreases, vstd::seq::axiom_seq_index_decreases;

/// A byte range with row/column points, plus a one-based line and column.
///
/// Rows and columns in `start_position`/`end_position` are zero-based, as
/// the grammar engine reports them; `line` and `column` are one-based, the
/// convention at the expression-tree boundary.
#[derive(Debug, Clone, Copy)]
pub struct SourceLocation {
    /// First byte of the range.
    pub start_byte: usize,
    /// One past the last byte of the range.
    pub end_byte: usize,
    /// Zero-based (row, column) of the range's start.
    pub start_position: (usize, usize),
    /// Zero-based (row, column) of the range's end.
    pub end_position: (usize, usize),
    /// One-based line of the range's start.
    pub line: usize,
    /// One-based column of the range's start.
    pub column: usize,
}

impl PartialEq for SourceLocation {
    fn eq(&self, other: &SourceLocation) -> (r: bool) {
        self.start_byte == other.start_byte && self.end_byte == other.end_byte
            && self.start_position.0 == other.start_position.0 && self.start_position.1
            == other.start_position.1 && self.end_position.0 == other.end_position.0
            && self.end_position.1 == other.end_position.1 && self.line == other.line
            && self.column == other.column
    }
}

impl Eq for SourceLocation {

}

impl vstd::std_specs::cmp::PartialEqSpecImpl for SourceLocation {
    open spec fn obeys_eq_spec() -> bool {
        true
    }

    open spec fn eq_spec(&self, other: &SourceLocation) -> bool {
        self.start_byte == other.start_byte && self.end_byte == other.end_byte
            && self.start_position == other.start_position && self.end_position
            == other.end_position && self.line == other.line && self.column == other.column
    }
}

impl SourceLocation {
    /// Builds a location whose start and end coincide.
    pub fn new(line: usize, column: usize, start_byte: usize, end_byte: usize) -> (r:
        SourceLocation)
        ensures
            r.start_byte == start_byte,
            r.end_byte == end_byte,
            r.start_position == (line, column),
            r.end_position == (line, column),
            r.line == line,
            r.column == column,
    {
        SourceLocation {
            start_byte,
            end_byte,
            start_position: (line, column),
            end_position: (line, column),
            line,
            column,
        }
    }

    /// Reads a location off a syntax-tree node, turning its zero-based
    /// start point into the one-based line and column.
    pub fn from_tree_sitter_node(node: &crate::cst::CstNode) -> (r: SourceLocation)
        requires
            node@.start_row < usize::MAX,
            node@.start_col < usize::MAX,
        ensures
            r.start_byte == node@.start_byte,
            r.end_byte == node@.end_byte,
            r.start_position == (node@.start_row as usize, node@.start_col as usize),
            r.end_position == (node@.end_row as usize, node@.end_col as usize),
            r.line == node@.start_row + 1,
            r.column == node@.start_col + 1,
    {
        SourceLocation {
            start_byte: node.start_byte,
            end_byte: node.end_byte,
            start_position: (node.start_row, node.start_col),
            end_position: (node.end_row, node.end_col),
            line: node.start_row + 1,
            column: node.start_col + 1,
        }
    }
}

/// Binary operators of the language.
#[derive(Debug, Clone, Copy, PartialEq, Eq, Structural)]
pub enum BinaryOperator {
    Add,
    Subtract,
    Multiply,
    Divide,
    Equal,
    NotEqual,
    Less,
    LessEqual,
    Greater,
    GreaterEqual,
    And,
    Or,
    Implies,
    Update,
    Concat,
}

/// Unary operators of the language.
#[derive(Debug, Clone, Copy, PartialEq, Eq, Structural)]
pub enum UnaryOperator {
    Not,
    Negate,
}

/// The classification of a path literal.
#[derive(Debug, PartialEq)]
pub enum PathType {
    /// A path starting at the file system root.
    Absolute(String),
    /// A path relative to the containing file.
    Relative(String),
    /// A path relative to the user's home directory.
    Home(String),
    /// A bracketed search-path reference.
    Search(String),
}

/// One piece of an interpolated string.
#[derive(Debug, PartialEq)]
pub enum StringPart {
    /// Literal text.
    Literal(String),
    /// A spliced sub-expression.
    Interpolation(Box<Expression>),
}

/// One piece of an interpolated string, with the string piece first.
#[derive(Debug, PartialEq)]
pub enum InterpolationPart {
    String(String),
    Expression(Box<Expression>),
}

/// A function's formal parameter.
#[derive(Debug, PartialEq)]
pub enum Parameter {
    /// A bare name binding the whole argument.
    Identifier(String),
    /// A destructuring pattern over an attribute set.
    Pattern { fields: Vec<PatternField>, ellipsis: bool, bind: Option<String> },
}

/// One field of a destructuring pattern, with its optional default.
#[derive(Debug, PartialEq)]
pub struct PatternField {
    pub name: String,
    pub default: Option<Expression>,
}

/// One attribute of an attribute set.
#[derive(Debug, PartialEq)]
pub struct Attribute {
    /// The attribute path, one segment per element.
    pub path: Vec<String>,
    /// The bound value.
    pub value: Expression,
}

/// One binding of a let expression.
#[derive(Debug, PartialEq)]
pub struct Binding {
    pub name: String,
    pub value: Expression,
    pub inherit: bool,
    pub from: Option<Expression>,
}

/// A typed expression of the language.
///
/// Float literals keep their source text: the library states nothing about
/// floating-point values themselves.
#[derive(Debug, PartialEq)]
pub enum Expression {
    Integer(i64),
    Float(String),
    String(String),
    StringInterpolation { parts: Vec<StringPart> },
    Path(PathType),
    Boolean(bool),
    Null,
    Identifier(String),
    List(Vec<Expression>),
    AttributeSet { recursive: bool, attributes: Vec<Attribute> },
    Function { parameter: Parameter, body: Box<Expression> },
    Application { function: Box<Expression>, argument: Box<Expression> },
    LetIn { bindings: Vec<Binding>, body: Box<Expression> },
    With { scope: Box<Expression>, body: Box<Expression> },
    If { condition: Box<Expression>, then_branch: Box<Expression>, else_branch: Box<Expression> },
    Assert { condition: Box<Expression>, body: Box<Expression> },
    BinaryOp { op: BinaryOperator, left: Box<Expression>, right: Box<Expression> },
    UnaryOp { op: UnaryOperator, operand: Box<Expression> },
    Select { expr: Box<Expression>, path: Vec<String>, default: Option<Box<Expression>> },
    HasAttr { expr: Box<Expression>, path: Vec<String> },
    Import { path: Box<Expression> },
    Inherit { source: Option<Box<Expression>>, attributes: Vec<String> },
}

/// The mathematical value of a `PathType`.
#[verifier::ext_equal]
pub enum PathModel {
    Absolute(Seq<char>),
    Relative(Seq<char>),
    Home(Seq<char>),
    Search(Seq<char>),
}

/// The mathematical value of a `StringPart`.
#[verifier::ext_equal]
pub enum StringPartModel {
    Literal(Seq<char>),
    Interpolation(Box<ExprModel>),
}

/// The mathematical value of a `Parameter`.
#[verifier::ext_equal]
pub enum ParameterModel {
    Identifier(Seq<char>),
    Pattern { fields: Seq<PatternFieldModel>, ellipsis: bool, bind: Option<Seq<char>> },
}

/// The mathematical value of a `PatternField`.
#[verifier::ext_equal]
pub struct PatternFieldModel {
    pub name: Seq<char>,
    pub default: Option<ExprModel>,
}

/// The mathematical value of an `Attribute`.
#[verifier::ext_equal]
pub struct AttributeModel {
    pub path: Seq<Seq<char>>,
    pub value: ExprModel,
}

/// The mathematical value of a `Binding`.
#[verifier::ext_equal]
pub struct BindingModel {
    pub name: Seq<char>,
    pub value: ExprModel,
    pub inherit: bool,
    pub from: Option<ExprModel>,
}

/// The mathematical value of an `Expression`.
#[verifier::ext_equal]
pub enum ExprModel {
    Integer(i64),
    Float(Seq<char>),
    String(Seq<char>),
    StringInterpolation { parts: Seq<StringPartModel> },
    Path(PathModel),
    Boolean(bool),
    Null,
    Identifier(Seq<char>),
    List(Seq<ExprModel>),
    AttributeSet { recursive: bool, attributes: Seq<AttributeModel> },
    Function { parameter: ParameterModel, body: Box<ExprModel> },
    Application { function: Box<ExprModel>, argument: Box<ExprModel> },
    LetIn { bindings: Seq<BindingModel>, body: Box<ExprModel> },
    With { scope: Box<ExprModel>, body: Box<ExprModel> },
    If { condition: Box<ExprModel>, then_branch: Box<ExprModel>, else_branch: Box<ExprModel> },
    Assert { condition: Box<ExprModel>, body: Box<ExprModel> },
    BinaryOp { op: BinaryOperator, left: Box<ExprModel>, right: Box<ExprModel> },
    UnaryOp { op: UnaryOperator, operand: Box<ExprModel> },
    Select { expr: Box<ExprModel>, path: Seq<Seq<char>>, default: Option<Box<ExprModel>> },
    HasAttr { expr: Box<ExprModel>, path: Seq<Seq<char>> },
    Import { path: Box<ExprModel> },
    Inherit { source: Option<Box<ExprModel>>, attributes: Seq<Seq<char>> },
}

/// The views of a vector of strings.
pub open spec fn strings_view(v: Vec<String>) -> Seq<Seq<char>> {
    Seq::new(v.len() as nat, |i: int| v[i]@)
}

impl PathType {
    pub open spec fn model(&self) -> PathModel {
        match self {
            PathType::Absolute(s) => PathModel::Absolute(s@),
            PathType::Relative(s) => PathModel::Relative(s@),
            PathType::Home(s) => PathModel::Home(s@),
            PathType::Search(s) => PathModel::Search(s@),
        }
    }
}

impl View for PathType {
    type V = PathModel;

    open spec fn view(&self) -> PathModel {
        self.model()
    }
}

impl Expression {
    /// The mathematical value of this expression tree.
    pub open spec fn model(&self) -> ExprModel
        decreases *self,
    {
        match self {
            Expression::Integer(i) => ExprModel::Integer(*i),
            Expression::Float(s) => ExprModel::Float(s@),
            Expression::String(s) => ExprModel::String(s@),
            Expression::StringInterpolation { parts } => ExprModel::StringInterpolation {
                parts: Seq::new(
                    parts.len() as nat,
                    |i: int|
                        if 0 <= i < parts.len() {
                            parts[i].model()
                        } else {
                            arbitrary()
                        },
                ),
            },
            Expression::Path(p) => ExprModel::Path(p.model()),
            Expression::Boolean(b) => ExprModel::Boolean(*b),
            Expression::Null => ExprModel::Null,
            Expression::Identifier(s) => ExprModel::Identifier(s@),
            Expression::List(items) => ExprModel::List(
                Seq::new(
                    items.len() as nat,
                    |i: int|
                        if 0 <= i < items.len() {
                            items[i].model()
                        } else {
                            arbitrary()
                        },
                ),
            ),
            Expression::AttributeSet { recursive, attributes } => ExprModel::AttributeSet {
                recursive: *recursive,
                attributes: Seq::new(
                    attributes.len() as nat,
                    |i: int|
                        if 0 <= i < attributes.len() {
                            attributes[i].model()
                        } else {
                            arbitrary()
                        },
                ),
            },
            Expression::Function { parameter, body } => ExprModel::Function {
                parameter: parameter.model(),
                body: Box::new(body.model()),
            },
            Expression::Application { function, argument } => ExprModel::Application {
                function: Box::new(function.model()),
                argument: Box::new(argument.model()),
            },
            Expression::LetIn { bindings, body } => ExprModel::LetIn {
                bindings: Seq::new(
                    bindings.len() as nat,
                    |i: int|
                        if 0 <= i < bindings.len() {
                            bindings[i].model()
                        } else {
                            arbitrary()
                        },
                ),
                body: Box::new(body.model()),
            },
            Expression::With { scope, body } => ExprModel::With {
                scope: Box::new(scope.model()),
                body: Box::new(body.model()),
            },
            Expression::If { condition, then_branch, else_branch } => ExprModel::If {
                condition: Box::new(condition.model()),
                then_branch: Box::new(then_branch.model()),
                else_branch: Box::new(else_branch.model()),
            },
            Expression::Assert { condition, body } => ExprModel::Assert {
                condition: Box::new(condition.model()),
                body: Box::new(body.model()),
            },
            Expression::BinaryOp { op, left, right } => ExprModel::BinaryOp {
                op: *op,
                left: Box::new(left.model()),
                right: Box::new(right.model()),
            },
            Expression::UnaryOp { op, operand } => ExprModel::UnaryOp {
                op: *op,
                operand: Box::new(operand.model()),
            },
            Expression::Select { expr, path, default } => ExprModel::Select {
                expr: Box::new(expr.model()),
                path: strings_view(*path),
                default: match default {
                    Some(d) => Some(Box::new(d.model())),
                    None => None,
                },
            },
            Expression::HasAttr { expr, path } => ExprModel::HasAttr {
                expr: Box::new(expr.model()),
                path: strings_view(*path),
            },
            Expression::Import { path } => ExprModel::Import { path: Box::new(path.model()) },
            Expression::Inherit { source, attributes } => ExprModel::Inherit {
                source: match source {
                    Some(s) => Some(Box::new(s.model())),
                    None => None,
                },
                attributes: strings_view(*attributes),
            },
        }
    }
}

impl View for Expression {
    type V = ExprModel;

    open spec fn view(&self) -> ExprModel {
        self.model()
    }
}

impl StringPart {
    pub open spec fn model(&self) -> StringPartModel
        decreases *self,
    {
        match self {
            StringPart::Literal(s) => StringPartModel::Literal(s@),
            StringPart::Interpolation(e) => StringPartModel::Interpolation(Box::new(e.model())),
        }
    }
}

impl View for StringPart {
    type V = StringPartModel;

    open spec fn view(&self) -> StringPartModel {
        self.model()
    }
}

impl Parameter {
    pub open spec fn model(&self) -> ParameterModel
        decreases *self,
    {
        match self {
            Parameter::Identifier(s) => ParameterModel::Identifier(s@),
            Parameter::Pattern { fields, ellipsis, bind } => ParameterModel::Pattern {
                fields: Seq::new(
                    fields.len() as nat,
                    |i: int|
                        if 0 <= i < fields.len() {
                            fields[i].model()
                        } else {
                            arbitrary()
                        },
                ),
                ellipsis: *ellipsis,
                bind: match bind {
                    Some(b) => Some(b@),
                    None => None,
                },
            },
        }
    }
}

impl View for Parameter {
    type V = ParameterModel;

    open spec fn view(&self) -> ParameterModel {
        self.model()
    }
}

impl PatternField {
    pub open spec fn model(&self) -> PatternFieldModel
        decreases *self,
    {
        PatternFieldModel {
            name: self.name@,
            default: match &self.default {
                Some(d) => Some(d.model()),
                None => None,
            },
        }
    }
}

impl View for PatternField {
    type V = PatternFieldModel;

    open spec fn view(&self) -> PatternFieldModel {
        self.model()
    }
}

impl Attribute {
    pub open spec fn model(&self) -> AttributeModel
        decreases *self,
    {
        AttributeModel { path: strings_view(self.path), value: self.value.model() }
    }
}

impl View for Attribute {
    type V = AttributeModel;

    open spec fn view(&self) -> AttributeModel {
        self.model()
    }
}

impl Binding {
    pub open spec fn model(&self) -> BindingModel
        decreases *self,
    {
        BindingModel {
            name: self.name@,
            value: self.value.model(),
            inherit: self.inherit,
            from: match &self.from {
                Some(f) => Some(f.model()),
                None => None,
            },
        }
    }
}

impl View for Binding {
    type V = BindingModel;

    open spec fn view(&self) -> BindingModel {
        self.model()
    }
}

/// The views of a vector of expressions.
pub open spec fn exprs_view(v: Vec<Expression>) -> Seq<ExprModel> {
    Seq::new(
        v.len() as nat,
        |i: int|
            if 0 <= i < v.len() {
                v[i]@
            } else {
                arbitrary()
            },
    )
}

/// Clones a vector of strings.
fn clone_strings(v: &Vec<String>) -> (r: Vec<String>)
    ensures
        strings_view(r) == strings_view(*v),
{
    let mut out: Vec<String> = Vec::new();
    let mut i: usize = 0;
    while i < v.len()
        invariant
            0 <= i <= v.len(),
            out@.len() == i,
            forall|j: int| 0 <= j < i ==> out@[j]@ == v@[j]@,
        decreases v.len() - i,
    {
        out.push(v[i].clone());
        i = i + 1;
    }
    proof {
        assert(strings_view(out) =~= strings_view(*v));
    }
    out
}

/// Clones a vector of expressions.
fn clone_exprs(v: &Vec<Expression>) -> (r: Vec<Expression>)
    ensures
        r@.len() == v@.len(),
        forall|j: int| 0 <= j < v@.len() ==> #[trigger] r@[j]@ == v@[j]@,
    decreases *v,
{
    let mut out: Vec<Expression> = Vec::new();
    let mut i: usize = 0;
    while i < v.len()
        invariant
            0 <= i <= v.len(),
            out@.len() == i,
            forall|j: int| 0 <= j < i ==> #[trigger] out@[j]@ == v@[j]@,
        decreases v.len() - i,
    {
        out.push(v[i].clone());
        i = i + 1;
    }
    out
}

/// Clones a vector of string parts.
fn clone_parts(v: &Vec<StringPart>) -> (r: Vec<StringPart>)
    ensures
        r@.len() == v@.len(),
        forall|j: int| 0 <= j < v@.len() ==> #[trigger] r@[j]@ == v@[j]@,
    decreases *v,
{
    let mut out: Vec<StringPart> = Vec::new();
    let mut i: usize = 0;
    while i < v.len()
        invariant
            0 <= i <= v.len(),
            out@.len() == i,
            forall|j: int| 0 <= j < i ==> #[trigger] out@[j]@ == v@[j]@,
        decreases v.len() - i,
    {
        out.push(v[i].clone());
        i = i + 1;
    }
    out
}

/// Clones a vector of attributes.
fn clone_attrs(v: &Vec<Attribute>) -> (r: Vec<Attribute>)
    ensures
        r@.len() == v@.len(),
        forall|j: int| 0 <= j < v@.len() ==> #[trigger] r@[j]@ == v@[j]@,
    decreases *v,
{
    let mut out: Vec<Attribute> = Vec::new();
    let mut i: usize = 0;
    while i < v.len()
        invariant
            0 <= i <= v.len(),
            out@.len() == i,
            forall|j: int| 0 <= j < i ==> #[trigger] out@[j]@ == v@[j]@,
        decreases v.len() - i,
    {
        out.push(v[i].clone());
        i = i + 1;
    }
    out
}

/// Clones a vector of bindings.
fn clone_bindings(v: &Vec<Binding>) -> (r: Vec<Binding>)
    ensures
        r@.len() == v@.len(),
        forall|j: int| 0 <= j < v@.len() ==> #[trigger] r@[j]@ == v@[j]@,
    decreases *v,
{
    let mut out: Vec<Binding> = Vec::new();
    let mut i: usize = 0;
    while i < v.len()
        invariant
            0 <= i <= v.len(),
            out@.len() == i,
            forall|j: int| 0 <= j < i ==> #[trigger] out@[j]@ == v@[j]@,
        decreases v.len() - i,
    {
        out.push(v[i].clone());
        i = i + 1;
    }
    out
}

/// Clones a vector of pattern fields.
fn clone_fields(v: &Vec<PatternField>) -> (r: Vec<PatternField>)
    ensures
        r@.len() == v@.len(),
        forall|j: int| 0 <= j < v@.len() ==> #[trigger] r@[j]@ == v@[j]@,
    decreases *v,
{
    let mut out: Vec<PatternField> = Vec::new();
    let mut i: usize = 0;
    while i < v.len()
        invariant
            0 <= i <= v.len(),
            out@.len() == i,
            forall|j: int| 0 <= j < i ==> #[trigger] out@[j]@ == v@[j]@,
        decreases v.len() - i,
    {
        out.push(v[i].clone());
        i = i + 1;
    }
    out
}

impl Clone for PathType {
    /// Clones the path, keeping its mathematical value.
    fn clone(&self) -> (res: Self)
        ensures
            res@ == self@,
    {
        match self {
            PathType::Absolute(s) => PathType::Absolute(s.clone()),
            PathType::Relative(s) => PathType::Relative(s.clone()),
            PathType::Home(s) => PathType::Home(s.clone()),
            PathType::Search(s) => PathType::Search(s.clone()),
        }
    }
}

impl Clone for StringPart {
    /// Clones the part, keeping its mathematical value.
    fn clone(&self) -> (res: Self)
        ensures
            res@ == self@,
        decreases *self,
    {
        match self {
            StringPart::Literal(s) => StringPart::Literal(s.clone()),
            StringPart::Interpolation(e) => StringPart::Interpolation(
                Box::new((&**e).clone()),
            ),
        }
    }
}

impl Clone for InterpolationPart {
    /// Clones the part, keeping its parts' mathematical values.
    fn clone(&self) -> (res: Self)
        decreases *self,
    {
        match self {
            InterpolationPart::String(s) => InterpolationPart::String(s.clone()),
            InterpolationPart::Expression(e) => InterpolationPart::Expression(
                Box::new((&**e).clone()),
            ),
        }
    }
}

impl Clone for PatternField {
    /// Clones the field, keeping its mathematical value.
    fn clone(&self) -> (res: Self)
        ensures
            res@ == self@,
        decreases *self,
    {
        PatternField {
            name: self.name.clone(),
            default: match &self.default {
                Some(d) => Some(d.clone()),
                None => None,
            },
        }
    }
}

impl Clone for Parameter {
    /// Clones the parameter, keeping its mathematical value.
    fn clone(&self) -> (res: Self)
        ensures
            res@ == self@,
        decreases *self,
    {
        match self {
            Parameter::Identifier(s) => Parameter::Identifier(s.clone()),
            Parameter::Pattern { fields, ellipsis, bind } => {
                let fields2 = clone_fields(fields);
                let r = Parameter::Pattern {
                    fields: fields2,
                    ellipsis: *ellipsis,
                    bind: match bind {
                        Some(b) => Some(b.clone()),
                        None => None,
                    },
                };
                proof {
                    match (r.model(), self.model()) {
                        (
                            ParameterModel::Pattern { fields: f2, ellipsis: e2, bind: b2 },
                            ParameterModel::Pattern { fields: f1, ellipsis: e1, bind: b1 },
                        ) => {
                            assert forall|i: int| 0 <= i < f2.len() implies f2[i] == f1[i] by {
                                assert(fields2@[i]@ == fields@[i]@);
                                assert(f2[i] == fields2@[i].model());
                                assert(f1[i] == fields@[i].model());
                            }
                            assert(f2 =~= f1);
                        },
                        _ => {
                            assert(false);
                        },
                    }
                    assert(r@ =~~= self@);
                }
                r
            },
        }
    }
}

impl Clone for Attribute {
    /// Clones the attribute, keeping its mathematical value.
    fn clone(&self) -> (res: Self)
        ensures
            res@ == self@,
        decreases *self,
    {
        let r = Attribute { path: clone_strings(&self.path), value: self.value.clone() };
        proof {
            assert(r@ =~~= self@);
        }
        r
    }
}

impl Clone for Binding {
    /// Clones the binding, keeping its mathematical value.
    fn clone(&self) -> (res: Self)
        ensures
            res@ == self@,
        decreases *self,
    {
        let r = Binding {
            name: self.name.clone(),
            value: self.value.clone(),
            inherit: self.inherit,
            from: match &self.from {
                Some(f) => Some(f.clone()),
                None => None,
            },
        };
        proof {
            assert(r@ =~~= self@);
        }
        r
    }
}

impl Clone for Expression {
    /// Clones the expression tree, keeping its mathematical value.
    fn clone(&self) -> (res: Self)
        ensures
            res@ == self@,
        decreases *self,
    {
        match self {
            Expression::Integer(i) => Expression::Integer(*i),
            Expression::Float(s) => Expression::Float(s.clone()),
            Expression::String(s) => Expression::String(s.clone()),
            Expression::StringInterpolation { parts } => {
                let parts2 = clone_parts(parts);
                let r = Expression::StringInterpolation { parts: parts2 };
                proof {
                    match (r.model(), self.model()) {
                        (ExprModel::StringInterpolation { parts: f2 }, ExprModel::StringInterpolation { parts: f1 }) => {
                            assert forall|i: int| 0 <= i < f2.len() implies f2[i] == f1[i] by {
                                assert(parts2@[i]@ == parts@[i]@);
                                assert(f2[i] == parts2@[i].model());
                                assert(f1[i] == parts@[i].model());
                            }
                            assert(f2 =~= f1);
                        },
                        _ => {
                            assert(false);
                        },
                    }
                    assert(r@ =~~= self@);
                }
                r
            },
            Expression::Path(p) => Expression::Path(p.clone()),
            Expression::Boolean(b) => Expression::Boolean(*b),
            Expression::Null => Expression::Null,
            Expression::Identifier(s) => Expression::Identifier(s.clone()),
            Expression::List(items) => {
                let items2 = clone_exprs(items);
                let r = Expression::List(items2);
                proof {
                    match (r.model(), self.model()) {
                        (ExprModel::List(f2), ExprModel::List(f1)) => {
                            assert forall|i: int| 0 <= i < f2.len() implies f2[i] == f1[i] by {
                                assert(items2@[i]@ == items@[i]@);
                                assert(f2[i] == items2@[i].model());
                                assert(f1[i] == items@[i].model());
                            }
                            assert(f2 =~= f1);
                        },
                        _ => {
                            assert(false);
                        },
                    }
                    assert(r@ =~~= self@);
                }
                r
            },
            Expression::AttributeSet { recursive, attributes } => {
                let attributes2 = clone_attrs(attributes);
                let r = Expression::AttributeSet { recursive: *recursive, attributes: attributes2 };
                proof {
                    match (r.model(), self.model()) {
                        (ExprModel::AttributeSet { recursive: _, attributes: f2 }, ExprModel::AttributeSet { recursive: _, attributes: f1 }) => {
                            assert forall|i: int| 0 <= i < f2.len() implies f2[i] == f1[i] by {
                                assert(attributes2@[i]@ == attributes@[i]@);
                                assert(f2[i] == attributes2@[i].model());
                                assert(f1[i] == attributes@[i].model());
                            }
                            assert(f2 =~= f1);
                        },
                        _ => {
                            assert(false);
                        },
                    }
                    assert(r@ =~~= self@);
                }
                r
            },
            Expression::Function { parameter, body } => Expression::Function {
                parameter: parameter.clone(),
                body: Box::new((&**body).clone()),
            },
            Expression::Application { function, argument } => Expression::Application {
                function: Box::new((&**function).clone()),
                argument: Box::new((&**argument).clone()),
            },
            Expression::LetIn { bindings, body } => {
                let bindings2 = clone_bindings(bindings);
                let r = Expression::LetIn { bindings: bindings2, body: Box::new((&**body).clone()) };
                proof {
                    match (r.model(), self.model()) {
                        (ExprModel::LetIn { bindings: f2, body: _ }, ExprModel::LetIn { bindings: f1, body: _ }) => {
                            assert forall|i: int| 0 <= i < f2.len() implies f2[i] == f1[i] by {
                                assert(bindings2@[i]@ == bindings@[i]@);
                                assert(f2[i] == bindings2@[i].model());
                                assert(f1[i] == bindings@[i].model());
                            }
                            assert(f2 =~= f1);
                        },
                        _ => {
                            assert(false);
                        },
                    }
                    assert(r@ =~~= self@);
                }
                r
            },
            Expression::With { scope, body } => Expression::With {
                scope: Box::new((&**scope).clone()),
                body: Box::new((&**body).clone()),
            },
            Expression::If { condition, then_branch, else_branch } => Expression::If {
                condition: Box::new((&**condition).clone()),
                then_branch: Box::new((&**then_branch).clone()),
                else_branch: Box::new((&**else_branch).clone()),
            },
            Expression::Assert { condition, body } => Expression::Assert {
                condition: Box::new((&**condition).clone()),
                body: Box::new((&**body).clone()),
            },
            Expression::BinaryOp { op, left, right } => Expression::BinaryOp {
                op: *op,
                left: Box::new((&**left).clone()),
                right: Box::new((&**right).clone()),
            },
            Expression::UnaryOp { op, operand } => Expression::UnaryOp {
                op: *op,
                operand: Box::new((&**operand).clone()),
            },
            Expression::Select { expr, path, default } => {
                let r = Expression::Select {
                    expr: Box::new((&**expr).clone()),
                    path: clone_strings(path),
                    default: match default {
                        Some(d) => Some(Box::new((&**d).clone())),
                        None => None,
                    },
                };
                proof {
                    assert(r@ =~~= self@);
                }
                r
            },
            Expression::HasAttr { expr, path } => {
                let r = Expression::HasAttr {
                    expr: Box::new((&**expr).clone()),
                    path: clone_strings(path),
                };
                proof {
                    assert(r@ =~~= self@);
                }
                r
            },
            Expression::Import { path } => Expression::Import {
                path: Box::new((&**path).clone()),
            },
            Expression::Inherit { source, attributes } => {
                let r = Expression::Inherit {
                    source: match source {
                        Some(s) => Some(Box::new((&**s).clone())),
                        None => None,
                    },
                    attributes: clone_strings(attributes),
                };
                proof {
                    assert(r@ =~~= self@);
                }
                r
            },
        }
    }
}

/// The views of a vector of string parts.
pub open spec fn parts_view(v: Vec<StringPart>) -> Seq<StringPartModel> {
    Seq::new(
        v.len() as nat,
        |i: int|
            if 0 <= i < v.len() {
                v[i]@
            } else {
                arbitrary()
            },
    )
}

/// The views of a vector of attributes.
pub open spec fn attrs_view(v: Vec<Attribute>) -> Seq<AttributeModel> {
    Seq::new(
        v.len() as nat,
        |i: int|
            if 0 <= i < v.len() {
                v[i]@
            } else {
                arbitrary()
            },
    )
}

/// The views of a vector of bindings.
pub open spec fn bindings_view(v: Vec<Binding>) -> Seq<BindingModel> {
    Seq::new(
        v.len() as nat,
        |i: int|
            if 0 <= i < v.len() {
                v[i]@
            } else {
                arbitrary()
            },
    )
}

/// The views of a vector of pattern fields.
pub open spec fn fields_view(v: Vec<PatternField>) -> Seq<PatternFieldModel> {
    Seq::new(
        v.len() as nat,
        |i: int|
            if 0 <= i < v.len() {
                v[i]@
            } else {
                arbitrary()
            },
    )
}

/// The model of a list expression built from a vector.
pub proof fn lemma_list_model(items: Vec<Expression>)
    ensures
        (Expression::List(items))@ == ExprModel::List(exprs_view(items)),
{
    let e = Expression::List(items);
    match e.model() {
        ExprModel::List(s) => {
            assert forall|k: int| 0 <= k < s.len() implies s[k] == exprs_view(items)[k] by {
                assert(s[k] == items[k].model());
                assert(exprs_view(items)[k] == items[k]@);
            }
            assert(s =~= exprs_view(items));
        },
        _ => {
            assert(false);
        },
    }
}

/// The model of an interpolated string built from a vector of parts.
pub proof fn lemma_interp_model(parts: Vec<StringPart>)
    ensures
        (Expression::StringInterpolation { parts })@ == (ExprModel::StringInterpolation {
            parts: parts_view(parts),
        }),
{
    let e = Expression::StringInterpolation { parts };
    match e.model() {
        ExprModel::StringInterpolation { parts: s } => {
            assert forall|k: int| 0 <= k < s.len() implies s[k] == parts_view(parts)[k] by {
                assert(s[k] == parts[k].model());
                assert(parts_view(parts)[k] == parts[k]@);
            }
            assert(s =~= parts_view(parts));
        },
        _ => {
            assert(false);
        },
    }
}

/// The model of an attribute set built from a vector of attributes.
pub proof fn lemma_attrset_model(recursive: bool, attributes: Vec<Attribute>)
    ensures
        (Expression::AttributeSet { recursive, attributes })@ == (ExprModel::AttributeSet {
            recursive,
            attributes: attrs_view(attributes),
        }),
{
    let e = Expression::AttributeSet { recursive, attributes };
    match e.model() {
        ExprModel::AttributeSet { recursive: _, attributes: s } => {
            assert forall|k: int| 0 <= k < s.len() implies s[k] == attrs_view(attributes)[k] by {
                assert(s[k] == attributes[k].model());
                assert(attrs_view(attributes)[k] == attributes[k]@);
            }
            assert(s =~= attrs_view(attributes));
        },
        _ => {
            assert(false);
        },
    }
}

/// The model of a let expression built from a vector of bindings.
pub proof fn lemma_letin_model(bindings: Vec<Binding>, body: Box<Expression>)
    ensures
        (Expression::LetIn { bindings, body })@ == (ExprModel::LetIn {
            bindings: bindings_view(bindings),
            body: Box::new(body@),
        }),
{
    let e = Expression::LetIn { bindings, body };
    match e.model() {
        ExprModel::LetIn { bindings: s, body: _ } => {
            assert forall|k: int| 0 <= k < s.len() implies s[k] == bindings_view(bindings)[k] by {
                assert(s[k] == bindings[k].model());
                assert(bindings_view(bindings)[k] == bindings[k]@);
            }
            assert(s =~= bindings_view(bindings));
            assert(e.model() =~= (ExprModel::LetIn {
                bindings: bindings_view(bindings),
                body: Box::new(body@),
            }));
        },
        _ => {
            assert(false);
        },
    }
}

/// The model of a destructuring parameter built from a vector of fields.
pub proof fn lemma_pattern_param_model(fields: Vec<PatternField>, ellipsis: bool, bind: Option<
    String,
>)
    ensures
        (Parameter::Pattern { fields, ellipsis, bind })@ == (ParameterModel::Pattern {
            fields: fields_view(fields),
            ellipsis,
            bind: match bind {
                Some(b) => Some(b@),
                None => None,
            },
        }),
{
    let p = Parameter::Pattern { fields, ellipsis, bind };
    match p.model() {
        ParameterModel::Pattern { fields: s, ellipsis: _, bind: _ } => {
            assert forall|k: int| 0 <= k < s.len() implies s[k] == fields_view(fields)[k] by {
                assert(s[k] == fields[k].model());
                assert(fields_view(fields)[k] == fields[k]@);
            }
            assert(s =~= fields_view(fields));
            assert(p.model() =~= (ParameterModel::Pattern {
                fields: fields_view(fields),
                ellipsis,
                bind: match bind {
                    Some(b) => Some(b@),
                    None => None,
                },
            }));
        },
        _ => {
            assert(false);
        },
    }
}

impl Expression {
    /// The direct sub-expressions a shallow walk exposes: bodies and
    /// operands, but not attribute values, list elements or defaults.
    pub fn children(&self) -> (r: Vec<&Expression>)
        ensures
            r@.len() == (match self {
                Expression::Function { .. } => 1int,
                Expression::Application { .. } => 2int,
                Expression::LetIn { .. } => 1int,
                Expression::With { .. } => 2int,
                Expression::If { .. } => 3int,
                Expression::Assert { .. } => 2int,
                Expression::BinaryOp { .. } => 2int,
                Expression::UnaryOp { .. } => 1int,
                Expression::Select { .. } => 1int,
                Expression::HasAttr { .. } => 1int,
                _ => 0int,
            }),
    {
        let mut v: Vec<&Expression> = Vec::new();
        match self {
            Expression::Function { parameter: _, body } => {
                v.push(body);
            },
            Expression::Application { function, argument } => {
                v.push(function);
                v.push(argument);
            },
            Expression::LetIn { bindings: _, body } => {
                v.push(body);
            },
            Expression::With { scope, body } => {
                v.push(scope);
                v.push(body);
            },
            Expression::If { condition, then_branch, else_branch } => {
                v.push(condition);
                v.push(then_branch);
                v.push(else_branch);
            },
            Expression::Assert { condition, body } => {
                v.push(condition);
                v.push(body);
            },
            Expression::BinaryOp { op: _, left, right } => {
                v.push(left);
                v.push(right);
            },
            Expression::UnaryOp { op: _, operand } => {
                v.push(operand);
            },
            Expression::Select { expr, path: _, default: _ } => {
                v.push(expr);
            },
            Expression::HasAttr { expr, path: _ } => {
                v.push(expr);
            },
            _ => {},
        }
        v
    }
}

/// Two expression vectors have equal view sequences exactly when they
/// have the same length and equal element values.
pub proof fn lemma_exprs_view_eq(x: Vec<Expression>, y: Vec<Expression>)
    ensures
        (exprs_view(x) == exprs_view(y)) == (x@.len() == y@.len() && (forall|j: int|
            0 <= j < x@.len() ==> #[trigger] x@[j]@ == y@[j]@)),
{
    if x@.len() == y@.len() && (forall|j: int| 0 <= j < x@.len() ==> #[trigger] x@[j]@ == y@[j]@) {
        assert forall|j: int| 0 <= j < exprs_view(x).len() implies #[trigger] exprs_view(x)[j]
            == exprs_view(y)[j] by {
            assert(x@[j]@ == y@[j]@);
        }
        assert(exprs_view(x) =~= exprs_view(y));
    }
    if exprs_view(x) == exprs_view(y) {
        assert(exprs_view(x).len() == x@.len());
        assert(exprs_view(y).len() == y@.len());
        assert(x@.len() == y@.len());
        assert forall|j: int| 0 <= j < x@.len() implies #[trigger] x@[j]@ == y@[j]@ by {
            assert(exprs_view(x)[j] == exprs_view(y)[j]);
        }
    }
}

/// As `lemma_exprs_view_eq`, for string parts.
pub proof fn lemma_parts_view_eq(x: Vec<StringPart>, y: Vec<StringPart>)
    ensures
        (parts_view(x) == parts_view(y)) == (x@.len() == y@.len() && (forall|j: int|
            0 <= j < x@.len() ==> #[trigger] x@[j]@ == y@[j]@)),
{
    if x@.len() == y@.len() && (forall|j: int| 0 <= j < x@.len() ==> #[trigger] x@[j]@ == y@[j]@) {
        assert forall|j: int| 0 <= j < parts_view(x).len() implies #[trigger] parts_view(x)[j]
            == parts_view(y)[j] by {
            assert(x@[j]@ == y@[j]@);
        }
        assert(parts_view(x) =~= parts_view(y));
    }
    if parts_view(x) == parts_view(y) {
        assert(parts_view(x).len() == x@.len());
        assert(parts_view(y).len() == y@.len());
        assert(x@.len() == y@.len());
        assert forall|j: int| 0 <= j < x@.len() implies #[trigger] x@[j]@ == y@[j]@ by {
            assert(parts_view(x)[j] == parts_view(y)[j]);
        }
    }
}

/// As `lemma_exprs_view_eq`, for attributes.
pub proof fn lemma_attrs_view_eq(x: Vec<Attribute>, y: Vec<Attribute>)
    ensures
        (attrs_view(x) == attrs_view(y)) == (x@.len() == y@.len() && (forall|j: int|
            0 <= j < x@.len() ==> #[trigger] x@[j]@ == y@[j]@)),
{
    if x@.len() == y@.len() && (forall|j: int| 0 <= j < x@.len() ==> #[trigger] x@[j]@ == y@[j]@) {
        assert forall|j: int| 0 <= j < attrs_view(x).len() implies #[trigger] attrs_view(x)[j]
            == attrs_view(y)[j] by {
            assert(x@[j]@ == y@[j]@);
        }
        assert(attrs_view(x) =~= attrs_view(y));
    }
    if attrs_view(x) == attrs_view(y) {
        assert(attrs_view(x).len() == x@.len());
        assert(attrs_view(y).len() == y@.len());
        assert(x@.len() == y@.len());
        assert forall|j: int| 0 <= j < x@.len() implies #[trigger] x@[j]@ == y@[j]@ by {
            assert(attrs_view(x)[j] == attrs_view(y)[j]);
        }
    }
}

/// As `lemma_exprs_view_eq`, for bindings.
pub proof fn lemma_bindings_view_eq(x: Vec<Binding>, y: Vec<Binding>)
    ensures
        (bindings_view(x) == bindings_view(y)) == (x@.len() == y@.len() && (forall|j: int|
            0 <= j < x@.len() ==> #[trigger] x@[j]@ == y@[j]@)),
{
    if x@.len() == y@.len() && (forall|j: int| 0 <= j < x@.len() ==> #[trigger] x@[j]@ == y@[j]@) {
        assert forall|j: int| 0 <= j < bindings_view(x).len() implies #[trigger] bindings_view(
            x,
        )[j] == bindings_view(y)[j] by {
            assert(x@[j]@ == y@[j]@);
        }
        assert(bindings_view(x) =~= bindings_view(y));
    }
    if bindings_view(x) == bindings_view(y) {
        assert(bindings_view(x).len() == x@.len());
        assert(bindings_view(y).len() == y@.len());
        assert(x@.len() == y@.len());
        assert forall|j: int| 0 <= j < x@.len() implies #[trigger] x@[j]@ == y@[j]@ by {
            assert(bindings_view(x)[j] == bindings_view(y)[j]);
        }
    }
}

/// As `lemma_exprs_view_eq`, for pattern fields.
pub proof fn lemma_fields_view_eq(x: Vec<PatternField>, y: Vec<PatternField>)
    ensures
        (fields_view(x) == fields_view(y)) == (x@.len() == y@.len() && (forall|j: int|
            0 <= j < x@.len() ==> #[trigger] x@[j]@ == y@[j]@)),
{
    if x@.len() == y@.len() && (forall|j: int| 0 <= j < x@.len() ==> #[trigger] x@[j]@ == y@[j]@) {
        assert forall|j: int| 0 <= j < fields_view(x).len() implies #[trigger] fields_view(x)[j]
            == fields_view(y)[j] by {
            assert(x@[j]@ == y@[j]@);
        }
        assert(fields_view(x) =~= fields_view(y));
    }
    if fields_view(x) == fields_view(y) {
        assert(fields_view(x).len() == x@.len());
        assert(fields_view(y).len() == y@.len());
        assert(x@.len() == y@.len());
        assert forall|j: int| 0 <= j < x@.len() implies #[trigger] x@[j]@ == y@[j]@ by {
            assert(fields_view(x)[j] == fields_view(y)[j]);
        }
    }
}

/// As `lemma_exprs_view_eq`, for strings.
pub proof fn lemma_strings_view_eq(x: Vec<String>, y: Vec<String>)
    ensures
        (strings_view(x) == strings_view(y)) == (x@.len() == y@.len() && (forall|j: int|
            0 <= j < x@.len() ==> #[trigger] x@[j]@ == y@[j]@)),
{
    if x@.len() == y@.len() && (forall|j: int| 0 <= j < x@.len() ==> #[trigger] x@[j]@ == y@[j]@) {
        assert forall|j: int| 0 <= j < strings_view(x).len() implies #[trigger] strings_view(x)[j]
            == strings_view(y)[j] by {
            assert(x@[j]@ == y@[j]@);
        }
        assert(strings_view(x) =~= strings_view(y));
    }
    if strings_view(x) == strings_view(y) {
        assert(strings_view(x).len() == x@.len());
        assert(strings_view(y).len() == y@.len());
        assert(x@.len() == y@.len());
        assert forall|j: int| 0 <= j < x@.len() implies #[trigger] x@[j]@ == y@[j]@ by {
            assert(strings_view(x)[j] == strings_view(y)[j]);
        }
    }
}

} // verus!
