//! Error types for parsing, validation and post-processing, with a
//! mathematical model for each value and exact rendered messages.

use vstd::prelude::*;

verus! {

use crate::strutil::dec_str;
use crate::strutil::u64_to_string;
use vstd::string::StringExecFns;

broadcast use vstd::std_specs::vec::axiom_vec_index_decreases, vstd::seq::axiom_seq_index_decreases;

/// Result type for parser operations.
pub type Result<T> = core::result::Result<T, ParseError>;

/// A position with one-based line and column, used in error context.
#[derive(Debug, Clone, Copy)]
pub struct Position {
    /// Line number, one-based.
    pub line: usize,
    /// Column number, one-based.
    pub column: usize,
}

/// A span between two positions in source text.
#[derive(Debug)]
pub struct ErrorSpan {
    /// The starting position of the span.
    pub start: Position,
    /// The ending position of the span.
    pub end: Position,
}

/// Extra information attached to an error for reporting.
#[derive(Debug)]
pub struct ErrorContext {
    /// The file path where the error occurred.
    pub file_path: Option<String>,
    /// A snippet of source code around the error location.
    pub source_snippet: Option<String>,
    /// Suggested fixes or improvements.
    pub suggestions: Vec<String>,
}

/// The mathematical value of an `ErrorContext`.
#[verifier::ext_equal]
pub struct ErrorContextModel {
    pub file_path: Option<Seq<char>>,
    pub source_snippet: Option<Seq<char>>,
    pub suggestions: Seq<Seq<char>>,
}

/// The mathematical value of an `ErrorSpan`.
#[verifier::ext_equal]
pub struct ErrorSpanModel {
    pub start_line: int,
    pub start_column: int,
    pub end_line: int,
    pub end_column: int,
}

impl ErrorContext {
    pub open spec fn model(&self) -> ErrorContextModel {
        ErrorContextModel {
            file_path: match &self.file_path {
                Some(p) => Some(p@),
                None => None,
            },
            source_snippet: match &self.source_snippet {
                Some(s) => Some(s@),
                None => None,
            },
            suggestions: crate::ast::strings_view(self.suggestions),
        }
    }
}

impl View for ErrorContext {
    type V = ErrorContextModel;

    open spec fn view(&self) -> ErrorContextModel {
        self.model()
    }
}

impl ErrorSpan {
    pub open spec fn model(&self) -> ErrorSpanModel {
        ErrorSpanModel {
            start_line: self.start.line as int,
            start_column: self.start.column as int,
            end_line: self.end.line as int,
            end_column: self.end.column as int,
        }
    }
}

impl View for ErrorSpan {
    type V = ErrorSpanModel;

    open spec fn view(&self) -> ErrorSpanModel {
        self.model()
    }
}

impl Clone for ErrorContext {
    /// Clones the context, keeping its mathematical value.
    fn clone(&self) -> (res: Self)
        ensures
            res@ == self@,
    {
        let mut suggestions: Vec<String> = Vec::new();
        let mut i: usize = 0;
        while i < self.suggestions.len()
            invariant
                0 <= i <= self.suggestions.len(),
                suggestions@.len() == i,
                forall|j: int| 0 <= j < i ==> suggestions@[j]@ == self.suggestions@[j]@,
            decreases self.suggestions.len() - i,
        {
            suggestions.push(self.suggestions[i].clone());
            i = i + 1;
        }
        let r = ErrorContext {
            file_path: match &self.file_path {
                Some(p) => Some(p.clone()),
                None => None,
            },
            source_snippet: match &self.source_snippet {
                Some(s) => Some(s.clone()),
                None => None,
            },
            suggestions,
        };
        proof {
            assert(crate::ast::strings_view(r.suggestions) =~= crate::ast::strings_view(
                self.suggestions,
            ));
            assert(r@ =~= self@);
        }
        r
    }
}

impl Clone for ErrorSpan {
    /// Clones the span, keeping its mathematical value.
    fn clone(&self) -> (res: Self)
        ensures
            res@ == self@,
    {
        ErrorSpan { start: self.start, end: self.end }
    }
}

/// The main error type for parsing operations.
#[derive(Debug)]
pub enum ParseError {
    /// Failure while loading or checking the grammar engine's language.
    LanguageError(String),
    /// General parsing failure.
    ParseFailed(String),
    /// Invalid or unexpected node structure.
    InvalidNode(String),
    /// Unknown or unsupported node kind.
    UnknownNodeType(String),
    /// Text that is not valid UTF-8.
    Utf8Error(String),
    /// Failure of an input or output operation.
    IoError(String),
    /// Failure inside a plugin.
    PluginError(String),
    /// Validation failure after parsing.
    ValidationError(String),
    /// A syntax error with location information.
    SyntaxError {
        /// Line number, one-based.
        line: usize,
        /// Column number, one-based.
        column: usize,
        /// The error message.
        message: String,
        /// Optional error context.
        context: Option<ErrorContext>,
    },
    /// Valid syntax with invalid meaning.
    SemanticError {
        /// The error message.
        message: String,
        /// Where the error occurred.
        span: Option<ErrorSpan>,
        /// Additional context.
        context: Option<ErrorContext>,
    },
    /// Parsing took longer than the configured bound.
    Timeout {
        /// The bound, in milliseconds.
        timeout_ms: u64,
    },
    /// A resource went past its configured bound.
    ResourceLimitExceeded {
        /// The resource's name.
        resource: String,
        /// The bound that was crossed.
        limit: String,
    },
    /// Several errors reported together.
    Multiple(Vec<ParseError>),
    /// A feature that the current configuration does not support.
    FeatureNotSupported {
        /// The feature's name.
        feature: String,
        /// How the feature could be enabled.
        suggestion: Option<String>,
    },
}

/// The mathematical value of a `ParseError`.
#[verifier::ext_equal]
pub enum ParseErrorModel {
    LanguageError(Seq<char>),
    ParseFailed(Seq<char>),
    InvalidNode(Seq<char>),
    UnknownNodeType(Seq<char>),
    Utf8Error(Seq<char>),
    IoError(Seq<char>),
    PluginError(Seq<char>),
    ValidationError(Seq<char>),
    SyntaxError {
        line: int,
        column: int,
        message: Seq<char>,
        context: Option<ErrorContextModel>,
    },
    SemanticError {
        message: Seq<char>,
        span: Option<ErrorSpanModel>,
        context: Option<ErrorContextModel>,
    },
    Timeout { timeout_ms: u64 },
    ResourceLimitExceeded { resource: Seq<char>, limit: Seq<char> },
    Multiple(Seq<ParseErrorModel>),
    FeatureNotSupported { feature: Seq<char>, suggestion: Option<Seq<char>> },
}

impl ParseError {
    /// The mathematical value of this error.
    pub open spec fn model(&self) -> ParseErrorModel
        decreases *self,
    {
        match self {
            ParseError::LanguageError(s) => ParseErrorModel::LanguageError(s@),
            ParseError::ParseFailed(s) => ParseErrorModel::ParseFailed(s@),
            ParseError::InvalidNode(s) => ParseErrorModel::InvalidNode(s@),
            ParseError::UnknownNodeType(s) => ParseErrorModel::UnknownNodeType(s@),
            ParseError::Utf8Error(s) => ParseErrorModel::Utf8Error(s@),
            ParseError::IoError(s) => ParseErrorModel::IoError(s@),
            ParseError::PluginError(s) => ParseErrorModel::PluginError(s@),
            ParseError::ValidationError(s) => ParseErrorModel::ValidationError(s@),
            ParseError::SyntaxError { line, column, message, context } => {
                ParseErrorModel::SyntaxError {
                    line: *line as int,
                    column: *column as int,
                    message: message@,
                    context: match context {
                        Some(c) => Some(c.model()),
                        None => None,
                    },
                }
            },
            ParseError::SemanticError { message, span, context } => {
                ParseErrorModel::SemanticError {
                    message: message@,
                    span: match span {
                        Some(s) => Some(s.model()),
                        None => None,
                    },
                    context: match context {
                        Some(c) => Some(c.model()),
                        None => None,
                    },
                }
            },
            ParseError::Timeout { timeout_ms } => ParseErrorModel::Timeout {
                timeout_ms: *timeout_ms,
            },
            ParseError::ResourceLimitExceeded { resource, limit } => {
                ParseErrorModel::ResourceLimitExceeded { resource: resource@, limit: limit@ }
            },
            ParseError::Multiple(errs) => ParseErrorModel::Multiple(
                Seq::new(
                    errs.len() as nat,
                    |i: int|
                        if 0 <= i < errs.len() {
                            errs[i].model()
                        } else {
                            arbitrary()
                        },
                ),
            ),
            ParseError::FeatureNotSupported { feature, suggestion } => {
                ParseErrorModel::FeatureNotSupported {
                    feature: feature@,
                    suggestion: match suggestion {
                        Some(s) => Some(s@),
                        None => None,
                    },
                }
            },
        }
    }
}

impl View for ParseError {
    type V = ParseErrorModel;

    open spec fn view(&self) -> ParseErrorModel {
        self.model()
    }
}

/// Clones a vector of errors.
fn clone_errors(v: &Vec<ParseError>) -> (r: Vec<ParseError>)
    ensures
        r@.len() == v@.len(),
        forall|j: int| 0 <= j < v@.len() ==> #[trigger] r@[j]@ == v@[j]@,
    decreases *v,
{
    let mut out: Vec<ParseError> = Vec::new();
    let mut i: usize = 0;
    while i < v.len()
        invariant
            0 <= i <= v.len(),
            out@.len() == i,
            forall|j: int| 0 <= j < i ==> #[trigger] out@[j]@ == v@[j]@,
        decreases v.len() - i,
    {
        out.push(v[i].clone());
        i = i + 1;
    }
    out
}

impl Clone for ParseError {
    /// Clones the error, keeping its mathematical value.
    fn clone(&self) -> (res: Self)
        ensures
            res@ == self@,
        decreases *self,
    {
        match self {
            ParseError::LanguageError(s) => ParseError::LanguageError(s.clone()),
            ParseError::ParseFailed(s) => ParseError::ParseFailed(s.clone()),
            ParseError::InvalidNode(s) => ParseError::InvalidNode(s.clone()),
            ParseError::UnknownNodeType(s) => ParseError::UnknownNodeType(s.clone()),
            ParseError::Utf8Error(s) => ParseError::Utf8Error(s.clone()),
            ParseError::IoError(s) => ParseError::IoError(s.clone()),
            ParseError::PluginError(s) => ParseError::PluginError(s.clone()),
            ParseError::ValidationError(s) => ParseError::ValidationError(s.clone()),
            ParseError::SyntaxError { line, column, message, context } => {
                ParseError::SyntaxError {
                    line: *line,
                    column: *column,
                    message: message.clone(),
                    context: match context {
                        Some(c) => Some(c.clone()),
                        None => None,
                    },
                }
            },
            ParseError::SemanticError { message, span, context } => {
                ParseError::SemanticError {
                    message: message.clone(),
                    span: match span {
                        Some(s) => Some(s.clone()),
                        None => None,
                    },
                    context: match context {
                        Some(c) => Some(c.clone()),
                        None => None,
                    },
                }
            },
            ParseError::Timeout { timeout_ms } => ParseError::Timeout { timeout_ms: *timeout_ms },
            ParseError::ResourceLimitExceeded { resource, limit } => {
                ParseError::ResourceLimitExceeded {
                    resource: resource.clone(),
                    limit: limit.clone(),
                }
            },
            ParseError::Multiple(errs) => {
                let errs2 = clone_errors(errs);
                let r = ParseError::Multiple(errs2);
                proof {
                    match (r.model(), self.model()) {
                        (ParseErrorModel::Multiple(f2), ParseErrorModel::Multiple(f1)) => {
                            assert forall|i: int| 0 <= i < f2.len() implies f2[i] == f1[i] by {
                                assert(errs2@[i]@ == errs@[i]@);
                                assert(f2[i] == errs2@[i].model());
                                assert(f1[i] == errs@[i].model());
                            }
                            assert(f2 =~= f1);
                        },
                        _ => {
                            assert(false);
                        },
                    }
                    assert(r@ =~~= self@);
                }
                r
            },
            ParseError::FeatureNotSupported { feature, suggestion } => {
                ParseError::FeatureNotSupported {
                    feature: feature.clone(),
                    suggestion: match suggestion {
                        Some(s) => Some(s.clone()),
                        None => None,
                    },
                }
            },
        }
    }
}

/// The rendered description of an error, as its display form gives it.
pub open spec fn rendered_message(m: ParseErrorModel) -> Seq<char> {
    match m {
        ParseErrorModel::LanguageError(s) => "Language setup error: "@ + s,
        ParseErrorModel::ParseFailed(s) => "Parse failed: "@ + s,
        ParseErrorModel::InvalidNode(s) => "Invalid node: "@ + s,
        ParseErrorModel::UnknownNodeType(s) => "Unknown node type: "@ + s,
        ParseErrorModel::Utf8Error(s) => "UTF-8 error: "@ + s,
        ParseErrorModel::IoError(s) => "IO error: "@ + s,
        ParseErrorModel::PluginError(s) => "Plugin error: "@ + s,
        ParseErrorModel::ValidationError(s) => "Validation error: "@ + s,
        ParseErrorModel::SyntaxError { line, column, message, .. } => "Syntax error at line "@
            + dec_str(line as nat) + ", column "@ + dec_str(column as nat) + ": "@ + message,
        ParseErrorModel::SemanticError { message, .. } => "Semantic error: "@ + message,
        ParseErrorModel::Timeout { timeout_ms } => "Parsing timed out after "@ + dec_str(
            timeout_ms as nat,
        ) + "ms"@,
        ParseErrorModel::ResourceLimitExceeded { resource, limit } => "Resource limit exceeded: "@
            + resource + " ("@ + limit + ")"@,
        ParseErrorModel::Multiple(_) => "Multiple errors occurred"@,
        ParseErrorModel::FeatureNotSupported { feature, .. } => "Feature not supported: "@
            + feature,
    }
}

/// Appends `rest` to a fresh copy of `prefix`.
fn concat2(prefix: &str, rest: &str) -> (r: String)
    ensures
        r@ == prefix@ + rest@,
{
    let mut out = String::new();
    out.append(prefix);
    out.append(rest);
    proof {
        assert(Seq::<char>::empty() + prefix@ + rest@ =~= prefix@ + rest@);
    }
    out
}

impl ParseError {
    /// Renders the error's message, as the display form would.
    pub fn message(&self) -> (r: String)
        ensures
            r@ == rendered_message(self@),
    {
        match self {
            ParseError::LanguageError(s) => concat2("Language setup error: ", s.as_str()),
            ParseError::ParseFailed(s) => concat2("Parse failed: ", s.as_str()),
            ParseError::InvalidNode(s) => concat2("Invalid node: ", s.as_str()),
            ParseError::UnknownNodeType(s) => concat2("Unknown node type: ", s.as_str()),
            ParseError::Utf8Error(s) => concat2("UTF-8 error: ", s.as_str()),
            ParseError::IoError(s) => concat2("IO error: ", s.as_str()),
            ParseError::PluginError(s) => concat2("Plugin error: ", s.as_str()),
            ParseError::ValidationError(s) => concat2("Validation error: ", s.as_str()),
            ParseError::SyntaxError { line, column, message, .. } => {
                let mut out = String::new();
                out.append("Syntax error at line ");
                let l = crate::strutil::usize_to_string(*line);
                out.append(l.as_str());
                out.append(", column ");
                let c = crate::strutil::usize_to_string(*column);
                out.append(c.as_str());
                out.append(": ");
                out.append(message.as_str());
                proof {
                    assert(out@ =~= rendered_message(self@));
                }
                out
            },
            ParseError::SemanticError { message, .. } => {
                concat2("Semantic error: ", message.as_str())
            },
            ParseError::Timeout { timeout_ms } => {
                let mut out = String::new();
                out.append("Parsing timed out after ");
                let t = u64_to_string(*timeout_ms);
                out.append(t.as_str());
                out.append("ms");
                proof {
                    assert(out@ =~= rendered_message(self@));
                }
                out
            },
            ParseError::ResourceLimitExceeded { resource, limit } => {
                let mut out = String::new();
                out.append("Resource limit exceeded: ");
                out.append(resource.as_str());
                out.append(" (");
                out.append(limit.as_str());
                out.append(")");
                proof {
                    assert(out@ =~= rendered_message(self@));
                }
                out
            },
            ParseError::Multiple(_) => {
                let mut out = String::new();
                out.append("Multiple errors occurred");
                proof {
                    assert(out@ =~= rendered_message(self@));
                }
                out
            },
            ParseError::FeatureNotSupported { feature, .. } => {
                concat2("Feature not supported: ", feature.as_str())
            },
        }
    }

    /// Builds a syntax error at the given place.
    pub fn syntax_error(line: usize, column: usize, message: String) -> (r: ParseError)
        ensures
            r@ == (ParseErrorModel::SyntaxError {
                line: line as int,
                column: column as int,
                message: message@,
                context: None,
            }),
    {
        ParseError::SyntaxError { line, column, message, context: None }
    }

    /// Builds a syntax error with extra context.
    pub fn syntax_error_with_context(
        line: usize,
        column: usize,
        message: String,
        context: ErrorContext,
    ) -> (r: ParseError)
        ensures
            r@ == (ParseErrorModel::SyntaxError {
                line: line as int,
                column: column as int,
                message: message@,
                context: Some(context@),
            }),
    {
        ParseError::SyntaxError { line, column, message, context: Some(context) }
    }

    /// Builds a semantic error without location.
    pub fn semantic_error(message: String) -> (r: ParseError)
        ensures
            r@ == (ParseErrorModel::SemanticError { message: message@, span: None, context: None }),
    {
        ParseError::SemanticError { message, span: None, context: None }
    }

    /// Builds a semantic error at the given span.
    pub fn semantic_error_at(message: String, span: ErrorSpan) -> (r: ParseError)
        ensures
            r@ == (ParseErrorModel::SemanticError {
                message: message@,
                span: Some(span@),
                context: None,
            }),
    {
        ParseError::SemanticError { message, span: Some(span), context: None }
    }

    /// Builds a timeout error.
    pub fn timeout(timeout_ms: u64) -> (r: ParseError)
        ensures
            r@ == (ParseErrorModel::Timeout { timeout_ms }),
    {
        ParseError::Timeout { timeout_ms }
    }

    /// Builds a resource-limit error.
    pub fn resource_limit(resource: String, limit: String) -> (r: ParseError)
        ensures
            r@ == (ParseErrorModel::ResourceLimitExceeded {
                resource: resource@,
                limit: limit@,
            }),
    {
        ParseError::ResourceLimitExceeded { resource, limit }
    }

    /// Builds a feature-not-supported error.
    pub fn feature_not_supported(feature: String) -> (r: ParseError)
        ensures
            r@ == (ParseErrorModel::FeatureNotSupported { feature: feature@, suggestion: None }),
    {
        ParseError::FeatureNotSupported { feature, suggestion: None }
    }

    /// Builds a feature-not-supported error with a suggestion.
    pub fn feature_not_supported_with_suggestion(feature: String, suggestion: String) -> (r:
        ParseError)
        ensures
            r@ == (ParseErrorModel::FeatureNotSupported {
                feature: feature@,
                suggestion: Some(suggestion@),
            }),
    {
        ParseError::FeatureNotSupported { feature, suggestion: Some(suggestion) }
    }

    /// Combines several errors into one: none becomes a general failure,
    /// one is returned as it is, and more become a `Multiple`.
    pub fn combine(errors: Vec<ParseError>) -> (r: ParseError)
        ensures
            errors@.len() == 0 ==> r@ == ParseErrorModel::ParseFailed("No specific error"@),
            errors@.len() == 1 ==> r@ == errors@[0]@,
            errors@.len() > 1 ==> (r@ matches ParseErrorModel::Multiple(ms) && ms.len()
                == errors@.len() && (forall|i: int|
                0 <= i < errors@.len() ==> ms[i] == #[trigger] errors@[i]@)),
    {
        if errors.len() == 0 {
            let mut m = String::new();
            m.append("No specific error");
            proof {
                assert(Seq::<char>::empty() + "No specific error"@ =~= "No specific error"@);
            }
            ParseError::ParseFailed(m)
        } else if errors.len() == 1 {
            let mut errors = errors;
            match errors.pop() {
                Some(e) => e,
                None => {
                    // Unreachable: the vector holds exactly one element.
                    proof {
                        assert(false);
                    }
                    ParseError::ParseFailed(String::new())
                },
            }
        } else {
            let r = ParseError::Multiple(errors);
            proof {
                match r.model() {
                    ParseErrorModel::Multiple(ms) => {
                        assert forall|i: int| 0 <= i < errors@.len() implies ms[i]
                            == #[trigger] errors@[i]@ by {
                            assert(ms[i] == errors@[i].model());
                        }
                    },
                    _ => {
                        assert(false);
                    },
                }
            }
            r
        }
    }

    /// Whether this is a syntax error.
    pub fn is_syntax_error(&self) -> (r: bool)
        ensures
            r == (self@ matches ParseErrorModel::SyntaxError { .. }),
    {
        match self {
            ParseError::SyntaxError { .. } => true,
            _ => false,
        }
    }

    /// Whether this is a semantic error.
    pub fn is_semantic_error(&self) -> (r: bool)
        ensures
            r == (self@ matches ParseErrorModel::SemanticError { .. }),
    {
        match self {
            ParseError::SemanticError { .. } => true,
            _ => false,
        }
    }

    /// Whether this error reports a timeout.
    pub fn is_timeout(&self) -> (r: bool)
        ensures
            r == (self@ matches ParseErrorModel::Timeout { .. }),
    {
        match self {
            ParseError::Timeout { .. } => true,
            _ => false,
        }
    }

    /// The message a reader should see first: a syntax or semantic error's
    /// own message, and the rendered description otherwise.
    pub fn primary_message(&self) -> (r: String)
        ensures
            r@ == (match self@ {
                ParseErrorModel::SyntaxError { message, .. } => message,
                ParseErrorModel::SemanticError { message, .. } => message,
                _ => rendered_message(self@),
            }),
    {
        match self {
            ParseError::SyntaxError { message, .. } => message.clone(),
            ParseError::SemanticError { message, .. } => message.clone(),
            _ => self.message(),
        }
    }

    /// The error's one-based line and column, where it has them.
    pub fn location(&self) -> (r: Option<(usize, usize)>)
        ensures
            r == (match self@ {
                ParseErrorModel::SyntaxError { line, column, .. } => Some(
                    (line as usize, column as usize),
                ),
                ParseErrorModel::SemanticError { span: Some(sp), .. } => Some(
                    (sp.start_line as usize, sp.start_column as usize),
                ),
                _ => None::<(usize, usize)>,
            }),
    {
        match self {
            ParseError::SyntaxError { line, column, .. } => Some((*line, *column)),
            ParseError::SemanticError { span: Some(span), .. } => Some(
                (span.start.line, span.start.column),
            ),
            _ => None,
        }
    }

    /// Attaches context to a syntax or semantic error; other errors pass
    /// through unchanged.
    pub fn with_context(self, context: ErrorContext) -> (r: ParseError)
        ensures
            r@ == (match self@ {
                ParseErrorModel::SyntaxError { line, column, message, .. } => {
                    ParseErrorModel::SyntaxError {
                        line,
                        column,
                        message,
                        context: Some(context@),
                    }
                },
                ParseErrorModel::SemanticError { message, span, .. } => {
                    ParseErrorModel::SemanticError { message, span, context: Some(context@) }
                },
                other => other,
            }),
    {
        match self {
            ParseError::SyntaxError { line, column, message, .. } => {
                ParseError::SyntaxError { line, column, message, context: Some(context) }
            },
            ParseError::SemanticError { message, span, .. } => {
                ParseError::SemanticError { message, span, context: Some(context) }
            },
            other => other,
        }
    }

    /// Renders the error as a located diagnostic: syntax and semantic
    /// errors keep their own place, every other error reports none.
    pub fn to_diagnostic(&self) -> (r: Diagnostic) {
        match self {
            ParseError::SyntaxError { line, column, message, context } => {
                let d = Diagnostic::error(*line, *column, message.clone());
                match context {
                    Some(c) => d.with_context(c.clone()),
                    None => d,
                }
            },
            ParseError::SemanticError { message, span, context } => {
                let d = match span {
                    Some(s) => Diagnostic::error(s.start.line, s.start.column, message.clone()),
                    None => Diagnostic::error(0, 0, message.clone()),
                };
                match context {
                    Some(c) => d.with_context(c.clone()),
                    None => d,
                }
            },
            _ => Diagnostic::error(0, 0, self.message()),
        }
    }
}

/// A located diagnostic message, kept as a placeholder shell.
#[derive(Debug, Clone)]
pub struct Diagnostic {}

impl Diagnostic {
    /// Builds an error-level diagnostic at the given place.
    pub fn error(_line: usize, _column: usize, _message: String) -> (r: Diagnostic) {
        Diagnostic {  }
    }

    /// Attaches context to this diagnostic.
    pub fn with_context(self, _context: ErrorContext) -> (r: Diagnostic) {
        self
    }
}

/// Builder for diagnostic messages, kept as a placeholder shell.
#[derive(Debug, Clone)]
pub struct DiagnosticBuilder {}

/// Severity levels for located diagnostics; only errors are defined yet.
#[derive(Debug, Clone, Copy, PartialEq, Eq)]
pub enum Severity {
    /// An error-level diagnostic.
    Error,
}

/// How the parser reacts to malformed input.
#[derive(Debug, Clone, Copy)]
pub enum RecoveryStrategy {
    /// Stop at the first fault.
    FailFast,
    /// Record the fault and go on.
    Continue,
    /// Try to mend the fault in place.
    AutoFix,
}

/// Error recovery helpers, kept as a placeholder shell.
pub struct ErrorRecovery {}

/// Lexical analysis errors.
#[derive(Debug)]
pub enum LexError {
    /// A character outside the language's alphabet.
    InvalidCharacter(char),
    /// A string that reaches the end of input unclosed.
    UnterminatedString,
    /// A backslash escape with no meaning.
    InvalidEscape(String),
    /// A malformed number literal.
    InvalidNumber(String),
}

/// The rendered description of a lexical error.
pub open spec fn lex_error_message(e: &LexError) -> Seq<char> {
    match e {
        LexError::InvalidCharacter(c) => "Invalid character: "@.push(*c),
        LexError::UnterminatedString => "Unterminated string"@,
        LexError::InvalidEscape(s) => "Invalid escape sequence: "@ + s@,
        LexError::InvalidNumber(s) => "Invalid number format: "@ + s@,
    }
}

impl LexError {
    /// Renders the error's message, as the display form would.
    pub fn message(&self) -> (r: String)
        ensures
            r@ == lex_error_message(self),
    {
        match self {
            LexError::InvalidCharacter(c) => {
                let mut out = String::new();
                out.append("Invalid character: ");
                out.push(*c);
                proof {
                    assert(out@ =~= lex_error_message(self));
                }
                out
            },
            LexError::UnterminatedString => {
                let mut out = String::new();
                out.append("Unterminated string");
                proof {
                    assert(out@ =~= lex_error_message(self));
                }
                out
            },
            LexError::InvalidEscape(s) => concat2("Invalid escape sequence: ", s.as_str()),
            LexError::InvalidNumber(s) => concat2("Invalid number format: ", s.as_str()),
        }
    }
}

/// Syntax analysis errors.
#[derive(Debug)]
pub enum SyntaxError {
    /// A token where another was expected.
    UnexpectedToken {
        /// What stood in the input.
        found: String,
        /// What the grammar expected.
        expected: String,
    },
    /// A delimiter left unclosed.
    MissingClosingDelimiter {
        /// The delimiter that stays open.
        delimiter: String,
    },
    /// An expression with no valid reading.
    InvalidExpression,
    /// Nesting past the configured bound.
    MaxNestingDepthExceeded,
}

/// The rendered description of a syntax error.
pub open spec fn syntax_error_message(e: &SyntaxError) -> Seq<char> {
    match e {
        SyntaxError::UnexpectedToken { found, expected } => "Unexpected token: "@ + found@
            + ", expected: "@ + expected@,
        SyntaxError::MissingClosingDelimiter { delimiter } => "Missing closing delimiter: "@
            + delimiter@,
        SyntaxError::InvalidExpression => "Invalid expression"@,
        SyntaxError::MaxNestingDepthExceeded => "Maximum nesting depth exceeded"@,
    }
}

impl SyntaxError {
    /// Renders the error's message, as the display form would.
    pub fn message(&self) -> (r: String)
        ensures
            r@ == syntax_error_message(self),
    {
        match self {
            SyntaxError::UnexpectedToken { found, expected } => {
                let mut out = String::new();
                out.append("Unexpected token: ");
                out.append(found.as_str());
                out.append(", expected: ");
                out.append(expected.as_str());
                proof {
                    assert(out@ =~= syntax_error_message(self));
                }
                out
            },
            SyntaxError::MissingClosingDelimiter { delimiter } => {
                concat2("Missing closing delimiter: ", delimiter.as_str())
            },
            SyntaxError::InvalidExpression => {
                let mut out = String::new();
                out.append("Invalid expression");
                proof {
                    assert(out@ =~= syntax_error_message(self));
                }
                out
            },
            SyntaxError::MaxNestingDepthExceeded => {
                let mut out = String::new();
                out.append("Maximum nesting depth exceeded");
                proof {
                    assert(out@ =~= syntax_error_message(self));
                }
                out
            },
        }
    }
}

/// Semantic analysis errors.
#[derive(Debug)]
pub enum SemanticError {
    /// A name with no binding in scope.
    UndefinedVariable {
        /// The unbound name.
        name: String,
    },
    /// A value of the wrong type.
    TypeMismatch {
        /// The type the context wanted.
        expected: String,
        /// The type the value had.
        found: String,
    },
    /// The same attribute bound twice.
    DuplicateAttribute {
        /// The repeated name.
        name: String,
    },
    /// A call applied to something no function.
    InvalidFunctionApplication,
}

/// The rendered description of a semantic error.
pub open spec fn semantic_error_message(e: &SemanticError) -> Seq<char> {
    match e {
        SemanticError::UndefinedVariable { name } => "Undefined variable: "@ + name@,
        SemanticError::TypeMismatch { expected, found } => "Type mismatch: expected "@ + expected@
            + ", found "@ + found@,
        SemanticError::DuplicateAttribute { name } => "Duplicate attribute: "@ + name@,
        SemanticError::InvalidFunctionApplication => "Invalid function application"@,
    }
}

impl SemanticError {
    /// Renders the error's message, as the display form would.
    pub fn message(&self) -> (r: String)
        ensures
            r@ == semantic_error_message(self),
    {
        match self {
            SemanticError::UndefinedVariable { name } => {
                concat2("Undefined variable: ", name.as_str())
            },
            SemanticError::TypeMismatch { expected, found } => {
                let mut out = String::new();
                out.append("Type mismatch: expected ");
                out.append(expected.as_str());
                out.append(", found ");
                out.append(found.as_str());
                proof {
                    assert(out@ =~= semantic_error_message(self));
                }
                out
            },
            SemanticError::DuplicateAttribute { name } => {
                concat2("Duplicate attribute: ", name.as_str())
            },
            SemanticError::InvalidFunctionApplication => {
                let mut out = String::new();
                out.append("Invalid function application");
                proof {
                    assert(out@ =~= semantic_error_message(self));
                }
                out
            },
        }
    }
}

impl From<LexError> for ParseError {
    /// Wraps a lexical error as a general parse failure.
    fn from(err: LexError) -> (r: ParseError) {
        let mut out = String::new();
        out.append("Lexical error: ");
        let m = err.message();
        out.append(m.as_str());
        proof {
            assert(out@ =~= "Lexical error: "@ + lex_error_message(&err));
        }
        ParseError::ParseFailed(out)
    }
}

impl vstd::std_specs::convert::FromSpecImpl<LexError> for ParseError {
    open spec fn obeys_from_spec() -> bool {
        false
    }

    open spec fn from_spec(err: LexError) -> ParseError {
        arbitrary()
    }
}

impl vstd::std_specs::convert::FromSpecImpl<SyntaxError> for ParseError {
    open spec fn obeys_from_spec() -> bool {
        false
    }

    open spec fn from_spec(err: SyntaxError) -> ParseError {
        arbitrary()
    }
}

impl From<SyntaxError> for ParseError {
    /// Wraps a syntax error as a general parse failure.
    fn from(err: SyntaxError) -> (r: ParseError) {
        let mut out = String::new();
        out.append("Syntax error: ");
        let m = err.message();
        out.append(m.as_str());
        proof {
            assert(out@ =~= "Syntax error: "@ + syntax_error_message(&err));
        }
        ParseError::ParseFailed(out)
    }
}

impl vstd::std_specs::convert::FromSpecImpl<SemanticError> for ParseError {
    open spec fn obeys_from_spec() -> bool {
        false
    }

    open spec fn from_spec(err: SemanticError) -> ParseError {
        arbitrary()
    }
}

impl From<SemanticError> for ParseError {
    /// Wraps a semantic error as a located semantic failure.
    fn from(err: SemanticError) -> (r: ParseError) {
        ParseError::SemanticError { message: err.message(), span: None, context: None }
    }
}

} // verus!
