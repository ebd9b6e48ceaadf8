use nix_parser::error::{LexError, ParseError, SemanticError, SyntaxError};

#[test]
fn test_error_creation() {
    let err = ParseError::syntax_error(10, 5, "Unexpected token".to_string());

    assert!(err.is_syntax_error());
    assert_eq!(err.location(), Some((10, 5)));
    assert_eq!(err.primary_message(), "Unexpected token");
}

#[test]
fn test_error_combination() {
    let errors = vec![
        ParseError::ParseFailed("Error 1".to_string()),
        ParseError::ParseFailed("Error 2".to_string()),
    ];

    let combined = ParseError::combine(errors);
    match combined {
        ParseError::Multiple(errs) => assert_eq!(errs.len(), 2),
        _ => panic!("Expected Multiple error"),
    }
}

#[test]
fn test_timeout_error() {
    let err = ParseError::timeout(5000);
    assert!(err.is_timeout());

    match err {
        ParseError::Timeout { timeout_ms } => assert_eq!(timeout_ms, 5000),
        _ => panic!("Expected Timeout error"),
    }
}

#[test]
fn test_feature_not_supported() {
    let err = ParseError::feature_not_supported_with_suggestion(
        "experimental_syntax".to_string(),
        "Enable with --experimental-features".to_string(),
    );

    match err {
        ParseError::FeatureNotSupported { feature, suggestion } => {
            assert_eq!(feature, "experimental_syntax");
            assert!(suggestion.is_some());
        }
        _ => panic!("Expected FeatureNotSupported error"),
    }
}

#[test]
fn test_specialized_errors() {
    let lex_err = LexError::InvalidCharacter('€');
    let parse_err: ParseError = lex_err.into();
    assert!(!parse_err.is_syntax_error());

    let syntax_err = SyntaxError::UnexpectedToken {
        found: "if".to_string(),
        expected: "identifier".to_string(),
    };
    let parse_err: ParseError = syntax_err.into();
    assert!(!parse_err.is_syntax_error());

    let semantic_err = SemanticError::UndefinedVariable { name: "foo".to_string() };
    let parse_err: ParseError = semantic_err.into();
    assert!(parse_err.is_semantic_error());
}

#[test]
fn test_error_messages() {
    assert_eq!(
        ParseError::InvalidNode("bad".to_string()).message(),
        "Invalid node: bad"
    );
    assert_eq!(
        ParseError::UnknownNodeType("mystery".to_string()).message(),
        "Unknown node type: mystery"
    );
    assert_eq!(ParseError::timeout(250).message(), "Parsing timed out after 250ms");
    assert_eq!(
        ParseError::resource_limit("nesting depth".to_string(), "1000".to_string()).message(),
        "Resource limit exceeded: nesting depth (1000)"
    );
    assert_eq!(
        ParseError::syntax_error(3, 7, "boom".to_string()).message(),
        "Syntax error at line 3, column 7: boom"
    );
    assert_eq!(
        ParseError::semantic_error("odd".to_string()).message(),
        "Semantic error: odd"
    );
}

#[test]
fn test_error_combination_empty_and_single() {
    let combined = ParseError::combine(Vec::new());
    match combined {
        ParseError::ParseFailed(m) => assert_eq!(m, "No specific error"),
        _ => panic!("Expected ParseFailed"),
    }
    let one = ParseError::combine(vec![ParseError::timeout(9)]);
    assert!(one.is_timeout());
}
