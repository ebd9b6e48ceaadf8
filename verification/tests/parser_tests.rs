use nix_parser::config::ParserConfig;
use nix_parser::NixParser;

#[test]
fn test_version_info() {
    assert!(!nix_parser::VERSION.is_empty());
    assert!(!nix_parser::SUPPORTED_NIX_VERSION.is_empty());
    assert!(nix_parser::MIN_TREE_SITTER_ABI >= 13);
}

#[test]
fn mod_test_parser_creation() {
    let parser = NixParser::new();
    assert!(parser.is_ok());
}

#[test]
fn parser_test_parser_creation() {
    let parser = nix_parser::engine::NixParser::new();
    assert!(parser.is_ok());
}

#[test]
fn test_simple_parse() {
    let mut parser = NixParser::new().unwrap();
    let result = parser.parse("42");
    assert!(result.is_ok());

    let parse_result = result.unwrap();
    assert!(!parse_result.has_errors());
}

#[test]
fn test_error_handling() {
    let mut parser = NixParser::new().unwrap();
    let result = parser.parse("if true then");

    assert!(result.is_ok());
    let parse_result = result.unwrap();
    assert!(parse_result.has_errors());
}

#[test]
fn test_config_update() {
    let mut parser = NixParser::new().unwrap();
    let mut config = ParserConfig::default();
    config.allow_errors = false;

    parser.set_config(config);
    assert!(!parser.config().allow_errors);
}

#[test]
fn test_engine_parse_and_lower() {
    let mut parser = nix_parser::engine::NixParser::new().unwrap();
    let result = parser.parse("1 + 2").unwrap();
    assert_eq!(result.source, "1 + 2");
    assert!(result.diagnostics.is_empty());
    let ast = parser.to_ast(&result.cst).unwrap();
    match ast {
        nix_parser::Expression::BinaryOp { op, left, right } => {
            assert_eq!(op, nix_parser::ast::BinaryOperator::Add);
            assert_eq!(*left, nix_parser::Expression::Integer(1));
            assert_eq!(*right, nix_parser::Expression::Integer(2));
        }
        other => panic!("unexpected lowering: {:?}", other),
    }
}

#[test]
fn test_validation_rejects_errors() {
    let mut parser = NixParser::with_config(ParserConfig::strict()).unwrap();
    let result = parser.parse("if true then");
    match result {
        Err(nix_parser::ParseError::ValidationError(m)) => {
            assert_eq!(m, "Parse result contains errors but allow_errors is false");
        }
        other => panic!("expected a validation error, got {:?}", other.map(|_| ())),
    }
}
