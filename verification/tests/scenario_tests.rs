use nix_parser::ast::Expression;
use nix_parser::cache::ParseCache;
use nix_parser::incremental::{IncrementalParser, Position, TextChange};
use nix_parser::NixParser;
use nix_parser::ParseError;
use nix_parser::ast::PathType;
use nix_parser::ast::Parameter;

#[test]
fn integer_literal_lowers_to_integer() {
    let mut parser = NixParser::new().unwrap();
    let result = parser.parse("42").unwrap();
    assert_eq!(result.diagnostics().len(), 0);
    let expr = result.expression().unwrap().unwrap();
    assert_eq!(expr, Expression::Integer(42));
}

#[test]
fn attribute_set_lowers_in_document_order() {
    let mut parser = NixParser::new().unwrap();
    let result = parser.parse("{ x = 1; y = 2; }").unwrap();
    assert_eq!(result.diagnostics().len(), 0);
    let expr = result.expression().unwrap().unwrap();
    match expr {
        Expression::AttributeSet { recursive, attributes } => {
            assert!(!recursive);
            assert_eq!(attributes.len(), 2);
            assert_eq!(attributes[0].path, vec!["x".to_string()]);
            assert_eq!(attributes[0].value, Expression::Integer(1));
            assert_eq!(attributes[1].path, vec!["y".to_string()]);
            assert_eq!(attributes[1].value, Expression::Integer(2));
        }
        other => panic!("expected an attribute set, got {:?}", other),
    }
}

#[test]
fn incomplete_conditional_reports_and_fails_lowering() {
    let mut engine = nix_parser::engine::NixParser::new().unwrap();
    let result = engine.parse("if true then").unwrap();
    assert!(!result.diagnostics.is_empty());
    match engine.to_ast(&result.cst) {
        Err(ParseError::InvalidNode(_)) => {}
        Err(other) => panic!("expected a structural fault, got {:?}", other),
        Ok(e) => panic!("expected lowering to fail, got {:?}", e),
    }
}

#[test]
fn single_edit_matches_fresh_parse() {
    let mut tracker = IncrementalParser::new().unwrap();
    tracker.parse_document("doc.nix", "{ x = 1; }").unwrap();
    assert_eq!(tracker.document_version("doc.nix"), Some(1));

    let changes = vec![TextChange::replace(Position::new(0, 6), Position::new(0, 7), "2")];
    let updated = tracker.update_document("doc.nix", &changes, "{ x = 2; }").unwrap();
    assert_eq!(tracker.document_version("doc.nix"), Some(2));

    let mut fresh = NixParser::new().unwrap();
    let reference = fresh.parse("{ x = 2; }").unwrap();
    assert_eq!(updated.diagnostics(), reference.diagnostics());
    assert_eq!(
        updated.expression().unwrap().unwrap(),
        reference.expression().unwrap().unwrap()
    );
}

#[test]
fn unknown_node_kind_fails_lowering_but_not_collection() {
    let node = nix_parser::cst::CstNode {
        kind: "mystery_form".to_string(),
        text: Some("?".to_string()),
        field: None,
        start_byte: 0,
        end_byte: 1,
        start_row: 0,
        start_col: 0,
        end_row: 0,
        end_col: 1,
        error: false,
        missing: false,
        children: Vec::new(),
    };
    match nix_parser::lower::node_to_ast(&node, 16) {
        Err(ParseError::UnknownNodeType(k)) => assert_eq!(k, "mystery_form"),
        other => panic!("expected an unknown-kind fault, got {:?}", other.map(|_| ())),
    }
    let diags = nix_parser::result::collect_parse_diagnostics(&node);
    assert!(diags.is_empty());
}

#[test]
fn cache_hit_matches_first_computation() {
    let mut parser = NixParser::new().unwrap();
    parser.enable_cache(ParseCache::new(8));

    let first = parser.parse("[ 1 2 3 ]").unwrap();
    let second = parser.parse("[ 1 2 3 ]").unwrap();
    assert_eq!(first.diagnostics(), second.diagnostics());
    assert_eq!(first.source(), second.source());
    assert_eq!(
        first.expression().unwrap().unwrap(),
        second.expression().unwrap().unwrap()
    );

    let faulty = parser.parse("(1 +").unwrap();
    let faulty_again = parser.parse("(1 +").unwrap();
    assert_eq!(faulty.diagnostics(), faulty_again.diagnostics());
}

#[test]
fn lowering_is_idempotent_on_one_tree() {
    let mut parser = nix_parser::engine::NixParser::new().unwrap();
    let result = parser.parse("{ a = [ 1 2 ]; b = x: x; }").unwrap();
    let once = parser.to_ast(&result.cst).unwrap();
    let twice = parser.to_ast(&result.cst).unwrap();
    assert_eq!(once, twice);
}

#[test]
fn error_free_core_source_lowers() {
    let mut parser = NixParser::new().unwrap();
    for src in ["1 + 2 * 3", "if a then b else c", "f x", "assert a; b", "with pkgs; x", "a.b.c"] {
        let result = parser.parse(src).unwrap();
        assert_eq!(result.diagnostics().len(), 0, "diagnostics for {}", src);
        let expr = result.expression().unwrap();
        assert!(expr.is_some(), "no expression for {}", src);
    }
}

#[test]
fn string_lowering_merges_fragments() {
    let mut parser = NixParser::new().unwrap();
    let result = parser.parse("\"hello world\"").unwrap();
    let expr = result.expression().unwrap().unwrap();
    assert_eq!(expr, Expression::String("hello world".to_string()));

    let result = parser.parse("\"a${b}c\"").unwrap();
    let expr = result.expression().unwrap().unwrap();
    match expr {
        Expression::StringInterpolation { parts } => {
            assert_eq!(parts.len(), 3);
        }
        other => panic!("expected an interpolated string, got {:?}", other),
    }
}

#[test]
fn booleans_and_null_lower_to_literals() {
    let mut parser = NixParser::new().unwrap();
    let t = parser.parse("true").unwrap().expression().unwrap().unwrap();
    assert_eq!(t, Expression::Boolean(true));
    let f = parser.parse("false").unwrap().expression().unwrap().unwrap();
    assert_eq!(f, Expression::Boolean(false));
    let n = parser.parse("null").unwrap().expression().unwrap().unwrap();
    assert_eq!(n, Expression::Null);
}

#[test]
fn paths_are_classified_by_shape() {
    let mut parser = NixParser::new().unwrap();
    let abs = parser.parse("/etc/nixos").unwrap().expression().unwrap().unwrap();
    assert_eq!(abs, Expression::Path(PathType::Absolute("/etc/nixos".to_string())));
    let home = parser.parse("~/work").unwrap().expression().unwrap().unwrap();
    assert_eq!(home, Expression::Path(PathType::Home("~/work".to_string())));
    let rel = parser.parse("./src/main").unwrap().expression().unwrap().unwrap();
    assert_eq!(rel, Expression::Path(PathType::Relative("./src/main".to_string())));
    let search = parser.parse("<nixpkgs>").unwrap().expression().unwrap().unwrap();
    assert_eq!(search, Expression::Path(PathType::Search("nixpkgs".to_string())));
}

#[test]
fn function_parameters_lower_to_patterns() {
    let mut parser = NixParser::new().unwrap();
    let simple = parser.parse("x: x").unwrap().expression().unwrap().unwrap();
    match simple {
        Expression::Function { parameter: Parameter::Identifier(name), .. } => {
            assert_eq!(name, "x");
        }
        other => panic!("expected a simple function, got {:?}", other),
    }
    let pat = parser.parse("{ a, b ? 1, ... }: a").unwrap().expression().unwrap().unwrap();
    match pat {
        Expression::Function { parameter: Parameter::Pattern { fields, ellipsis, .. }, .. } => {
            assert!(ellipsis);
            assert_eq!(fields.len(), 2);
            assert_eq!(fields[0].name, "a");
            assert!(fields[0].default.is_none());
            assert_eq!(fields[1].name, "b");
            assert_eq!(fields[1].default, Some(Expression::Integer(1)));
        }
        other => panic!("expected a pattern function, got {:?}", other),
    }
}

#[test]
fn let_expression_gathers_bindings() {
    let mut parser = NixParser::new().unwrap();
    let expr = parser.parse("let a = 1; b = 2; in a").unwrap().expression().unwrap().unwrap();
    match expr {
        Expression::LetIn { bindings, body } => {
            assert_eq!(bindings.len(), 2);
            assert_eq!(bindings[0].name, "a");
            assert_eq!(bindings[0].value, Expression::Integer(1));
            assert_eq!(bindings[1].name, "b");
            assert_eq!(*body, Expression::Identifier("a".to_string()));
        }
        other => panic!("expected a let expression, got {:?}", other),
    }
}

#[test]
fn recursive_attribute_set_sets_flag() {
    let mut parser = NixParser::new().unwrap();
    let expr = parser.parse("rec { x = 1; }").unwrap().expression().unwrap().unwrap();
    match expr {
        Expression::AttributeSet { recursive, .. } => assert!(recursive),
        other => panic!("expected an attribute set, got {:?}", other),
    }
}

#[test]
fn depth_budget_is_enforced() {
    let mut parser = nix_parser::engine::NixParser::new().unwrap();
    let result = parser.parse("((((1))))").unwrap();
    match nix_parser::lower::node_to_ast(&result.cst, 2) {
        Err(ParseError::ResourceLimitExceeded { resource, .. }) => {
            assert_eq!(resource, "nesting depth");
        }
        other => panic!("expected a resource-limit fault, got {:?}", other.map(|_| ())),
    }
    assert!(nix_parser::lower::node_to_ast(&result.cst, 64).is_ok());
}

#[test]
fn unary_and_inherit_forms_lower() {
    let mut parser = NixParser::new().unwrap();
    let neg = parser.parse("-x").unwrap().expression().unwrap().unwrap();
    match neg {
        Expression::UnaryOp { op, operand } => {
            assert_eq!(op, nix_parser::ast::UnaryOperator::Negate);
            assert_eq!(*operand, Expression::Identifier("x".to_string()));
        }
        other => panic!("expected a unary operation, got {:?}", other),
    }
    let set = parser.parse("{ inherit a b; }").unwrap().expression().unwrap().unwrap();
    match set {
        Expression::AttributeSet { attributes, .. } => {
            // Inherit statements are not plain bindings; they add no pair.
            assert_eq!(attributes.len(), 0);
        }
        other => panic!("expected an attribute set, got {:?}", other),
    }
}

#[test]
fn float_literals_keep_their_text() {
    let mut parser = NixParser::new().unwrap();
    let expr = parser.parse("2.5").unwrap().expression().unwrap().unwrap();
    assert_eq!(expr, Expression::Float("2.5".to_string()));
}

#[test]
fn oversized_integer_literal_is_rejected() {
    let mut parser = NixParser::new().unwrap();
    let result = parser.parse("99999999999999999999999").unwrap();
    match result.expression() {
        Err(ParseError::ParseFailed(m)) => assert_eq!(m, "invalid integer literal"),
        other => panic!("expected an integer fault, got {:?}", other.map(|_| ())),
    }
}

#[test]
fn unreadable_node_text_is_reported() {
    let node = nix_parser::cst::CstNode {
        kind: "identifier".to_string(),
        text: None,
        field: None,
        start_byte: 0,
        end_byte: 1,
        start_row: 0,
        start_col: 0,
        end_row: 0,
        end_col: 1,
        error: false,
        missing: false,
        children: Vec::new(),
    };
    match nix_parser::lower::node_to_ast(&node, 4) {
        Err(ParseError::Utf8Error(_)) => {}
        other => panic!("expected a text fault, got {:?}", other.map(|_| ())),
    }
    let diags = nix_parser::diag::collect_errors(&node);
    assert!(diags.is_empty());
}

#[test]
fn collector_reports_each_error_node_once() {
    let mut engine = nix_parser::engine::NixParser::new().unwrap();
    let result = engine.parse("1 ++ + 2").unwrap();
    let again = engine.collect_diagnostics(&result.cst);
    assert_eq!(result.diagnostics.len(), again.len());
    assert!(!again.is_empty());
}
