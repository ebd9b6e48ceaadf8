use nix_parser::grammar::{FieldName, GrammarLayer, NodeType};

#[test]
fn test_node_type_categories() {
    assert!(NodeType::Integer.is_literal());
    assert!(NodeType::Integer.is_expression());
    assert!(!NodeType::Integer.is_error());

    assert!(!NodeType::BinaryExpression.is_literal());
    assert!(NodeType::BinaryExpression.is_expression());
    assert!(!NodeType::BinaryExpression.is_error());

    assert!(!NodeType::Error.is_literal());
    assert!(!NodeType::Error.is_expression());
    assert!(NodeType::Error.is_error());
}

#[test]
fn test_field_names() {
    assert_eq!(FieldName::Expression.as_str(), "expression");
    assert_eq!(FieldName::Left.as_str(), "left");
    assert_eq!(FieldName::Right.as_str(), "right");
}

#[test]
fn test_node_types_coverage() {
    for node_type in NodeType::all() {
        let s = node_type.as_str();
        assert!(!s.is_empty());

        if !node_type.is_error() {
            assert_eq!(NodeType::from_str(s), Some(node_type));
        }
    }
}

#[test]
fn test_node_type_conversion() {
    assert_eq!(NodeType::Integer.as_str(), "integer");
    assert_eq!(NodeType::from_str("integer"), Some(NodeType::Integer));
    assert_eq!(NodeType::from_str("invalid"), None);
    assert_eq!(NodeType::from_str("float"), Some(NodeType::Float));
}

#[test]
fn test_grammar_layers() {
    let basic = GrammarLayer::Basic;
    assert!(basic.allowed_nodes().contains(&"integer"));
    assert!(!basic.allowed_nodes().contains(&"import"));

    let advanced = GrammarLayer::Advanced;
    assert!(advanced.allowed_nodes().contains(&"import"));
}

#[test]
fn test_language_creation() {
    let lang = nix_parser::engine::language();
    assert!(nix_parser::engine::language_abi_version(&lang) >= nix_parser::MIN_TREE_SITTER_ABI as usize);
}

#[test]
fn test_node_structure_validation() {
    let node = nix_parser::cst::CstNode {
        kind: "if_expression".to_string(),
        text: Some("if a then b else c".to_string()),
        field: None,
        start_byte: 0,
        end_byte: 18,
        start_row: 0,
        start_col: 0,
        end_row: 0,
        end_col: 18,
        error: false,
        missing: false,
        children: Vec::new(),
    };
    assert!(nix_parser::grammar::validate_node_type(&node, NodeType::IfExpression));
    assert!(!nix_parser::grammar::has_required_field(&node, FieldName::Condition));
    let problems = nix_parser::grammar::validate_node_structure(
        &node,
        NodeType::IfExpression,
        &vec![FieldName::Condition],
    );
    assert_eq!(problems.len(), 1);
    assert_eq!(problems[0], "Missing required field: condition");
}
