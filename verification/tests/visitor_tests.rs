use nix_parser::ast::{BinaryOperator, Expression};
use nix_parser::visitor::{walk_expression, IdentifierCollector};

#[test]
fn test_identifier_collector() {
    let mut collector = IdentifierCollector::new();

    let expr = Expression::Identifier("test".to_string());
    walk_expression(&mut collector, &expr);

    assert_eq!(collector.identifiers, vec!["test"]);
}

#[test]
fn test_nested_visitor() {
    let mut collector = IdentifierCollector::new();

    let expr = Expression::BinaryOp {
        op: BinaryOperator::Add,
        left: Box::new(Expression::Identifier("x".to_string())),
        right: Box::new(Expression::Identifier("y".to_string())),
    };

    walk_expression(&mut collector, &expr);
    assert_eq!(collector.identifiers, vec!["x", "y"]);
}
