use nix_parser::ast::{BinaryOperator, Expression};
use nix_parser::query::{ExpressionType, Matcher, Pattern, QueryEngine};

#[test]
fn test_pattern_matching() {
    let _engine = QueryEngine::new();

    let expr = Expression::Integer(42);
    let pattern = Pattern::new("integer", Matcher::Type(ExpressionType::Integer));

    assert!(pattern.matcher.matches(&expr));
}

#[test]
fn test_binary_op_matcher() {
    let expr = Expression::BinaryOp {
        op: BinaryOperator::Add,
        left: Box::new(Expression::Integer(1)),
        right: Box::new(Expression::Integer(2)),
    };

    let matcher = Matcher::BinaryOp(BinaryOperator::Add);
    assert!(matcher.matches(&expr));

    let matcher = Matcher::BinaryOp(BinaryOperator::Subtract);
    assert!(!matcher.matches(&expr));
}

#[test]
fn test_combined_matchers() {
    let expr = Expression::Integer(42);

    let matcher = Matcher::And(
        Box::new(Matcher::Type(ExpressionType::Integer)),
        Box::new(Matcher::Not(Box::new(Matcher::Type(ExpressionType::Float)))),
    );

    assert!(matcher.matches(&expr));
}

#[test]
fn test_query_engine_runs_patterns() {
    let mut engine = QueryEngine::new();
    engine.add_pattern(Pattern::new("ints", Matcher::Type(ExpressionType::Integer)));
    engine.add_pattern(Pattern::new("floats", Matcher::Type(ExpressionType::Float)));
    let matches = engine.query(&Expression::Integer(5));
    assert_eq!(matches.len(), 1);
    assert_eq!(matches[0].pattern_name, "ints");
}
