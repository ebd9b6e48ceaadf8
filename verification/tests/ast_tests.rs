use nix_parser::ast::{BinaryOperator, Expression};

#[test]
fn test_expression_creation() {
    let expr = Expression::Integer(42);
    assert_eq!(expr, Expression::Integer(42));

    let expr = Expression::String("hello".to_string());
    assert_eq!(expr, Expression::String("hello".to_string()));
}

#[test]
fn test_binary_op() {
    let expr = Expression::BinaryOp {
        op: BinaryOperator::Add,
        left: Box::new(Expression::Integer(1)),
        right: Box::new(Expression::Integer(2)),
    };

    let children = expr.children();
    assert_eq!(children.len(), 2);
}

#[test]
fn test_expression_clone_is_deep() {
    let expr = Expression::If {
        condition: Box::new(Expression::Boolean(true)),
        then_branch: Box::new(Expression::Integer(1)),
        else_branch: Box::new(Expression::Integer(2)),
    };
    assert_eq!(expr.clone(), expr);
}
