use nix_parser::transform::{TransformResult, Transformer};
use nix_parser::Expression;
use nix_parser::transform::utils::expressions_equal;

#[test]
fn test_transformer_creation() {
    let transformer = Transformer::new();
    drop(transformer);
}

#[test]
fn test_transform_result() {
    let expr = Expression::Integer(42);
    let result = TransformResult {
        original: expr.clone(),
        transformed: expr.clone(),
        steps: Vec::new(),
    };

    assert!(!result.was_transformed());
    assert_eq!(result.summary(), "No transformations applied");
}

#[test]
fn test_transform_is_identity_with_default_passes() {
    let mut t = Transformer::new();
    let expr = Expression::Identifier("x".to_string());
    let out = t.transform(expr.clone()).unwrap();
    assert_eq!(out.original, expr);
    assert_eq!(out.transformed, expr);
    assert!(out.steps.is_empty());
}

#[test]
fn test_expressions_equal() {
    let a = Expression::List(vec![Expression::Integer(1), Expression::Boolean(true)]);
    let b = Expression::List(vec![Expression::Integer(1), Expression::Boolean(true)]);
    let c = Expression::List(vec![Expression::Integer(2), Expression::Boolean(true)]);
    assert!(expressions_equal(&a, &b));
    assert!(!expressions_equal(&a, &c));
}
