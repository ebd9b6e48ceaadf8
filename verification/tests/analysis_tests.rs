use nix_parser::analysis::{AnalysisResult, Analyzer};

#[test]
fn test_analyzer_creation() {
    let analyzer = Analyzer::new();
    drop(analyzer);
}

#[test]
fn test_analysis_result() {
    let result = AnalysisResult::new();
    assert!(!result.has_errors());
    assert!(result.scopes.is_empty());
    assert!(result.semantic.is_none());
}

#[test]
fn test_analyzer_accepts_expression() {
    let mut analyzer = Analyzer::new();
    let out = analyzer
        .analyze(&nix_parser::Expression::Integer(3))
        .unwrap();
    assert!(!out.has_errors());
    assert!(out.into_result().is_ok());
}
