use nix_parser::ast::SourceLocation;
use nix_parser::result::{DiagnosticSeverity, ParseDiagnostic, ParseStats};
use nix_parser::NixParser;

#[test]
fn test_successful_parse_result() {
    let mut parser = NixParser::new().unwrap();
    let result = parser.parse("42").unwrap();

    assert!(!result.has_errors());
    assert!(!result.has_warnings());
    assert_eq!(result.source(), "42");
}

#[test]
fn test_error_parse_result() {
    let mut parser = NixParser::new().unwrap();
    let result = parser.parse("if true then").unwrap();

    assert!(result.has_errors());
    assert!(result.error_summary().is_some());
}

#[test]
fn test_diagnostic_creation() {
    let location = SourceLocation::new(1, 5, 0, 5);
    let diag = ParseDiagnostic::error(location, "Test error".to_string())
        .with_code("E001".to_string())
        .with_source("test".to_string());

    assert_eq!(diag.severity, DiagnosticSeverity::Error);
    assert_eq!(diag.message, "Test error");
    assert_eq!(diag.code, Some("E001".to_string()));
    assert_eq!(diag.source, Some("test".to_string()));
}

#[test]
fn test_parse_stats() {
    let mut parser = NixParser::new().unwrap();
    let result = parser.parse("{ x = 1; }").unwrap();

    let stats = ParseStats::from_result(&result, 100, false);
    assert!(stats.node_count > 0);
    assert_eq!(stats.parse_time_ms, 100);
    assert_eq!(stats.source_size, 10);
    assert!(!stats.incremental);
}

#[test]
fn test_severity_names() {
    assert_eq!(DiagnosticSeverity::Info.as_str(), "info");
    assert_eq!(DiagnosticSeverity::Warning.as_str(), "warning");
    assert_eq!(DiagnosticSeverity::Error.as_str(), "error");
}

#[test]
fn test_missing_node_diagnostic() {
    let mut parser = NixParser::new().unwrap();
    let result = parser.parse("(1 + 2").unwrap();
    assert!(result.has_errors());
    let has_message = result
        .diagnostics()
        .iter()
        .any(|d| d.message.starts_with("Syntax error near: '") || d.message.starts_with("Missing: "));
    assert!(has_message);
}

#[test]
fn test_error_summary_content() {
    let mut parser = NixParser::new().unwrap();
    let result = parser.parse("42").unwrap();
    assert!(result.error_summary().is_none());

    let faulty = parser.parse("if true then").unwrap();
    let summary = faulty.error_summary().unwrap();
    let n = faulty
        .diagnostics()
        .iter()
        .filter(|d| d.severity == DiagnosticSeverity::Error)
        .count();
    assert!(summary.starts_with(&format!("Found {} parse error(s):\n", n)));
    for d in faulty.diagnostics().iter() {
        if d.severity == DiagnosticSeverity::Error {
            let line = format!(
                "  - Line {}, Column {}: {}\n",
                d.location.line, d.location.column, d.message
            );
            assert!(summary.contains(&line));
        }
    }
}
