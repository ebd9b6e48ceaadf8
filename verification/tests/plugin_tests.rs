use nix_parser::plugins::{LoggingPlugin, Plugin, WhitespaceNormalizer};

#[test]
fn test_logging_plugin() {
    let plugin = LoggingPlugin::new();
    assert_eq!(plugin.name(), "logging");
}

#[test]
fn test_whitespace_normalizer() {
    let mut plugin = WhitespaceNormalizer;
    let source = "hello\r\nworld\rtest".to_string();
    let result = plugin.pre_process(source).unwrap();
    assert_eq!(result, "hello\nworld\ntest");
}
