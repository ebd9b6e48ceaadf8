use nix_parser::config::{LanguageVersion, ParserConfig};

#[test]
fn test_default_config() {
    let config = ParserConfig::default();
    assert!(config.allow_errors);
    assert!(config.include_locations);
    assert!(config.incremental_parsing);
}

#[test]
fn test_strict_config() {
    let config = ParserConfig::strict();
    assert!(!config.allow_errors);
    assert!(config.validate_output);
}

#[test]
fn test_config_builder() {
    let config = ParserConfig::builder()
        .allow_errors(false)
        .language_version(LanguageVersion::Nix218)
        .include_comments(true)
        .enable_feature("experimental_syntax".to_string())
        .build();

    assert!(!config.allow_errors);
    assert_eq!(config.language_version, LanguageVersion::Nix218);
    assert!(config.include_comments);
    assert!(config.is_feature_enabled("experimental_syntax"));
}

#[test]
fn test_language_versions() {
    assert!(LanguageVersion::Latest.supports_flakes());
    assert!(!LanguageVersion::Nix23.supports_flakes());
    assert!(LanguageVersion::Nix218.supports_scientific_notation());
    assert!(!LanguageVersion::Nix24.supports_scientific_notation());
}

#[test]
fn test_feature_flags() {
    let mut config = ParserConfig::default();
    assert!(!config.is_feature_enabled("test_feature"));

    config.enable_feature("test_feature".to_string());
    assert!(config.is_feature_enabled("test_feature"));

    config.disable_feature("test_feature".to_string());
    assert!(!config.is_feature_enabled("test_feature"));
}

#[test]
fn test_statistics_collection() {
    let config = ParserConfig::performance();
    assert!(config.collect_statistics);

    let config = ParserConfig::builder().collect_statistics(true).build();
    assert!(config.collect_statistics);
}

#[test]
fn test_lenient_config() {
    let config = ParserConfig::lenient();
    assert!(config.allow_errors);
    assert!(config.include_comments);
    assert!(config.preserve_whitespace);
}

#[test]
fn test_language_version_names() {
    assert_eq!(LanguageVersion::Nix23.as_str(), "2.3");
    assert_eq!(LanguageVersion::Latest.as_str(), "latest");
    assert_eq!(LanguageVersion::all().len(), 6);
    assert!(LanguageVersion::Nix23.supports_or_keyword());
}
