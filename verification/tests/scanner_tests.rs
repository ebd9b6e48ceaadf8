use nix_parser::scanner::TokenType;

#[test]
fn test_token_types() {
    assert_eq!(TokenType::StringStart.name(), "string_start");
    assert!(TokenType::StringStart.is_string_token());
    assert!(!TokenType::StringStart.is_interpolation_token());

    assert!(TokenType::InterpolationStart.is_interpolation_token());
    assert!(!TokenType::InterpolationStart.is_string_token());

    assert_eq!(TokenType::all().len(), 10);
}

#[test]
fn test_token_type_display() {
    assert_eq!(TokenType::StringStart.name(), "string_start");
    assert_eq!(TokenType::Comment.name(), "comment");
}
