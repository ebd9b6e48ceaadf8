use nix_parser::incremental::{IncrementalParser, Position, TextChange};

#[test]
fn test_incremental_parser_creation() {
    let parser = IncrementalParser::new();
    assert!(parser.is_ok());
}

#[test]
fn test_document_tracking() {
    let mut parser = IncrementalParser::new().unwrap();

    let result = parser.parse_document("test.nix", "{ x = 1; }");
    assert!(result.is_ok());
    assert!(parser.has_document("test.nix"));
    assert_eq!(parser.document_version("test.nix"), Some(1));

    let changes = vec![TextChange::replace(Position::new(0, 6), Position::new(0, 7), "2")];
    let result = parser.update_document("test.nix", &changes, "{ x = 2; }");
    assert!(result.is_ok());
    assert_eq!(parser.document_version("test.nix"), Some(2));

    assert!(parser.remove_document("test.nix"));
    assert!(!parser.has_document("test.nix"));
}

#[test]
fn test_text_changes() {
    let insert = TextChange::insert(Position::new(0, 5), "hello");
    assert_eq!(insert.start, insert.end);
    assert_eq!(insert.new_text, "hello");

    let delete = TextChange::delete(Position::new(0, 0), Position::new(0, 5));
    assert_eq!(delete.new_text, "");

    let replace = TextChange::replace(Position::new(0, 0), Position::new(0, 5), "world");
    assert_eq!(replace.new_text, "world");
}

#[test]
fn test_position_conversion() {
    let source = "line1\nline2\nline3";

    let pos = Position::new(1, 0);
    let byte_offset = nix_parser::incremental::position_to_byte_offset(source, pos);
    assert_eq!(byte_offset, 6);

    let point = nix_parser::incremental::byte_offset_to_position(source, 6);
    assert_eq!(point.row, 1);
    assert_eq!(point.column, 0);
}

#[test]
fn test_incremental_stats() {
    let mut parser = IncrementalParser::new().unwrap();

    let initial_stats = parser.stats();
    assert_eq!(initial_stats.document_count, 0);
    assert_eq!(initial_stats.total_source_size, 0);

    parser.parse_document("test1.nix", "{ x = 1; }").unwrap();
    parser.parse_document("test2.nix", "{ y = 2; }").unwrap();

    let stats = parser.stats();
    assert_eq!(stats.document_count, 2);
    assert_eq!(stats.total_source_size, 20);
}

#[test]
fn test_untracked_document_update() {
    let mut parser = IncrementalParser::new().unwrap();
    let err = match parser.update_document("ghost.nix", &[], "{}") {
        Err(e) => e,
        Ok(_) => panic!("updating an untracked document must fail"),
    };
    match err {
        nix_parser::ParseError::ValidationError(m) => {
            assert_eq!(m, "Document 'ghost.nix' not found. Call parse_document first.");
        }
        other => panic!("expected a validation error, got {:?}", other),
    }
}

#[test]
fn test_position_round_trip_ascii() {
    let source = "let\n  a = 1;\nin a";
    for off in 0..=source.len() {
        let p = nix_parser::incremental::byte_offset_to_position(source, off);
        let back = nix_parser::incremental::position_to_byte_offset(
            source,
            Position::new(p.row, p.column),
        );
        assert_eq!(back, off);
    }
}

#[test]
fn test_documents_do_not_interact() {
    let mut parser = IncrementalParser::new().unwrap();
    parser.parse_document("a.nix", "{ x = 1; }").unwrap();
    parser.parse_document("b.nix", "{ y = 2; }").unwrap();

    let changes = vec![TextChange::replace(Position::new(0, 6), Position::new(0, 7), "3")];
    parser.update_document("a.nix", &changes, "{ x = 3; }").unwrap();

    assert_eq!(parser.document_version("a.nix"), Some(2));
    assert_eq!(parser.document_version("b.nix"), Some(1));

    // A rejected update leaves the tracked state as it was.
    assert!(parser.update_document("ghost.nix", &[], "{}").is_err());
    assert_eq!(parser.document_version("a.nix"), Some(2));
    assert_eq!(parser.document_version("b.nix"), Some(1));
}
