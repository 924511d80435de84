use isograph_schema::boulton_literals::{
    extract_b_declare_literal_from_file_content, extract_first_group_of_each_match,
    literals_of_captures, LiteralExtractionError, EXTRACT_BDECLARE,
};

#[test]
fn two_literals_are_extracted_in_source_order() {
    let content = "const a = bDeclare`field Foo.bar { baz }`;\nconst b = bDeclare`field Foo.bar { baz }`;";
    let literals = extract_b_declare_literal_from_file_content(content).unwrap();
    assert_eq!(
        literals,
        vec!["field Foo.bar { baz }".to_string(), "field Foo.bar { baz }".to_string()]
    );
}

#[test]
fn literals_keep_the_order_of_the_text() {
    let content = "bDeclare`first` and then bDeclare`second\nline` and bDeclare`third`";
    let literals = extract_b_declare_literal_from_file_content(content).unwrap();
    assert_eq!(
        literals,
        vec!["first".to_string(), "second\nline".to_string(), "third".to_string()]
    );
}

#[test]
fn text_without_literals_yields_nothing() {
    let literals = extract_b_declare_literal_from_file_content("const a = 1;").unwrap();
    assert!(literals.is_empty());
    let literals = extract_b_declare_literal_from_file_content("").unwrap();
    assert!(literals.is_empty());
}

#[test]
fn empty_backticks_are_no_literal() {
    let literals = extract_b_declare_literal_from_file_content("bDeclare`` bDeclare`x`").unwrap();
    assert_eq!(literals, vec!["x".to_string()]);
}

#[test]
fn an_unclosed_literal_is_not_extracted() {
    let literals = extract_b_declare_literal_from_file_content("bDeclare`field Foo.bar").unwrap();
    assert!(literals.is_empty());
}

#[test]
fn captures_that_are_all_present_become_literals() {
    let captures = vec![Some("a".to_string()), Some("b c".to_string())];
    assert_eq!(
        literals_of_captures(captures),
        Some(vec!["a".to_string(), "b c".to_string()])
    );
    assert_eq!(literals_of_captures(Vec::new()), Some(Vec::new()));
}

#[test]
fn a_missing_capture_yields_no_literals() {
    let captures = vec![Some("a".to_string()), None];
    assert_eq!(literals_of_captures(captures), None);
}

#[test]
fn extraction_errors_are_distinct() {
    assert_ne!(
        LiteralExtractionError::PatternRefused,
        LiteralExtractionError::ContentNotCaptured
    );
}

#[test]
fn a_pattern_that_is_no_regular_expression_is_refused() {
    assert_eq!(
        extract_first_group_of_each_match("bDeclare`([^`]+`", "bDeclare`x`"),
        Err(LiteralExtractionError::PatternRefused)
    );
    assert_eq!(
        extract_first_group_of_each_match("(", ""),
        Err(LiteralExtractionError::PatternRefused)
    );
}

#[test]
fn a_match_without_the_group_yields_no_literals() {
    assert_eq!(
        extract_first_group_of_each_match("a(b)?", "ab a"),
        Err(LiteralExtractionError::ContentNotCaptured)
    );
    assert_eq!(
        extract_first_group_of_each_match("abc", "abc"),
        Err(LiteralExtractionError::ContentNotCaptured)
    );
    assert_eq!(extract_first_group_of_each_match("abc", "xyz"), Ok(Vec::new()));
}

#[test]
fn the_first_group_of_each_match_is_extracted() {
    assert_eq!(
        extract_first_group_of_each_match("k=([0-9]+)(;?)", "k=1;k=22 k=x k=333"),
        Ok(vec!["1".to_string(), "22".to_string(), "333".to_string()])
    );
    assert_eq!(
        extract_first_group_of_each_match(EXTRACT_BDECLARE, "x bDeclare`a` y"),
        extract_b_declare_literal_from_file_content("x bDeclare`a` y")
    );
}

#[test]
fn the_content_is_not_the_whole_text() {
    let content = "bDeclare`field Foo.bar { baz }`";
    let literals = extract_b_declare_literal_from_file_content(content).unwrap();
    assert_eq!(literals.len(), 1);
    assert_ne!(literals[0], content);
    assert_eq!(literals[0], "field Foo.bar { baz }");
}
