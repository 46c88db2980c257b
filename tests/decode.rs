use docs_enricher::{
    decode_classification, decode_report, parse_category, parse_priority, DocumentType,
    ExtractionError, Priority,
};

#[test]
fn categories_parse_by_name() {
    assert_eq!(parse_category(&"tutorial".to_string()), Some(DocumentType::Tutorial));
    assert_eq!(parse_category(&"how-to".to_string()), Some(DocumentType::HowTo));
    assert_eq!(parse_category(&"explanation".to_string()), Some(DocumentType::Explanation));
    assert_eq!(parse_category(&"reference".to_string()), Some(DocumentType::Reference));
    assert_eq!(parse_category(&"Reference".to_string()), None);
    assert_eq!(parse_category(&"".to_string()), None);
}

#[test]
fn priorities_parse_by_name() {
    assert_eq!(parse_priority(&"low".to_string()), Some(Priority::Low));
    assert_eq!(parse_priority(&"urgent".to_string()), Some(Priority::Urgent));
    assert_eq!(parse_priority(&"critical".to_string()), None);
    assert_eq!(Priority::Medium.as_str(), "medium");
}

#[test]
fn classification_reply_is_checked() {
    let ok = decode_classification("reference".to_string(), "x.md".to_string()).unwrap();
    assert_eq!(ok.data_type, DocumentType::Reference);
    assert_eq!(ok.filepath, "x.md");
    let bad = decode_classification("guide".to_string(), "x.md".to_string());
    assert!(matches!(bad, Err(ExtractionError::SchemaMismatch(m)) if m == "guide"));
}

#[test]
fn report_reply_is_checked() {
    let issues = vec![
        ("high".to_string(), "no example".to_string()),
        ("low".to_string(), "typo".to_string()),
    ];
    let rep = decode_report("reference".to_string(), "a.mdx".to_string(), &issues).unwrap();
    assert_eq!(rep.issues.len(), 2);
    assert_eq!(rep.issues[0].priority, Priority::High);
    assert_eq!(rep.issues[1].content, "typo");
    let bad_issues = vec![
        ("high".to_string(), "a".to_string()),
        ("severe".to_string(), "b".to_string()),
        ("bogus".to_string(), "c".to_string()),
    ];
    let bad = decode_report("reference".to_string(), "a.mdx".to_string(), &bad_issues);
    assert!(matches!(bad, Err(ExtractionError::SchemaMismatch(m)) if m == "severe"));
    let empty = decode_report("tutorial".to_string(), "t.mdx".to_string(), &Vec::new()).unwrap();
    assert!(empty.issues.is_empty());
}
