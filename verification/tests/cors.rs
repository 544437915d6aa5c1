use grand_casino::cors::{cors_origins, is_header_value};

#[test]
fn origins_are_split_trimmed_and_checked() {
    let (ok, bad) = cors_origins(" http://localhost:8081 ,, https://casino.example\u{7f}, http://ä.example");
    assert_eq!(ok, vec!["http://localhost:8081", "http://ä.example"]);
    assert_eq!(bad, vec!["https://casino.example\u{7f}"]);
    let (ok, bad) = cors_origins(" , ");
    assert!(ok.is_empty() && bad.is_empty());
}

#[test]
fn header_value_characters() {
    assert!(is_header_value("a\tb c"));
    assert!(!is_header_value("a\nb"));
    assert!(is_header_value(""));
    for s in ["http://x", "a\u{1}b", "tab\there", "ü"] {
        assert_eq!(is_header_value(s), axum::http::HeaderValue::from_str(s).is_ok());
    }
}
