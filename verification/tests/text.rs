use grand_casino::text::{
    contains_text, decimal_text, parse_i64, split_comma_list, split_words, strip_trailing_char,
    to_lowercase, trim,
};

#[test]
fn comma_list_trims_and_drops_empty() {
    assert_eq!(split_comma_list(" roles , groups,,scope "), vec!["roles", "groups", "scope"]);
    assert_eq!(split_comma_list(""), Vec::<String>::new());
    assert_eq!(split_comma_list(",\t,"), Vec::<String>::new());
}

#[test]
fn words_split_at_spaces_and_commas() {
    assert_eq!(split_words("a b,c  d,"), vec!["a", "b", "c", "d"]);
    assert_eq!(split_words("single"), vec!["single"]);
}

#[test]
fn trim_removes_unicode_whitespace() {
    assert_eq!(trim("\u{3000} x y \n"), "x y");
    assert_eq!(trim("   "), "");
    assert_eq!(trim("abc"), "abc");
}

#[test]
fn strip_trailing_slashes() {
    assert_eq!(strip_trailing_char("https://k:8443//", '/'), "https://k:8443");
    assert_eq!(strip_trailing_char("///", '/'), "");
}

#[test]
fn substring_search() {
    assert!(contains_text("casino_admins", "admin"));
    assert!(!contains_text("adm", "admin"));
    assert!(contains_text("anything", ""));
}

#[test]
fn lowercase_and_numbers() {
    assert_eq!(to_lowercase("ÄdMIN"), "ädmin");
    assert_eq!(decimal_text(-42), "-42");
    assert_eq!(decimal_text(0), "0");
    assert_eq!(parse_i64("+17"), Some(17));
    assert_eq!(parse_i64("-3"), Some(-3));
    assert_eq!(parse_i64(" 3"), None);
    assert_eq!(parse_i64("99999999999999999999"), None);
}

#[test]
fn numbers_at_the_edges() {
    for n in [i64::MIN, i64::MIN + 1, -10, -9, 9, 10, 99, 100, i64::MAX] {
        assert_eq!(decimal_text(n), n.to_string());
        assert_eq!(parse_i64(&n.to_string()), Some(n));
    }
    assert_eq!(parse_i64("9223372036854775808"), None);
    assert_eq!(parse_i64("-9223372036854775809"), None);
    assert_eq!(parse_i64("-"), None);
    assert_eq!(parse_i64("+"), None);
    assert_eq!(parse_i64(""), None);
    assert_eq!(parse_i64("+-5"), None);
    assert_eq!(parse_i64("1_000"), None);
    assert_eq!(parse_i64("007"), Some(7));
    assert_eq!(parse_i64("١"), None);
}
