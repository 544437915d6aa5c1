use grand_casino::config::{env_i64, LoanConfig};

#[test]
fn defaults_when_unset() {
    let c = LoanConfig::from_env(None, None, None);
    assert_eq!((c.max_per_window, c.window_seconds, c.max_amount), (3, 86_400, 10_000));
}

#[test]
fn configured_values_are_used() {
    let c = LoanConfig::from_env(Some("5"), Some("3600"), Some("+250"));
    assert_eq!((c.max_per_window, c.window_seconds, c.max_amount), (5, 3600, 250));
}

#[test]
fn invalid_or_non_positive_values_fall_back() {
    let c = LoanConfig::from_env(Some("0"), Some("-60"), Some("lots"));
    assert_eq!((c.max_per_window, c.window_seconds, c.max_amount), (3, 86_400, 10_000));
    assert_eq!(env_i64(Some(" 7"), 1), 1);
    assert_eq!(env_i64(Some("7"), 1), 7);
}
