use grand_casino::error::AppError;
use grand_casino::validate::validate_username;

#[test]
fn accepts_valid() {
    assert!(validate_username("Alice_99").is_ok());
    assert!(validate_username("a.b-c").is_ok());
}

#[test]
fn rejects_bad() {
    assert!(validate_username("").is_err());
    assert!(validate_username(&"a".repeat(21)).is_err());
    assert!(validate_username("_leading").is_err());
    assert!(validate_username("bad space").is_err());
    assert!(validate_username("inject;drop").is_err());
}

fn message(r: Result<(), AppError>) -> String {
    match r {
        Err(AppError::BadRequest(m)) => m,
        other => panic!("expected a bad request, got {:?}", other),
    }
}

#[test]
fn length_bounds() {
    assert!(validate_username("a").is_ok());
    assert!(validate_username(&"b".repeat(20)).is_ok());
    assert_eq!(message(validate_username(&"b".repeat(21))), "username must be 1–20 characters");
    assert_eq!(message(validate_username("")), "username must be 1–20 characters");
}

#[test]
fn length_counts_characters() {
    // 20 characters, more than 20 bytes: refused for the umlaut, not the length.
    let name = format!("{}ä", "a".repeat(19));
    assert_eq!(
        message(validate_username(&name)),
        "username may only contain letters, digits, and . _ -"
    );
}

#[test]
fn first_character_rule() {
    assert_eq!(
        message(validate_username(".dot")),
        "username must start with a letter or digit"
    );
    assert!(validate_username("9lives").is_ok());
}

#[test]
fn character_set_rule() {
    assert_eq!(
        message(validate_username("semi;colon")),
        "username may only contain letters, digits, and . _ -"
    );
    assert!(validate_username("x-y_z.0").is_ok());
}
