use grand_casino::rules::{EARLIEST_SECS, LATEST_SECS};
use grand_casino::config::LoanConfig;
use grand_casino::error::AppError;
use grand_casino::models::AdminUpdateUserRequest;
use grand_casino::identity::Identity;
use grand_casino::rules::{
    admin_update_check, check_admin_update, check_affordable, check_loan_amount, check_loan_window,
    check_stake, loan_limit,
};

fn cfg() -> LoanConfig {
    LoanConfig { max_per_window: 3, window_seconds: 86_400, max_amount: 10_000 }
}

#[test]
fn stake_must_be_positive() {
    assert!(check_stake(1).is_ok());
    match check_stake(0) {
        Err(AppError::BadRequest(m)) => assert_eq!(m, "stake_amount must be positive"),
        other => panic!("unexpected {:?}", other),
    }
    assert!(check_stake(-5).is_err());
}

#[test]
fn loan_amount_bounds() {
    assert!(check_loan_amount(1, &cfg()).is_ok());
    assert!(check_loan_amount(10_000, &cfg()).is_ok());
    for bad in [0, -1, 10_001] {
        match check_loan_amount(bad, &cfg()) {
            Err(AppError::BadRequest(m)) => assert_eq!(m, "loan amount must be between 1 and 10000"),
            other => panic!("unexpected {:?}", other),
        }
    }
}

#[test]
fn loan_window_limit() {
    assert!(check_loan_window(2, &cfg()).is_ok());
    match check_loan_window(3, &cfg()) {
        Err(AppError::TooManyRequests(m)) => assert_eq!(m, "loan limit of 3 per 86400s reached"),
        other => panic!("unexpected {:?}", other),
    }
}

#[test]
fn reset_time_only_at_limit() {
    assert_eq!(loan_limit(2, Some((1_431_561_600, 0)), &cfg()), (2, None));
    assert_eq!(loan_limit(3, None, &cfg()), (3, None));
    assert_eq!(
        loan_limit(3, Some((1_431_561_600, 0)), &cfg()),
        (3, Some("2015-05-15T00:00:00+00:00".to_string()))
    );
    assert_eq!(
        loan_limit(4, Some((1_431_561_600, 500_000_000)), &cfg()),
        (4, Some("2015-05-15T00:00:00.500+00:00".to_string()))
    );
}

fn req(username: Option<&str>, balance: Option<i64>, loans_value: Option<i64>, loans_taken: Option<i64>) -> AdminUpdateUserRequest {
    AdminUpdateUserRequest { id: 1, username: username.map(str::to_string), balance, loans_value, loans_taken }
}

fn refusal(r: Result<Option<String>, AppError>) -> String {
    match r {
        Err(AppError::BadRequest(m)) => m,
        other => panic!("unexpected {:?}", other),
    }
}

#[test]
fn admin_update_checks() {
    assert_eq!(check_admin_update(&req(Some("  new_name "), Some(0), None, None)).unwrap(), Some("new_name".to_string()));
    assert_eq!(check_admin_update(&req(None, None, Some(0), Some(0))).unwrap(), None);
    assert_eq!(refusal(check_admin_update(&req(Some("ok"), Some(-1), None, None))), "balance must not be negative");
    assert_eq!(refusal(check_admin_update(&req(None, None, Some(-1), None))), "loans_value must not be negative");
    assert_eq!(refusal(check_admin_update(&req(None, None, None, Some(-1)))), "loans_taken must not be negative");
    assert_eq!(refusal(check_admin_update(&req(Some("bad name"), None, None, None))), "username may only contain letters, digits, and . _ -");
}

#[test]
fn reset_time_only_when_chrono_can_write_it() {
    assert_eq!(chrono::DateTime::<chrono::Utc>::MIN_UTC.timestamp(), EARLIEST_SECS);
    assert_eq!(chrono::DateTime::<chrono::Utc>::MAX_UTC.timestamp(), LATEST_SECS);
    let c = LoanConfig { max_per_window: 1, window_seconds: 1, max_amount: 1 };
    assert!(loan_limit(1, Some((LATEST_SECS - 1, 0)), &c).1.is_some());
    assert!(loan_limit(1, Some((LATEST_SECS, 0)), &c).1.is_none());
    assert!(loan_limit(1, Some((EARLIEST_SECS - 1, 0)), &c).1.is_some());
    assert!(loan_limit(1, Some((EARLIEST_SECS - 2, 0)), &c).1.is_none());
    assert!(loan_limit(1, Some((58, 1_500_000_000)), &c).1.is_some());
    assert!(loan_limit(1, Some((59, 1_500_000_000)), &c).1.is_none());
    assert!(loan_limit(1, Some((0, 1_000_000_000)), &c).1.is_none());
}

#[test]
fn stake_must_be_affordable() {
    assert!(check_affordable(100, 100).is_ok());
    assert!(check_affordable(1, 100).is_ok());
    match check_affordable(101, 100) {
        Err(AppError::BadRequest(m)) => assert_eq!(m, "insufficient balance"),
        other => panic!("unexpected {:?}", other),
    }
    assert!(check_affordable(i64::MAX, 0).is_err());
}

fn caller(is_admin: bool) -> Identity {
    Identity {
        subject: "sub".to_string(),
        appname: "alice".to_string(),
        email: None,
        is_admin,
        roles: vec!["user".to_string()],
    }
}

#[test]
fn admin_update_requires_the_admin_role_first() {
    let bad = req(Some("x"), Some(-1), None, None);
    match admin_update_check(&caller(false), &bad) {
        Err(AppError::Forbidden(m)) => assert_eq!(m, "admin role required"),
        other => panic!("unexpected {:?}", other),
    }
    match admin_update_check(&caller(false), &req(Some("bob"), None, None, None)) {
        Err(AppError::Forbidden(m)) => assert_eq!(m, "admin role required"),
        other => panic!("unexpected {:?}", other),
    }
    assert_eq!(refusal(admin_update_check(&caller(true), &req(None, Some(-1), None, None))), "balance must not be negative");
    assert_eq!(admin_update_check(&caller(true), &req(Some("  bob "), None, None, None)).unwrap(), Some("bob".to_string()));
}

#[test]
fn reset_time_absent_when_window_end_overflows() {
    let c = LoanConfig { max_per_window: 1, window_seconds: 86_400, max_amount: 10 };
    assert_eq!(loan_limit(1, Some((i64::MAX - 10, 0)), &c), (1, None));
}
