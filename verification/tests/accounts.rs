use grand_casino::config::LoanConfig;
use grand_casino::db::{
    apply_admin_update, settle_loan, settle_spin, user_not_found, Account, AdminUserRow,
    SpinResult, UserRow,
};
use grand_casino::error::AppError;
use grand_casino::game::Outcome;
use grand_casino::models::{
    AdminUpdateUserRequest, AdminUpdateUserResponse, AdminUserListResponse, LoanResponse,
    SpinResponse, UserInfo,
};

fn account() -> Account {
    Account {
        balance: 100,
        total_spent: 20,
        total_profit: 5,
        win_streak: 2,
        highest_win_streak: 3,
        loans_value: 500,
        loans_taken: 1,
    }
}

fn overflow_text() -> &'static str {
    "database error: error returned from database: bigint out of range"
}

#[test]
fn winning_spin_settles_and_extends_streak() {
    let a = settle_spin(account(), 10, 50).expect("affordable");
    assert_eq!((a.balance, a.total_spent, a.total_profit), (140, 30, 45));
    assert_eq!((a.win_streak, a.highest_win_streak), (3, 3));
    let b = settle_spin(a, 10, 80).expect("affordable");
    assert_eq!((b.win_streak, b.highest_win_streak), (4, 4));
    assert_eq!((b.loans_value, b.loans_taken), (500, 1));
}

#[test]
fn spin_with_pair_keeps_balance_and_ends_streak() {
    let a = settle_spin(account(), 10, 10).expect("affordable");
    assert_eq!((a.balance, a.total_profit), (100, 5));
    assert_eq!((a.win_streak, a.highest_win_streak), (0, 3));
}

#[test]
fn losing_spin_costs_the_stake() {
    let a = settle_spin(account(), 10, 0).expect("affordable");
    assert_eq!((a.balance, a.total_spent, a.total_profit), (90, 30, -5));
}

#[test]
fn spin_beyond_balance_is_refused() {
    match settle_spin(account(), 101, 0) {
        Err(AppError::BadRequest(m)) => assert_eq!(m, "insufficient balance"),
        other => panic!("unexpected {:?}", other),
    }
    assert!(settle_spin(account(), 100, 0).is_ok());
}

#[test]
fn spin_overflow_is_internal() {
    let mut a = account();
    a.balance = i64::MAX;
    match settle_spin(a, 1, 2) {
        Err(AppError::Internal(m)) => assert_eq!(m, overflow_text()),
        other => panic!("unexpected {:?}", other),
    }
    let mut a = account();
    a.total_spent = i64::MAX;
    assert!(matches!(settle_spin(a, 1, 0), Err(AppError::Internal(_))));
}

#[test]
fn loans_credit_balance_and_value() {
    let a = settle_loan(account(), 250).unwrap();
    assert_eq!((a.balance, a.loans_value, a.loans_taken), (350, 750, 2));
    assert_eq!((a.total_spent, a.total_profit, a.highest_win_streak), (20, 5, 3));
    let mut big = account();
    big.balance = i64::MAX;
    match settle_loan(big, 1) {
        Err(AppError::Internal(m)) => assert_eq!(m, overflow_text()),
        other => panic!("unexpected {:?}", other),
    }
}

#[test]
fn admin_update_changes_only_given_fields() {
    let row = UserRow { id: 5, username: "old".into(), account: account() };
    let req = AdminUpdateUserRequest { id: 5, username: None, balance: Some(9999), loans_value: Some(0), loans_taken: None };
    let r = apply_admin_update(row, None, &req);
    assert_eq!(r.username, "old");
    assert_eq!((r.account.balance, r.account.loans_value, r.account.loans_taken), (9999, 0, 1));
    assert_eq!(r.account.total_spent, 20);
    let resp = AdminUpdateUserResponse::assemble(r);
    assert_eq!((resp.id, resp.username.as_str(), resp.balance, resp.loans_value, resp.loans_taken), (5, "old", 9999, 0, 1));
    let row = UserRow { id: 5, username: "old".into(), account: account() };
    let r = apply_admin_update(row, Some("neuer_name".into()), &req);
    assert_eq!(r.username, "neuer_name");
    match user_not_found(42) {
        AppError::NotFound(m) => assert_eq!(m, "user 42 not found"),
        other => panic!("unexpected {:?}", other),
    }
}

#[test]
fn responses_copy_the_records() {
    let cfg = LoanConfig { max_per_window: 3, window_seconds: 86_400, max_amount: 10_000 };
    let user = UserRow { id: 1, username: "alice".into(), account: account() };
    let info = UserInfo::assemble(user, vec!["user".to_string()], (3, Some("t".into())), &cfg);
    assert_eq!(info.username, "alice");
    assert_eq!((info.balance, info.total_spent, info.total_profit, info.highest_win_streak), (100, 20, 5, 3));
    assert_eq!((info.loans_taken, info.loans_value, info.loans_in_window), (1, 500, 3));
    assert_eq!((info.loans_max, info.loans_window_seconds), (3, 86_400));
    assert_eq!(info.loans_reset_at.as_deref(), Some("t"));
    let loan = LoanResponse::assemble(account(), (1, None), &cfg);
    assert_eq!((loan.balance, loan.loans_value, loan.loans_taken, loan.loans_in_window, loan.loans_max), (100, 500, 1, 1, 3));
    assert!(loan.loans_reset_at.is_none());
    let spin = SpinResponse::assemble(
        Outcome { reels: vec![7, 7, 3], amount_earned: 10 },
        SpinResult::of(&account()),
    );
    assert_eq!(spin.reels, vec![7, 7, 3]);
    assert_eq!((spin.amount_earned, spin.balance, spin.total_spent, spin.total_profit, spin.highest_win_streak), (10, 100, 20, 5, 3));
    let rows = vec![
        AdminUserRow { id: 1, username: "a".into(), balance: 1, loans_value: 0, loans_taken: 0 },
        AdminUserRow { id: 2, username: "b".into(), balance: 2, loans_value: 7, loans_taken: 1 },
    ];
    let list = AdminUserListResponse::from_rows(rows);
    assert_eq!(list.users.len(), 2);
    let u = &list.users[1];
    assert_eq!((u.id, u.username.as_str(), u.balance, u.loans_value, u.loans_taken), (2, "b", 2, 7, 1));
}

#[test]
fn spin_with_negative_stake_overflowing_the_balance_step_fails() {
    // balance - stake leaves the bigint range before the winnings come back.
    let a = Account { balance: i64::MAX - 5, ..account() };
    match settle_spin(a, -10, -20) {
        Err(AppError::Internal(m)) => assert_eq!(m, overflow_text()),
        other => panic!("unexpected {:?}", other),
    }
    assert!(settle_spin(a, -5, -20).is_ok());
}
