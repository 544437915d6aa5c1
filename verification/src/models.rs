//! Data exchanged with the frontend, and how a response is assembled from the
//! settled records.

use crate::config::LoanConfig;
use crate::db::{self, Account, SpinResult, UserRow};
use crate::game::Outcome;
use vstd::prelude::*;

verus! {

/// `GET /user/info` – the complete profile and loan status.
#[derive(Debug)]
pub struct UserInfo {
    pub username: String,
    /// `["user"]`, or `["user", "admin"]` when the OIDC token grants it.
    pub roles: Vec<String>,
    pub balance: i64,
    pub total_spent: i64,
    pub total_profit: i64,
    pub highest_win_streak: i64,
    /// Number of loans taken.
    pub loans_taken: i64,
    /// Sum of the loans still owed.
    pub loans_value: i64,
    /// Loans taken within the current rolling window.
    pub loans_in_window: i64,
    /// Loans allowed per window.
    pub loans_max: i64,
    pub loans_window_seconds: i64,
    /// RFC 3339 time when the window frees up, or `None` below the limit.
    pub loans_reset_at: Option<String>,
}

/// `POST /spin` request body. The client only chooses the stake.
#[derive(Debug)]
pub struct SpinRequest {
    pub stake_amount: i64,
}

/// `POST /spin` response: the three reel symbols plus the authoritative new
/// balance and statistics.
#[derive(Debug)]
pub struct SpinResponse {
    /// Exactly three symbols (values 1..=7).
    pub reels: Vec<i32>,
    pub amount_earned: i64,
    pub balance: i64,
    pub total_spent: i64,
    pub total_profit: i64,
    pub highest_win_streak: i64,
}

/// `POST /loan/{amount}` response.
#[derive(Debug)]
pub struct LoanResponse {
    pub balance: i64,
    pub loans_value: i64,
    pub loans_taken: i64,
    pub loans_in_window: i64,
    pub loans_max: i64,
    pub loans_reset_at: Option<String>,
}

/// One row of the admin user table.
#[derive(Debug)]
pub struct AdminUserRow {
    pub id: i64,
    pub username: String,
    pub balance: i64,
    pub loans_value: i64,
    pub loans_taken: i64,
}

/// `GET /admin/userlist` response.
#[derive(Debug)]
pub struct AdminUserListResponse {
    pub users: Vec<AdminUserRow>,
}

/// `POST /admin/update/user` request body: only the given fields change.
#[derive(Debug)]
pub struct AdminUpdateUserRequest {
    pub id: i64,
    pub username: Option<String>,
    pub balance: Option<i64>,
    pub loans_value: Option<i64>,
    pub loans_taken: Option<i64>,
}

/// `POST /admin/update/user` response: the user as now stored.
#[derive(Debug)]
pub struct AdminUpdateUserResponse {
    pub id: i64,
    pub username: String,
    pub balance: i64,
    pub loans_value: i64,
    pub loans_taken: i64,
}

impl UserInfo {
    /// The dashboard of a user: the stored row, the caller's roles, the loan
    /// window (`(loans_in_window, loans_reset_at)`) and the loan rules.
    pub fn assemble(user: UserRow, roles: Vec<String>, window: (i64, Option<String>), cfg: &LoanConfig) -> (info: UserInfo)
        ensures
            info.username == user.username,
            info.roles == roles,
            info.balance == user.account.balance,
            info.total_spent == user.account.total_spent,
            info.total_profit == user.account.total_profit,
            info.highest_win_streak == user.account.highest_win_streak,
            info.loans_taken == user.account.loans_taken,
            info.loans_value == user.account.loans_value,
            info.loans_in_window == window.0,
            info.loans_max == cfg.max_per_window,
            info.loans_window_seconds == cfg.window_seconds,
            info.loans_reset_at == window.1,
    {
        UserInfo {
            username: user.username,
            roles,
            balance: user.account.balance,
            total_spent: user.account.total_spent,
            total_profit: user.account.total_profit,
            highest_win_streak: user.account.highest_win_streak,
            loans_taken: user.account.loans_taken,
            loans_value: user.account.loans_value,
            loans_in_window: window.0,
            loans_max: cfg.max_per_window,
            loans_window_seconds: cfg.window_seconds,
            loans_reset_at: window.1,
        }
    }
}

impl SpinResponse {
    /// The response to a spin: the rolled reels and payout, and the settled
    /// account figures.
    pub fn assemble(outcome: Outcome, result: SpinResult) -> (r: SpinResponse)
        ensures
            r.reels == outcome.reels,
            r.amount_earned == outcome.amount_earned,
            r.balance == result.balance,
            r.total_spent == result.total_spent,
            r.total_profit == result.total_profit,
            r.highest_win_streak == result.highest_win_streak,
    {
        SpinResponse {
            reels: outcome.reels,
            amount_earned: outcome.amount_earned,
            balance: result.balance,
            total_spent: result.total_spent,
            total_profit: result.total_profit,
            highest_win_streak: result.highest_win_streak,
        }
    }
}

impl LoanResponse {
    /// The response to a loan: the settled account, the loan window
    /// (`(loans_in_window, loans_reset_at)`) and the per-window limit.
    pub fn assemble(account: Account, window: (i64, Option<String>), cfg: &LoanConfig) -> (r: LoanResponse)
        ensures
            r.balance == account.balance,
            r.loans_value == account.loans_value,
            r.loans_taken == account.loans_taken,
            r.loans_in_window == window.0,
            r.loans_max == cfg.max_per_window,
            r.loans_reset_at == window.1,
    {
        LoanResponse {
            balance: account.balance,
            loans_value: account.loans_value,
            loans_taken: account.loans_taken,
            loans_in_window: window.0,
            loans_max: cfg.max_per_window,
            loans_reset_at: window.1,
        }
    }
}

impl AdminUpdateUserResponse {
    /// The response to an admin update: the user as now stored.
    pub fn assemble(row: UserRow) -> (r: AdminUpdateUserResponse)
        ensures
            r.id == row.id,
            r.username == row.username,
            r.balance == row.account.balance,
            r.loans_value == row.account.loans_value,
            r.loans_taken == row.account.loans_taken,
    {
        AdminUpdateUserResponse {
            id: row.id,
            username: row.username,
            balance: row.account.balance,
            loans_value: row.account.loans_value,
            loans_taken: row.account.loans_taken,
        }
    }
}

impl AdminUserListResponse {
    /// The admin table: one row per stored user, in the order given.
    pub fn from_rows(rows: Vec<db::AdminUserRow>) -> (r: AdminUserListResponse)
        ensures
            r.users@.len() == rows@.len(),
            forall|i: int|
                0 <= i < rows@.len() ==> (#[trigger] r.users@[i]).id == rows@[i].id
                    && r.users@[i].username == rows@[i].username && r.users@[i].balance
                    == rows@[i].balance && r.users@[i].loans_value == rows@[i].loans_value
                    && r.users@[i].loans_taken == rows@[i].loans_taken,
    {
        let mut users: Vec<AdminUserRow> = Vec::new();
        let mut i: usize = 0;
        while i < rows.len()
            invariant
                i <= rows@.len(),
                users@.len() == i,
                forall|k: int|
                    0 <= k < i ==> (#[trigger] users@[k]).id == rows@[k].id && users@[k].username
                        == rows@[k].username && users@[k].balance == rows@[k].balance
                        && users@[k].loans_value == rows@[k].loans_value && users@[k].loans_taken
                        == rows@[k].loans_taken,
            decreases rows@.len() - i,
        {
            let row = &rows[i];
            users.push(
                AdminUserRow {
                    id: row.id,
                    username: row.username.clone(),
                    balance: row.balance,
                    loans_value: row.loans_value,
                    loans_taken: row.loans_taken,
                },
            );
            i = i + 1;
        }
        AdminUserListResponse { users }
    }
}

} // verus!
