//! The checks a request must pass before a spin or a loan is settled, and the
//! loan window shown to the user.

use crate::config::LoanConfig;
use crate::error::AppError;
use crate::identity::Identity;
use crate::models::AdminUpdateUserRequest;
use crate::text::{decimal, decimal_text, trim, trimmed};
use crate::validate::{username_problem, validate_username};
use vstd::prelude::*;

verus! {

/// A stake must be positive: otherwise `BadRequest("stake_amount must be
/// positive")`.
pub fn check_stake(stake: i64) -> (r: Result<(), AppError>)
    ensures
        stake > 0 ==> r is Ok,
        stake <= 0 ==> (r matches Err(AppError::BadRequest(m)) && m@
            == "stake_amount must be positive"@),
{
    if stake <= 0 {
        return Err(AppError::BadRequest(String::from_str("stake_amount must be positive")));
    }
    Ok(())
}

/// A stake must be affordable: a stake above the balance is refused with
/// `BadRequest("insufficient balance")`.
pub fn check_affordable(stake: i64, balance: i64) -> (r: Result<(), AppError>)
    ensures
        stake <= balance ==> r is Ok,
        stake > balance ==> (r matches Err(AppError::BadRequest(m)) && m@
            == "insufficient balance"@),
{
    if stake > balance {
        return Err(AppError::BadRequest(String::from_str("insufficient balance")));
    }
    Ok(())
}

/// A loan amount must lie in `1..=max_amount`: otherwise
/// `BadRequest("loan amount must be between 1 and <max_amount>")`.
pub fn check_loan_amount(amount: i64, cfg: &LoanConfig) -> (r: Result<(), AppError>)
    ensures
        1 <= amount <= cfg.max_amount ==> r is Ok,
        !(1 <= amount <= cfg.max_amount) ==> (r matches Err(AppError::BadRequest(m)) && m@
            == "loan amount must be between 1 and "@ + decimal(cfg.max_amount as int)),
{
    if amount <= 0 || amount > cfg.max_amount {
        let mut m = String::from_str("loan amount must be between 1 and ");
        let n = decimal_text(cfg.max_amount);
        m.append(n.as_str());
        return Err(AppError::BadRequest(m));
    }
    Ok(())
}

/// A loan is allowed while fewer than `max_per_window` loans were taken in the
/// current window: otherwise `TooManyRequests("loan limit of <max> per
/// <window>s reached")`.
pub fn check_loan_window(count: i64, cfg: &LoanConfig) -> (r: Result<(), AppError>)
    ensures
        count < cfg.max_per_window ==> r is Ok,
        count >= cfg.max_per_window ==> (r matches Err(AppError::TooManyRequests(m)) && m@
            == "loan limit of "@ + decimal(cfg.max_per_window as int) + " per "@ + decimal(
            cfg.window_seconds as int,
        ) + "s reached"@),
{
    if count >= cfg.max_per_window {
        let mut m = String::from_str("loan limit of ");
        let a = decimal_text(cfg.max_per_window);
        m.append(a.as_str());
        m.append(" per ");
        let b = decimal_text(cfg.window_seconds);
        m.append(b.as_str());
        m.append("s reached");
        return Err(AppError::TooManyRequests(m));
    }
    Ok(())
}

/// RFC 3339 text of a UTC instant given as seconds and nanoseconds since the
/// Unix epoch, as chrono's `DateTime::<Utc>::to_rfc3339` writes it.
pub uninterp spec fn rfc3339_text(secs: i64, nanos: u32) -> Seq<char>;

/// Earliest second chrono's `DateTime<Utc>` represents: January 1, 262143 BCE
/// (year -262143), 00:00:00.
pub const EARLIEST_SECS: i64 = -8_334_601_228_800;

/// Latest second chrono's `DateTime<Utc>` represents: December 31, 262142 CE,
/// 23:59:59.
pub const LATEST_SECS: i64 = 8_210_266_876_799;

/// `DateTime::from_timestamp(secs, nanos)` succeeds: the day lies in chrono's
/// date range, and the nanoseconds are below one second, or below two seconds
/// on the last second of a minute (a leap second).
pub open spec fn representable(secs: int, nanos: u32) -> bool {
    &&& EARLIEST_SECS <= secs <= LATEST_SECS
    &&& (nanos < 1_000_000_000 || (nanos < 2_000_000_000 && secs % 60 == 59))
}

/// Wrapper around chrono's `DateTime::from_timestamp` followed by
/// `to_rfc3339`: `from_timestamp` gives `None` exactly when the instant is not
/// `representable`, and the text of a representable instant is named
/// `rfc3339_text(secs, nanos)`.
#[verifier::external_body]
fn rfc3339_at(secs: i64, nanos: u32) -> (r: Option<String>)
    ensures
        r is Some <==> representable(secs as int, nanos),
        r matches Some(t) ==> t@ == rfc3339_text(secs, nanos),
{
    match chrono::DateTime::from_timestamp(secs, nanos) {
        Some(t) => Some(t.to_rfc3339()),
        None => None,
    }
}

/// When the loan window frees up again: at the limit, the oldest loan of the
/// window plus the window's length; below the limit (or with no loan on
/// record), never.
pub open spec fn reset_instant(count: i64, oldest: Option<(i64, u32)>, cfg: LoanConfig) -> Option<
    (int, u32),
> {
    if count >= cfg.max_per_window {
        match oldest {
            Some((secs, nanos)) => Some((secs + cfg.window_seconds, nanos)),
            None => None,
        }
    } else {
        None
    }
}

/// Loan-limit fields for a response: how many loans are used in the current
/// window (`count`, with `oldest` the instant of the oldest of them as Unix
/// seconds and nanoseconds) and, at the limit, the RFC 3339 time when the next
/// slot frees up.
pub fn loan_limit(count: i64, oldest: Option<(i64, u32)>, cfg: &LoanConfig) -> (r: (
    i64,
    Option<String>,
))
    requires
        count >= cfg.max_per_window && oldest is Some ==> cfg.window_seconds <= i64::MAX / 1000,
    ensures
        r.0 == count,
        reset_instant(count, oldest, *cfg) is None ==> r.1 is None,
        r.1 matches Some(t) ==> reset_instant(count, oldest, *cfg) matches Some((s, n)) && s
            <= i64::MAX && t@ == rfc3339_text(s as i64, n),
        match reset_instant(count, oldest, *cfg) {
            Some((s, n)) => if representable(s, n) {
                r.1 matches Some(t) && t@ == rfc3339_text(s as i64, n)
            } else {
                r.1 is None
            },
            None => true,
        },
{
    if count >= cfg.max_per_window {
        match oldest {
            Some((secs, nanos)) => match secs.checked_add(cfg.window_seconds) {
                Some(at) => (count, rfc3339_at(at, nanos)),
                None => (count, None),
            },
            None => (count, None),
        }
    } else {
        (count, None)
    }
}

/// A refused loan and a full window go together: the window check refuses a
/// loan exactly when a reset time is due (given a loan on record).
pub proof fn lemma_refusal_matches_reset(count: i64, oldest_secs: i64, nanos: u32, cfg: LoanConfig)
    ensures
        (count >= cfg.max_per_window) <==> reset_instant(count, Some((oldest_secs, nanos)), cfg) is Some,
{
}

/// The first reason an admin update is refused, or `None`: the new username,
/// trimmed, must be a valid username; balance, loans value and loans taken
/// must not be negative.
pub open spec fn admin_update_problem(req: AdminUpdateUserRequest) -> Option<Seq<char>> {
    let name_problem = match req.username {
        Some(u) => username_problem(trimmed(u@)),
        None => None,
    };
    if name_problem is Some {
        name_problem
    } else if req.balance matches Some(b) && b < 0 {
        Some("balance must not be negative"@)
    } else if req.loans_value matches Some(v) && v < 0 {
        Some("loans_value must not be negative"@)
    } else if req.loans_taken matches Some(c) && c < 0 {
        Some("loans_taken must not be negative"@)
    } else {
        None
    }
}

/// Check an admin's update of a user. A refused update is a `BadRequest` with
/// the reason; an accepted one gives the trimmed new username, if any.
pub fn check_admin_update(req: &AdminUpdateUserRequest) -> (r: Result<Option<String>, AppError>)
    ensures
        match admin_update_problem(*req) {
            Some(p) => r matches Err(AppError::BadRequest(m)) && m@ == p,
            None => r matches Ok(name) && match req.username {
                Some(u) => name matches Some(n) && n@ == trimmed(u@),
                None => name is None,
            },
        },
{
    let name = match &req.username {
        Some(u) => {
            let t = trim(u.as_str());
            match validate_username(t) {
                Ok(()) => {},
                Err(e) => return Err(e),
            }
            Some(String::from_str(t))
        },
        None => None,
    };
    if let Some(b) = req.balance {
        if b < 0 {
            return Err(AppError::BadRequest(String::from_str("balance must not be negative")));
        }
    }
    if let Some(v) = req.loans_value {
        if v < 0 {
            return Err(AppError::BadRequest(String::from_str("loans_value must not be negative")));
        }
    }
    if let Some(c) = req.loans_taken {
        if c < 0 {
            return Err(AppError::BadRequest(String::from_str("loans_taken must not be negative")));
        }
    }
    Ok(name)
}


/// An admin's update of a user, as the admin endpoint takes it: the caller's
/// admin role is checked first, so a caller without it is refused with
/// `Forbidden("admin role required")` whatever the request holds; an admin's
/// request is then checked as `check_admin_update` does.
pub fn admin_update_check(caller: &Identity, req: &AdminUpdateUserRequest) -> (r: Result<
    Option<String>,
    AppError,
>)
    ensures
        !caller.is_admin ==> (r matches Err(AppError::Forbidden(m)) && m@
            == "admin role required"@),
        caller.is_admin ==> match admin_update_problem(*req) {
            Some(p) => r matches Err(AppError::BadRequest(m)) && m@ == p,
            None => r matches Ok(name) && match req.username {
                Some(u) => name matches Some(n) && n@ == trimmed(u@),
                None => name is None,
            },
        },
{
    match caller.require_admin() {
        Ok(()) => {},
        Err(e) => return Err(e),
    }
    check_admin_update(req)
}

/// What an admin update may carry, for every request: an accepted update has
/// a valid (trimmed) username if it renames, and no negative balance, loans
/// value or loans taken; each negative figure is refused on its own, whatever
/// else the request holds; and once the username, balance and loans value
/// pass, a negative loans taken is refused as such.
pub proof fn lemma_admin_update_figures(req: AdminUpdateUserRequest)
    ensures
        admin_update_problem(req) is None ==> {
            &&& req.username is Some ==> username_problem(trimmed(req.username.unwrap()@)) is None
            &&& req.balance is Some ==> req.balance.unwrap() >= 0
            &&& req.loans_value is Some ==> req.loans_value.unwrap() >= 0
            &&& req.loans_taken is Some ==> req.loans_taken.unwrap() >= 0
        },
        req.balance is Some && req.balance.unwrap() < 0 ==> admin_update_problem(req) is Some,
        req.loans_value is Some && req.loans_value.unwrap() < 0 ==> admin_update_problem(req) is Some,
        req.loans_taken is Some && req.loans_taken.unwrap() < 0 ==> admin_update_problem(req) is Some,
        ({
            &&& req.username is Some ==> username_problem(trimmed(req.username.unwrap()@)) is None
            &&& req.balance is Some ==> req.balance.unwrap() >= 0
            &&& req.loans_value is Some ==> req.loans_value.unwrap() >= 0
            &&& req.loans_taken is Some && req.loans_taken.unwrap() < 0
        }) ==> admin_update_problem(req) == Some("loans_taken must not be negative"@),
{
}

} // verus!
