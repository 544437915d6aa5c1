//! Records kept per user, and the arithmetic that settles a spin or a loan on
//! a locked user row.

use crate::error::AppError;
use crate::models::AdminUpdateUserRequest;
use crate::game::{all_same, has_pair, lemma_payout_tiers, spec_payout, spec_triple_multiplier, REELS};
use crate::text::{decimal, decimal_text};
use vstd::prelude::*;

verus! {

/// The figures kept for a user's account.
#[derive(Debug, Clone, Copy)]
pub struct Account {
    pub balance: i64,
    /// Sum of all stakes.
    pub total_spent: i64,
    /// Sum over all spins of the winnings minus the stake.
    pub total_profit: i64,
    /// Winning spins (winnings above the stake) in a row, up to the last spin.
    pub win_streak: i64,
    /// Longest run of winning spins so far.
    pub highest_win_streak: i64,
    /// Sum of the loans still owed.
    pub loans_value: i64,
    /// Number of loans taken.
    pub loans_taken: i64,
}

/// A user row as stored in the database.
#[derive(Debug)]
pub struct UserRow {
    pub id: i64,
    pub username: String,
    pub account: Account,
}

/// The loans of a user within the rolling window.
#[derive(Debug, Clone, Copy)]
pub struct LoanStats {
    /// Loans taken within the window – drives the per-window limit.
    pub loans_in_window: i64,
    /// When the oldest of them was taken (Unix seconds and nanoseconds).
    pub oldest_in_window: Option<(i64, u32)>,
}

/// The figures a spin reports.
#[derive(Debug, Clone, Copy)]
pub struct SpinResult {
    pub balance: i64,
    pub total_spent: i64,
    pub total_profit: i64,
    pub highest_win_streak: i64,
}

/// One row of the admin user list.
#[derive(Debug)]
pub struct AdminUserRow {
    pub id: i64,
    pub username: String,
    pub balance: i64,
    pub loans_value: i64,
    pub loans_taken: i64,
}

/// The value fits in a database `bigint`.
pub open spec fn fits_bigint(v: int) -> bool {
    i64::MIN <= v <= i64::MAX
}

/// The message of the error a `bigint` overflow raises.
pub open spec fn overflow_message() -> Seq<char> {
    "database error: error returned from database: bigint out of range"@
}

/// The overflow error.
fn overflow() -> (e: AppError)
    ensures
        e matches AppError::Internal(m) && m@ == overflow_message(),
{
    AppError::Internal(
        String::from_str("database error: error returned from database: bigint out of range"),
    )
}

/// A spin wins when it pays more than the stake.
pub open spec fn is_win(stake: int, earned: int) -> bool {
    earned > stake
}

/// The balance after a spin: the stake taken, the winnings credited.
pub open spec fn settled_balance(balance: int, stake: int, earned: int) -> int {
    balance - stake + earned
}

/// The account after a spin, when every figure fits in a `bigint` (the balance
/// is first lowered by the stake, and that step must fit too): balance and
/// totals moved by the stake and the winnings; the streak grows on a win and
/// restarts at zero otherwise; the highest streak is the larger of the old one
/// and the new streak.
pub open spec fn spin_settlement(a: Account, stake: int, earned: int) -> Option<Account> {
    let balance = settled_balance(a.balance as int, stake, earned);
    let spent = a.total_spent + stake;
    let profit = a.total_profit + earned - stake;
    let streak = if is_win(stake, earned) { a.win_streak + 1 } else { 0 };
    let highest = if streak > a.highest_win_streak { streak } else { a.highest_win_streak as int };
    if fits_bigint(a.balance - stake) && fits_bigint(balance) && fits_bigint(spent) && fits_bigint(
        profit,
    ) && fits_bigint(streak) {
        Some(
            Account {
                balance: balance as i64,
                total_spent: spent as i64,
                total_profit: profit as i64,
                win_streak: streak as i64,
                highest_win_streak: highest as i64,
                loans_value: a.loans_value,
                loans_taken: a.loans_taken,
            },
        )
    } else {
        None
    }
}

/// Settle a spin on the locked account: refuse a stake above the balance with
/// `BadRequest("insufficient balance")`; otherwise the account of
/// `spin_settlement`. A figure that leaves the `bigint` range fails as the
/// database does.
pub fn settle_spin(account: Account, stake: i64, amount_earned: i64) -> (r: Result<
    Account,
    AppError,
>)
    ensures
        account.balance < stake ==> (r matches Err(AppError::BadRequest(m)) && m@
            == "insufficient balance"@),
        account.balance >= stake ==> match spin_settlement(account, stake as int, amount_earned as int) {
            Some(n) => r matches Ok(a) && a == n,
            None => r matches Err(AppError::Internal(m)) && m@ == overflow_message(),
        },
        r matches Ok(n) ==> n.highest_win_streak >= account.highest_win_streak,
        r matches Ok(n) ==> n.highest_win_streak == if n.win_streak > account.highest_win_streak {
            n.win_streak
        } else {
            account.highest_win_streak
        },
{
    if account.balance < stake {
        return Err(AppError::BadRequest(String::from_str("insufficient balance")));
    }
    let balance: i128 = account.balance as i128 - stake as i128 + amount_earned as i128;
    let spent: i128 = account.total_spent as i128 + stake as i128;
    let profit: i128 = account.total_profit as i128 + amount_earned as i128 - stake as i128;
    let streak: i128 = if amount_earned > stake {
        account.win_streak as i128 + 1
    } else {
        0
    };
    let lo: i128 = i64::MIN as i128;
    let hi: i128 = i64::MAX as i128;
    let after_stake: i128 = account.balance as i128 - stake as i128;
    if after_stake < lo || after_stake > hi || balance < lo || balance > hi || spent < lo || spent > hi
        || profit < lo || profit > hi || streak > hi {
        return Err(overflow());
    }
    let streak = streak as i64;
    let highest = if streak > account.highest_win_streak {
        streak
    } else {
        account.highest_win_streak
    };
    Ok(
        Account {
            balance: balance as i64,
            total_spent: spent as i64,
            total_profit: profit as i64,
            win_streak: streak,
            highest_win_streak: highest,
            loans_value: account.loans_value,
            loans_taken: account.loans_taken,
        },
    )
}

/// The account after a loan, when every figure fits in a `bigint`: the amount
/// credited to the balance and added to the value owed, one more loan taken.
pub open spec fn loan_settlement(a: Account, amount: int) -> Option<Account> {
    let balance = a.balance + amount;
    let value = a.loans_value + amount;
    let taken = a.loans_taken + 1;
    if fits_bigint(balance) && fits_bigint(value) && fits_bigint(taken) {
        Some(Account { balance: balance as i64, loans_value: value as i64, loans_taken: taken as i64, ..a })
    } else {
        None
    }
}

/// Record a loan on the locked account; a figure outside the `bigint` range
/// fails as the database does.
pub fn settle_loan(account: Account, amount: i64) -> (r: Result<Account, AppError>)
    ensures
        match loan_settlement(account, amount as int) {
            Some(n) => r matches Ok(a) && a == n,
            None => r matches Err(AppError::Internal(m)) && m@ == overflow_message(),
        },
{
    let balance = account.balance.checked_add(amount);
    let value = account.loans_value.checked_add(amount);
    let taken = account.loans_taken.checked_add(1);
    match (balance, value, taken) {
        (Some(b), Some(v), Some(t)) => Ok(
            Account { balance: b, loans_value: v, loans_taken: t, ..account },
        ),
        _ => Err(overflow()),
    }
}

/// The admin-set value of a field, or the current one when none is given.
pub open spec fn or_current(requested: Option<i64>, current: i64) -> i64 {
    match requested {
        Some(v) => v,
        None => current,
    }
}

/// A user after an admin update: only the given fields change (`username`
/// already checked and trimmed).
pub fn apply_admin_update(row: UserRow, username: Option<String>, req: &AdminUpdateUserRequest) -> (r: UserRow)
    ensures
        r.id == row.id,
        r.username == match username {
            Some(u) => u,
            None => row.username,
        },
        r.account == (Account {
            balance: or_current(req.balance, row.account.balance),
            loans_value: or_current(req.loans_value, row.account.loans_value),
            loans_taken: or_current(req.loans_taken, row.account.loans_taken),
            ..row.account
        }),
{
    let name = match username {
        Some(u) => u,
        None => row.username,
    };
    let a = row.account;
    let balance = match req.balance {
        Some(v) => v,
        None => a.balance,
    };
    let loans_value = match req.loans_value {
        Some(v) => v,
        None => a.loans_value,
    };
    let loans_taken = match req.loans_taken {
        Some(v) => v,
        None => a.loans_taken,
    };
    UserRow {
        id: row.id,
        username: name,
        account: Account { balance, loans_value, loans_taken, ..a },
    }
}

/// The error for an update of a user id that does not exist:
/// `NotFound("user <id> not found")`.
pub fn user_not_found(id: i64) -> (e: AppError)
    ensures
        e matches AppError::NotFound(m) && m@ == "user "@ + decimal(id as int) + " not found"@,
{
    let mut m = String::from_str("user ");
    let n = decimal_text(id);
    m.append(n.as_str());
    m.append(" not found");
    AppError::NotFound(m)
}

impl SpinResult {
    /// The figures of an account a spin reports.
    pub fn of(account: &Account) -> (r: SpinResult)
        ensures
            r.balance == account.balance,
            r.total_spent == account.total_spent,
            r.total_profit == account.total_profit,
            r.highest_win_streak == account.highest_win_streak,
    {
        SpinResult {
            balance: account.balance,
            total_spent: account.total_spent,
            total_profit: account.total_profit,
            highest_win_streak: account.highest_win_streak,
        }
    }
}

/// A spin settled with the server's payout never overdraws the account: for
/// an affordable positive stake the new balance is not negative; two of a kind
/// (and not three) leaves the balance unchanged, no match loses exactly the
/// stake, and three of a kind (the only win, which extends the streak) gains the stake times one less than the
/// multiplier.
pub proof fn lemma_spin_settlement(balance: int, stake: int, reels: Seq<i32>)
    requires
        0 < stake <= balance,
        reels.len() == REELS,
    ensures
        settled_balance(balance, stake, spec_payout(reels, stake)) >= 0,
        has_pair(reels) && !all_same(reels) ==> settled_balance(balance, stake, spec_payout(reels, stake)) == balance,
        !has_pair(reels) ==> settled_balance(balance, stake, spec_payout(reels, stake)) == balance - stake,
        all_same(reels) ==> settled_balance(balance, stake, spec_payout(reels, stake)) == balance
            + stake * (spec_triple_multiplier(reels[0]) - 1),
        is_win(stake, spec_payout(reels, stake)) <==> all_same(reels),
{
    lemma_payout_tiers(reels, stake);
    let m = spec_triple_multiplier(reels[0]);
    assert(stake * m - stake == stake * (m - 1)) by (nonlinear_arith);
}

/// What a settled spin does to the account, for every account, stake and
/// winnings that settle: the balance loses the stake and gains the winnings,
/// the stake is added to the total spent and the net gain to the total profit;
/// a win (winnings above the stake) extends the current streak by one and
/// anything else resets it to zero; the record streak becomes the larger of
/// the old record and the new streak, so it never goes down; loans are
/// untouched.
pub proof fn lemma_spin_moves_account(a: Account, stake: int, earned: int)
    requires
        spin_settlement(a, stake, earned) is Some,
    ensures
        ({
            let n = spin_settlement(a, stake, earned).unwrap();
            &&& n.balance == a.balance - stake + earned
            &&& n.total_spent == a.total_spent + stake
            &&& n.total_profit == a.total_profit + earned - stake
            &&& earned > stake ==> n.win_streak == a.win_streak + 1
            &&& earned <= stake ==> n.win_streak == 0
            &&& n.highest_win_streak >= a.highest_win_streak
            &&& n.highest_win_streak >= n.win_streak
            &&& (n.highest_win_streak == a.highest_win_streak || n.highest_win_streak
                == n.win_streak)
            &&& n.loans_value == a.loans_value
            &&& n.loans_taken == a.loans_taken
        }),
{
}

} // verus!
