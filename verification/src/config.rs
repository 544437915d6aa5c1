//! Loan rules and how they are read from their configured values.

use crate::text::{opt_text, parse_i64, parsed_i64};
use vstd::prelude::*;

verus! {

/// Loan rules, configurable via the environment (`LOAN_MAX_PER_WINDOW`,
/// `LOAN_WINDOW_SECONDS`, `LOAN_MAX_AMOUNT`).
#[derive(Debug, Clone, Copy)]
pub struct LoanConfig {
    /// Maximum number of loans allowed within one rolling window.
    pub max_per_window: i64,
    /// Length of the rolling window, in seconds.
    pub window_seconds: i64,
    /// Maximum amount per individual loan.
    pub max_amount: i64,
}

/// Default maximum number of loans per window.
pub const DEFAULT_MAX_PER_WINDOW: i64 = 3;

/// Default window length: one day.
pub const DEFAULT_WINDOW_SECONDS: i64 = 86_400;

/// Default maximum amount per loan.
pub const DEFAULT_MAX_AMOUNT: i64 = 10_000;

/// A setting's value: the raw text parsed as an `i64` when that succeeds and
/// gives a positive number, else the default.
pub open spec fn setting_value(raw: Option<Seq<char>>, default: i64) -> i64 {
    match raw {
        Some(t) => match parsed_i64(t) {
            Some(v) => if v > 0 { v as i64 } else { default },
            None => default,
        },
        None => default,
    }
}

/// A positive integer setting from its raw text, or `default` when it is unset,
/// unparsable or not positive.
pub fn env_i64(raw: Option<&str>, default: i64) -> (v: i64)
    ensures
        v == setting_value(opt_text(raw), default),
{
    match raw {
        Some(text) => match parse_i64(text) {
            Some(v) => if v > 0 {
                v
            } else {
                default
            },
            None => default,
        },
        None => default,
    }
}

impl LoanConfig {
    /// The loan rules from the raw values of `LOAN_MAX_PER_WINDOW`,
    /// `LOAN_WINDOW_SECONDS` and `LOAN_MAX_AMOUNT` (`None` when unset); each
    /// falls back to its default (3, 86 400 s, 10 000) unless it is a positive
    /// integer. Every field of the result is positive.
    pub fn from_env(
        max_per_window: Option<&str>,
        window_seconds: Option<&str>,
        max_amount: Option<&str>,
    ) -> (cfg: LoanConfig)
        ensures
            cfg.max_per_window == setting_value(opt_text(max_per_window), DEFAULT_MAX_PER_WINDOW),
            cfg.window_seconds == setting_value(opt_text(window_seconds), DEFAULT_WINDOW_SECONDS),
            cfg.max_amount == setting_value(opt_text(max_amount), DEFAULT_MAX_AMOUNT),
            cfg.max_per_window > 0,
            cfg.window_seconds > 0,
            cfg.max_amount > 0,
    {
        LoanConfig {
            max_per_window: env_i64(max_per_window, DEFAULT_MAX_PER_WINDOW),
            window_seconds: env_i64(window_seconds, DEFAULT_WINDOW_SECONDS),
            max_amount: env_i64(max_amount, DEFAULT_MAX_AMOUNT),
        }
    }
}

/// Every setting read this way is positive when its default is.
pub proof fn lemma_setting_positive(raw: Option<Seq<char>>, default: i64)
    requires
        default > 0,
    ensures
        setting_value(raw, default) > 0,
{
}

} // verus!
