//! Input validation.

use crate::error::AppError;
use crate::text::{ascii_alnum, chars_of, decimal, decimal_text, is_ascii_alnum};
use vstd::prelude::*;

verus! {

/// Longest accepted username, in characters.
pub const MAX_USERNAME_LEN: usize = 20;

/// A character a username may contain: `A-Z a-z 0-9 . _ -`.
pub open spec fn is_username_char(c: char) -> bool {
    is_ascii_alnum(c) || c == '.' || c == '_' || c == '-'
}

/// Why a username is refused, or `None` when it is accepted. The checks run in
/// order: length, first character, then every character.
pub open spec fn username_problem(name: Seq<char>) -> Option<Seq<char>> {
    if name.len() == 0 || name.len() > MAX_USERNAME_LEN {
        Some("username must be 1–"@ + decimal(MAX_USERNAME_LEN as int) + " characters"@)
    } else if !is_ascii_alnum(name[0]) {
        Some("username must start with a letter or digit"@)
    } else if exists|i: int| 0 <= i < name.len() && !is_username_char(#[trigger] name[i]) {
        Some("username may only contain letters, digits, and . _ -"@)
    } else {
        None
    }
}

/// Validate a display username: 1–20 chars, must start with a letter or digit,
/// and only contain `A-Z a-z 0-9 . _ -`. Used for admin renames and as the
/// base check for registration. A refused name gives `BadRequest` with the
/// reason.
pub fn validate_username(name: &str) -> (r: Result<(), AppError>)
    ensures
        match r {
            Ok(()) => username_problem(name@) is None,
            Err(e) => e matches AppError::BadRequest(m) && username_problem(name@) == Some(m@),
        },
{
    let cs = chars_of(name);
    let len = cs.len();
    if len == 0 || len > MAX_USERNAME_LEN {
        let mut m = String::from_str("username must be 1–");
        let n = decimal_text(MAX_USERNAME_LEN as i64);
        m.append(n.as_str());
        m.append(" characters");
        return Err(AppError::BadRequest(m));
    }
    if !ascii_alnum(cs[0]) {
        return Err(AppError::BadRequest(String::from_str("username must start with a letter or digit")));
    }
    let mut i: usize = 0;
    while i < len
        invariant
            cs@ == name@,
            len == name@.len(),
            0 < len <= MAX_USERNAME_LEN,
            is_ascii_alnum(name@[0]),
            i <= len,
            forall|k: int| 0 <= k < i ==> is_username_char(#[trigger] name@[k]),
        decreases len - i,
    {
        let c = cs[i];
        if !(ascii_alnum(c) || c == '.' || c == '_' || c == '-') {
            assert(!is_username_char(name@[i as int]));
            assert(exists|k: int| 0 <= k < name@.len() && !is_username_char(#[trigger] name@[k]));
            return Err(
                AppError::BadRequest(
                    String::from_str("username may only contain letters, digits, and . _ -"),
                ),
            );
        }
        i = i + 1;
    }
    Ok(())
}

/// Which usernames are accepted, for every name: exactly those of 1 to 20
/// characters that start with an ASCII letter or digit and consist only of
/// ASCII letters of either case, digits, `.`, `_` and `-`.
pub proof fn lemma_username_accepted_exactly(name: Seq<char>)
    ensures
        username_problem(name) is None <==> {
            &&& 1 <= name.len() <= 20
            &&& ('A' <= name[0] && name[0] <= 'Z') || ('a' <= name[0] && name[0] <= 'z') || ('0'
                <= name[0] && name[0] <= '9')
            &&& forall|i: int|
                0 <= i < name.len() ==> ('A' <= #[trigger] name[i] && name[i] <= 'Z') || ('a'
                    <= name[i] && name[i] <= 'z') || ('0' <= name[i] && name[i] <= '9') || name[i]
                    == '.' || name[i] == '_' || name[i] == '-'
        },
{
    if username_problem(name) is None {
        assert forall|i: int| 0 <= i < name.len() implies is_username_char(#[trigger] name[i]) by {
            if !is_username_char(name[i]) {
                assert(exists|k: int| 0 <= k < name.len() && !is_username_char(#[trigger] name[k]));
            }
        }
    }
}

} // verus!
