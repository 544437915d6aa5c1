//! Which configured origins may make cross-origin requests.

use crate::text::{chars_of, comma_list, split_comma_list, views};
use vstd::prelude::*;

verus! {

/// A character an HTTP header value may hold: tab, or anything from space up
/// except DEL (every byte of a non-ASCII character is at least 0x80).
pub open spec fn header_char_ok(c: char) -> bool {
    c == '\t' || (32 <= c as u32 && c as u32 != 127)
}

/// The text is a valid HTTP header value (`HeaderValue::from_str` accepts it).
pub open spec fn header_value_ok(s: Seq<char>) -> bool {
    forall|i: int| 0 <= i < s.len() ==> header_char_ok(#[trigger] s[i])
}

/// The texts of a list that are (`valid`) or are not (`!valid`) header values,
/// in order.
pub open spec fn by_validity(ps: Seq<Seq<char>>, valid: bool) -> Seq<Seq<char>>
    decreases ps.len(),
{
    if ps.len() == 0 {
        Seq::empty()
    } else if header_value_ok(ps.last()) == valid {
        by_validity(ps.drop_last(), valid).push(ps.last())
    } else {
        by_validity(ps.drop_last(), valid)
    }
}

/// Whether the text is a valid HTTP header value.
pub fn is_header_value(s: &str) -> (b: bool)
    ensures
        b == header_value_ok(s@),
{
    let cs = chars_of(s);
    let mut i: usize = 0;
    while i < cs.len()
        invariant
            cs@ == s@,
            i <= cs@.len(),
            forall|k: int| 0 <= k < i ==> header_char_ok(#[trigger] s@[k]),
        decreases cs@.len() - i,
    {
        let c = cs[i];
        let u = c as u32;
        if !(c == '\t' || (32 <= u && u != 127)) {
            assert(!header_char_ok(s@[i as int]));
            return false;
        }
        i = i + 1;
    }
    true
}

/// The configured origins (`CORS_ALLOWED_ORIGINS`, comma separated, trimmed,
/// empty entries dropped), split into those that are valid header values and
/// those that are not, each in order.
pub fn cors_origins(raw: &str) -> (r: (Vec<String>, Vec<String>))
    ensures
        views(r.0@) == by_validity(comma_list(raw@), true),
        views(r.1@) == by_validity(comma_list(raw@), false),
{
    let all = split_comma_list(raw);
    let ghost ps = views(all@);
    let mut ok: Vec<String> = Vec::new();
    let mut bad: Vec<String> = Vec::new();
    let mut i: usize = 0;
    assert(ps.take(0) =~= Seq::<Seq<char>>::empty());
    assert(views(ok@) =~= Seq::<Seq<char>>::empty());
    assert(views(bad@) =~= Seq::<Seq<char>>::empty());
    while i < all.len()
        invariant
            ps == views(all@),
            i <= all@.len(),
            views(ok@) == by_validity(ps.take(i as int), true),
            views(bad@) == by_validity(ps.take(i as int), false),
        decreases all@.len() - i,
    {
        let o = &all[i];
        proof {
            assert(ps.take(i + 1).drop_last() =~= ps.take(i as int));
            assert(ps.take(i + 1).last() == o@);
        }
        if is_header_value(o.as_str()) {
            let ghost before = views(ok@);
            ok.push(o.clone());
            assert(views(ok@) =~= before.push(o@));
        } else {
            let ghost before = views(bad@);
            bad.push(o.clone());
            assert(views(bad@) =~= before.push(o@));
        }
        i = i + 1;
    }
    assert(ps.take(all@.len() as int) =~= ps);
    (ok, bad)
}

} // verus!
