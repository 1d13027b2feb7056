//! Date strings and their ordering.
//!
//! The engine keeps dates as "YYYY-MM-DD" strings and compares them
//! lexicographically, exactly as the surrounding application does. Calendar
//! arithmetic (parsing a date string, taking the difference in days) is done
//! by chrono behind trusted wrappers; everything else here is verified.

use chrono::Datelike;
use vstd::prelude::*;

verus! {

/// Lexicographic order on character sequences, by code point. For `String`
/// values this coincides with Rust's own ordering on strings, which compares
/// UTF-8 bytes: UTF-8 preserves the order of code points.
pub open spec fn lex_le(a: Seq<char>, b: Seq<char>) -> bool
    decreases a.len(),
{
    if a.len() == 0 {
        true
    } else if b.len() == 0 {
        false
    } else if (a[0] as u32) < (b[0] as u32) {
        true
    } else if (a[0] as u32) > (b[0] as u32) {
        false
    } else {
        lex_le(a.drop_first(), b.drop_first())
    }
}

proof fn lemma_lex_le_unfold_at(a: Seq<char>, b: Seq<char>, i: int)
    requires
        0 <= i < a.len(),
        0 <= i < b.len(),
    ensures
        (a[i] as u32) < (b[i] as u32) ==> lex_le(a.skip(i), b.skip(i)),
        (a[i] as u32) > (b[i] as u32) ==> !lex_le(a.skip(i), b.skip(i)),
        (a[i] as u32) == (b[i] as u32) ==> lex_le(a.skip(i), b.skip(i)) == lex_le(
            a.skip(i + 1),
            b.skip(i + 1),
        ),
{
    assert(a.skip(i)[0] == a[i]);
    assert(b.skip(i)[0] == b[i]);
    assert(a.skip(i).drop_first() =~= a.skip(i + 1));
    assert(b.skip(i).drop_first() =~= b.skip(i + 1));
}

/// Whether `a` comes no later than `b` in lexicographic order.
pub fn str_le(a: &str, b: &str) -> (r: bool)
    ensures
        r == lex_le(a@, b@),
{
    let alen = a.unicode_len();
    let blen = b.unicode_len();
    let mut i: usize = 0;
    proof {
        assert(a@.skip(0) =~= a@);
        assert(b@.skip(0) =~= b@);
    }
    while i < alen && i < blen
        invariant
            i <= alen,
            i <= blen,
            alen == a@.len(),
            blen == b@.len(),
            lex_le(a@, b@) == lex_le(a@.skip(i as int), b@.skip(i as int)),
        decreases alen - i,
    {
        let ca = a.get_char(i);
        let cb = b.get_char(i);
        proof {
            lemma_lex_le_unfold_at(a@, b@, i as int);
        }
        if (ca as u32) < (cb as u32) {
            return true;
        }
        if (ca as u32) > (cb as u32) {
            return false;
        }
        i = i + 1;
    }
    proof {
        if i == alen {
            assert(a@.skip(i as int).len() == 0);
        } else {
            assert(b@.skip(i as int).len() == 0);
            assert(a@.skip(i as int).len() > 0);
        }
    }
    i == alen
}

/// Whether `a` and `b` hold the same characters.
pub fn str_eq(a: &str, b: &str) -> (r: bool)
    ensures
        r == (a@ == b@),
{
    let alen = a.unicode_len();
    let blen = b.unicode_len();
    if alen != blen {
        return false;
    }
    let mut i: usize = 0;
    while i < alen
        invariant
            i <= alen,
            alen == a@.len(),
            alen == b@.len(),
            forall|j: int| 0 <= j < i ==> a@[j] == b@[j],
        decreases alen - i,
    {
        let ca = a.get_char(i);
        let cb = b.get_char(i);
        if ca != cb {
            return false;
        }
        i = i + 1;
    }
    proof {
        assert(a@ =~= b@);
    }
    true
}

/// The day number of the calendar date written in `s` as "YYYY-MM-DD"
/// (what chrono accepts for the format "%Y-%m-%d"), or `None` when `s`
/// does not parse in that format. Only differences of these day numbers
/// are ever stated.
pub uninterp spec fn ymd_day(s: Seq<char>) -> Option<int>;

/// Relies on chrono's `NaiveDate::parse_from_str` (format "%Y-%m-%d"),
/// `NaiveDate::signed_duration_since` and `TimeDelta::num_days`: both calls
/// parse or fail by the strings alone, and the difference of two parsed
/// dates is their distance in whole days, always in range for `i64`.
#[verifier::external_body]
pub(crate) fn days_between(current: &str, completed: &str) -> (r: Option<i64>)
    ensures
        r is Some <==> (ymd_day(current@) is Some && ymd_day(completed@) is Some),
        r is Some ==> r->Some_0 as int == ymd_day(current@)->Some_0 - ymd_day(
            completed@,
        )->Some_0,
{
    let cur = chrono::NaiveDate::parse_from_str(current, "%Y-%m-%d");
    let done = chrono::NaiveDate::parse_from_str(completed, "%Y-%m-%d");
    match (cur, done) {
        (Ok(cur), Ok(done)) => Some(cur.signed_duration_since(done).num_days()),
        _ => None,
    }
}

/// The day number, counted from the common era, of the calendar date
/// written in `s` as "MM.DD.YYYY" (what chrono accepts for the format
/// "%m.%d.%Y"), or `None` when `s` does not parse in that format.
pub uninterp spec fn mdy_day(s: Seq<char>) -> Option<int>;

/// Relies on chrono's `NaiveDate::parse_from_str` (format "%m.%d.%Y") and
/// `Datelike::num_days_from_ce`: the call parses or fails by the string
/// alone, and a parsed date's day count from the common era fits in `i32`.
#[verifier::external_body]
pub(crate) fn mdy_day_number(s: &str) -> (r: Option<i32>)
    ensures
        r is Some <==> mdy_day(s@) is Some,
        r is Some ==> r->Some_0 as int == mdy_day(s@)->Some_0,
{
    match chrono::NaiveDate::parse_from_str(s, "%m.%d.%Y") {
        Ok(d) => Some(d.num_days_from_ce()),
        Err(_) => None,
    }
}

/// Relies on chrono's `Local::now` and its "%Y-%m-%d" formatting: the
/// local calendar date as a string. The result depends on the clock, so
/// nothing is promised of it.
#[verifier::external_body]
pub(crate) fn local_today() -> String {
    chrono::Local::now().format("%Y-%m-%d").to_string()
}

/// Relies on chrono's `Local::now`, `TimeDelta::days` and
/// `DateTime::checked_sub_signed`: the local calendar date `n` days ago,
/// formatted "YYYY-MM-DD", or `None` when the subtraction leaves chrono's
/// supported range. The result depends on the clock, so nothing more is
/// promised. `TimeDelta::days` panics only far outside the bound required
/// here.
#[verifier::external_body]
pub(crate) fn local_days_ago(n: i64) -> (r: Option<String>)
    requires
        0 <= n <= 366,
{
    match chrono::Local::now().checked_sub_signed(chrono::TimeDelta::days(n)) {
        Some(d) => Some(d.format("%Y-%m-%d").to_string()),
        None => None,
    }
}

} // verus!
