//! Age of a token as text relative to a current time.
use vstd::prelude::*;
use crate::fixed::round_div;
use crate::numtext::{fixed_text, int_text, int_to_text, push_digits};
use crate::parse::{i64_text, parse_i64};

verus! {

/// Seconds since the Unix epoch of a `YYYY-MM-DDTHH:MM:SS` date and time,
/// read as UTC, or `None` when the text is not such a date and time.
pub uninterp spec fn datetime_seconds(s: Seq<char>) -> Option<i64>;

/// Relies on chrono's `NaiveDateTime::parse_from_str` with the format
/// `%Y-%m-%dT%H:%M:%S`, and `and_utc().timestamp()` on its result: the
/// outcome depends on the text alone.
#[verifier::external_body]
fn parse_local_datetime(s: &str) -> (r: Option<i64>)
    ensures
        r == datetime_seconds(s@),
{
    match chrono::NaiveDateTime::parse_from_str(s, "%Y-%m-%dT%H:%M:%S") {
        Ok(t) => Some(t.and_utc().timestamp()),
        Err(_) => None,
    }
}

/// Relies on chrono's `Utc::now` and `timestamp`: the current time in whole
/// seconds since the Unix epoch. Nothing is known of its value.
#[verifier::external_body]
fn now_seconds() -> (r: i64) {
    chrono::Utc::now().timestamp()
}

pub const SECONDS_PER_DAY: i128 = 86400;

/// `a / b` rounded toward zero.
pub open spec fn trunc_div(a: int, b: int) -> int {
    if a >= 0 {
        a / b
    } else {
        -((-a) / b)
    }
}

/// Whole days from `created` to `now`, both in seconds since the epoch;
/// negative when `created` lies ahead.
pub open spec fn elapsed_days(created: int, now: int) -> int {
    trunc_div(now - created, SECONDS_PER_DAY as int)
}

/// Above a year: years with one decimal; above a month: months (of 30 days)
/// with one decimal; else whole days.
pub open spec fn age_text(days: int) -> Seq<char> {
    if days > 365 {
        fixed_text(round_div(days * 10, 365) as nat, 1) + " years"@
    } else if days > 30 {
        fixed_text(round_div(days * 10, 30) as nat, 1) + " months"@
    } else {
        int_text(days) + " days"@
    }
}

/// What stands for an age that cannot be told.
pub open spec fn unknown_age() -> Seq<char> {
    "🔥"@
}

/// The age of a creation time (seconds since the epoch, if known) at `now`.
pub open spec fn age_at_text(created: Option<i64>, now: int) -> Seq<char> {
    match created {
        Some(c) => age_text(elapsed_days(c as int, now)),
        None => unknown_age(),
    }
}

/// The creation time that a timestamp text denotes: an integer count of
/// seconds since the epoch if it is one, else a `YYYY-MM-DDTHH:MM:SS` date.
pub open spec fn timestamp_of(s: Seq<char>) -> Option<i64> {
    match i64_text(s) {
        Some(v) => Some(v as i64),
        None => datetime_seconds(s),
    }
}

/// Text of an age in days; see `age_text`.
pub fn age_from_days(days: i64) -> (r: String)
    ensures
        r@ == age_text(days as int),
{
    let d = days as i128;
    let mut s = String::new();
    if d > 365 {
        let t = ((d * 10 + 182) / 365) as u128;
        push_one_decimal(&mut s, t);
        s.append(" years");
    } else if d > 30 {
        let t = ((d * 10 + 15) / 30) as u128;
        push_one_decimal(&mut s, t);
        s.append(" months");
    } else {
        let n = int_to_text(d);
        s.append(n.as_str());
        s.append(" days");
    }
    assert(s@ =~= age_text(days as int));
    s
}

fn push_one_decimal(s: &mut String, t: u128)
    ensures
        final(s)@ == old(s)@ + fixed_text(t as nat, 1),
{
    proof {
        reveal_with_fuel(crate::fixed::pow10, 2);
        reveal_strlit(".");
    }
    push_digits(s, t / 10);
    s.append(".");
    crate::numtext::push_padded(s, t % 10, 1);
    assert(s@ =~= old(s)@ + fixed_text(t as nat, 1));
}

/// Whole days from `created` to `now`; see `elapsed_days`.
pub fn days_between(created: i64, now: i64) -> (r: i64)
    ensures
        r == elapsed_days(created as int, now as int),
{
    let diff = now as i128 - created as i128;
    if diff >= 0 {
        (diff / SECONDS_PER_DAY) as i64
    } else {
        (-((-diff) / SECONDS_PER_DAY)) as i64
    }
}

/// The age of a creation time at `now`; see `age_at_text`.
pub fn age_at(created: Option<i64>, now: i64) -> (r: String)
    ensures
        r@ == age_at_text(created, now as int),
{
    match created {
        Some(c) => age_from_days(days_between(c, now)),
        None => {
            let mut s = String::new();
            s.append("🔥");
            assert(s@ =~= unknown_age());
            s
        },
    }
}

/// Reads a creation timestamp; see `timestamp_of`.
pub fn parse_timestamp(timestamp: &str) -> (r: Option<i64>)
    ensures
        r == timestamp_of(timestamp@),
{
    match parse_i64(timestamp) {
        Some(v) => Some(v),
        None => parse_local_datetime(timestamp),
    }
}

/// The age of a timestamp text at `now`.
pub fn relative_age_at(timestamp: &str, now: i64) -> (r: String)
    ensures
        r@ == age_at_text(timestamp_of(timestamp@), now as int),
{
    age_at(parse_timestamp(timestamp), now)
}

/// The age of a timestamp text at the current time.
pub fn relative_age(timestamp: &str) -> (r: String)
    ensures
        exists|now: i64| r@ == age_at_text(timestamp_of(timestamp@), now as int),
{
    let now = now_seconds();
    relative_age_at(timestamp, now)
}

} // verus!
