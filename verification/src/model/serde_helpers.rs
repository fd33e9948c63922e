//! Lenient time stamps: most responses carry epoch milliseconds as
//! numbers, but some carry text, such as a plain date and time or an
//! RFC 3339 time. Anything unreadable becomes 0 so that one bad row does
//! not spoil a whole list.

use vstd::prelude::*;
use crate::numtext::{i64_value, parse_i64};
use crate::text::{chars_of, string_of_range, trim, trim_bounds};

verus! {

/// Name for what chrono gives for `text` read as `%Y-%m-%d %H:%M:%S` and
/// taken as UTC: epoch milliseconds, or none when it does not read.
pub uninterp spec fn naive_utc_millis(text: Seq<char>) -> Option<i64>;

/// Name for what chrono gives for `text` read as an RFC 3339 time: epoch
/// milliseconds, or none when it does not read.
pub uninterp spec fn rfc3339_millis(text: Seq<char>) -> Option<i64>;

/// Reads `text` as `%Y-%m-%d %H:%M:%S` in UTC (chrono's
/// `NaiveDateTime::parse_from_str`, `and_utc`, `timestamp_millis`). The
/// result is named: `naive_utc_millis` of the text.
#[verifier::external_body]
fn naive_datetime_millis(text: &str) -> (r: Option<i64>)
    ensures
        r == naive_utc_millis(text@),
{
    match chrono::NaiveDateTime::parse_from_str(text, "%Y-%m-%d %H:%M:%S") {
        Ok(dt) => Some(dt.and_utc().timestamp_millis()),
        Err(_) => None,
    }
}

/// Reads `text` as an RFC 3339 time (chrono's
/// `DateTime::parse_from_rfc3339`, `timestamp_millis`). The result is
/// named: `rfc3339_millis` of the text.
#[verifier::external_body]
fn rfc3339_datetime_millis(text: &str) -> (r: Option<i64>)
    ensures
        r == rfc3339_millis(text@),
{
    match chrono::DateTime::parse_from_rfc3339(text) {
        Ok(dt) => Some(dt.timestamp_millis()),
        Err(_) => None,
    }
}

/// The time stamp a text gives: trimmed, empty is 0; then an integer, a
/// plain UTC date and time, or an RFC 3339 time, in that order; anything
/// else is 0.
pub open spec fn text_timestamp(s: Seq<char>) -> int {
    let t = trim(s);
    if t.len() == 0 {
        0
    } else if i64_value(t) is Some {
        i64_value(t).unwrap()
    } else if naive_utc_millis(t) is Some {
        naive_utc_millis(t).unwrap() as int
    } else if rfc3339_millis(t) is Some {
        rfc3339_millis(t).unwrap() as int
    } else {
        0
    }
}

/// The time stamp (epoch milliseconds) a text gives.
pub fn parse_lenient_timestamp_text(s: &str) -> (ms: i64)
    ensures
        ms == text_timestamp(s@),
{
    let v = chars_of(s);
    let (lo, hi) = trim_bounds(&v, 0, v.len());
    assert(v@.subrange(0, v@.len() as int) =~= s@);
    if lo == hi {
        return 0;
    }
    if let Some(n) = parse_i64(&v, lo, hi) {
        return n;
    }
    let t = string_of_range(&v, lo, hi);
    if let Some(ms) = naive_datetime_millis(t.as_str()) {
        return ms;
    }
    if let Some(ms) = rfc3339_datetime_millis(t.as_str()) {
        return ms;
    }
    0
}

/// A time stamp as it arrives: null, an integer (a fractional number is
/// cut to its integer part before it gets here), text, or anything else.
pub enum LenientValue {
    Null,
    Integer(i64),
    Text(String),
    Other,
}

/// The time stamp a value gives: null and other shapes are 0, an integer
/// is itself, text as `text_timestamp` reads it.
pub open spec fn lenient_value(v: LenientValue) -> int {
    match v {
        LenientValue::Null => 0,
        LenientValue::Integer(n) => n as int,
        LenientValue::Text(s) => text_timestamp(s@),
        LenientValue::Other => 0,
    }
}

/// The time stamp (epoch milliseconds) a value gives.
pub fn parse_lenient_timestamp(value: &LenientValue) -> (ms: i64)
    ensures
        ms == lenient_value(*value),
{
    match value {
        LenientValue::Null => 0,
        LenientValue::Integer(n) => *n,
        LenientValue::Text(s) => parse_lenient_timestamp_text(s.as_str()),
        LenientValue::Other => 0,
    }
}

} // verus!
