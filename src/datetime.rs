//! Timestamps: reading RFC 3339 source times through `chrono`, and rendering
//! them in the analytical store's `YYYY-MM-DD HH:MM:SS.mmm` form.

use vstd::prelude::*;
use chrono::{Datelike, Timelike};
use crate::text::{zero_padded, zero_padded_string};

verus! {

/// A calendar date and wall-clock time, as `chrono` reports its fields.
#[derive(Debug, Clone, Copy, PartialEq, Eq)]
pub struct DateParts {
    pub year: i32,
    pub month: u32,
    pub day: u32,
    pub hour: u32,
    pub minute: u32,
    pub second: u32,
    /// Nanoseconds past the second; from one second upwards it marks a leap second.
    pub nanosecond: u32,
}

/// The local date and time that an RFC 3339 text denotes, if it is one.
pub uninterp spec fn rfc3339_parts(s: Seq<char>) -> Option<DateParts>;

/// Relies on `chrono::DateTime::parse_from_rfc3339`: the result depends on the
/// text alone; the fields are read in the text's own offset.
#[verifier::external_body]
fn parse_rfc3339(s: &str) -> (r: Option<DateParts>)
    ensures
        r == rfc3339_parts(s@),
{
    chrono::DateTime::parse_from_rfc3339(s).ok().map(
        |t| DateParts {
            year: t.year(),
            month: t.month(),
            day: t.day(),
            hour: t.hour(),
            minute: t.minute(),
            second: t.second(),
            nanosecond: t.nanosecond(),
        },
    )
}

/// A year in four digits; outside `0..=9999` with a sign in front.
pub open spec fn year_text(y: int) -> Seq<char> {
    if 0 <= y <= 9999 {
        zero_padded(y as nat, 4)
    } else if y < 0 {
        "-"@ + zero_padded((-y) as nat, 4)
    } else {
        "+"@ + zero_padded(y as nat, 4)
    }
}

/// `YYYY-MM-DD HH:MM:SS.mmm`, with a leap second shown as second 60 and the
/// sub-second part truncated to milliseconds.
pub open spec fn store_time_text(p: DateParts) -> Seq<char> {
    year_text(p.year as int) + "-"@ + zero_padded(p.month as nat, 2) + "-"@ + zero_padded(
        p.day as nat,
        2,
    ) + " "@ + zero_padded(p.hour as nat, 2) + ":"@ + zero_padded(p.minute as nat, 2) + ":"@
        + zero_padded((p.second + p.nanosecond / 1_000_000_000) as nat, 2) + "."@ + zero_padded(
        (p.nanosecond / 1_000_000 % 1000) as nat,
        3,
    )
}

/// The stored form of a source time: the parsed time, or `now` where the text did not parse.
pub open spec fn stored_time_text(parsed: Option<DateParts>, now: DateParts) -> Seq<char> {
    match parsed {
        Some(p) => store_time_text(p),
        None => store_time_text(now),
    }
}

/// Renders a year as the store's format does.
fn year_string(y: i32) -> (r: String)
    ensures
        r@ == year_text(y as int),
{
    if 0 <= y && y <= 9999 {
        zero_padded_string(y as u64, 4)
    } else if y < 0 {
        let mut s = String::from_str("-");
        let a = zero_padded_string((-(y as i64)) as u64, 4);
        s.append(a.as_str());
        s
    } else {
        let mut s = String::from_str("+");
        let a = zero_padded_string(y as u64, 4);
        s.append(a.as_str());
        s
    }
}

/// Renders a date and time as `YYYY-MM-DD HH:MM:SS.mmm`.
pub fn format_store_time(p: &DateParts) -> (r: String)
    ensures
        r@ == store_time_text(*p),
{
    let mut s = year_string(p.year);
    s.append("-");
    s.append(zero_padded_string(p.month as u64, 2).as_str());
    s.append("-");
    s.append(zero_padded_string(p.day as u64, 2).as_str());
    s.append(" ");
    s.append(zero_padded_string(p.hour as u64, 2).as_str());
    s.append(":");
    s.append(zero_padded_string(p.minute as u64, 2).as_str());
    s.append(":");
    let sec = p.second as u64 + (p.nanosecond / 1_000_000_000) as u64;
    s.append(zero_padded_string(sec, 2).as_str());
    s.append(".");
    s.append(zero_padded_string((p.nanosecond / 1_000_000 % 1000) as u64, 3).as_str());
    s
}

/// The stored form of an already parsed source time, falling back to `now`.
pub fn stored_time(parsed: Option<DateParts>, now: &DateParts) -> (r: String)
    ensures
        r@ == stored_time_text(parsed, *now),
{
    match parsed {
        Some(p) => format_store_time(&p),
        None => format_store_time(now),
    }
}

/// The stored form of a source time text: its RFC 3339 reading, or `now`
/// where the text is missing or malformed.
pub fn parse_datetime_for_clickhouse(s: &str, now: &DateParts) -> (r: String)
    ensures
        r@ == stored_time_text(rfc3339_parts(s@), *now),
{
    store_time_of(s, now).0
}

/// The stored form of a source time text, and whether that is the fallback
/// `now` because the text is missing or malformed.
pub fn store_time_of(s: &str, now: &DateParts) -> (r: (String, bool))
    ensures
        r.0@ == stored_time_text(rfc3339_parts(s@), *now),
        r.1 == (rfc3339_parts(s@) is None),
{
    let parsed = parse_rfc3339(s);
    let fell_back = match parsed {
        Some(_) => false,
        None => true,
    };
    (stored_time(parsed, now), fell_back)
}

} // verus!
