//! A calendar date and time of day without a time zone.

use chrono::{Datelike, Timelike};
use std::fmt::Write;
use vstd::prelude::*;

verus! {

/// A date and a time of day, as plain numbers.
#[derive(Clone, Copy, Debug, PartialEq, Eq, Structural)]
pub struct Timestamp {
    pub year: i32,
    pub month: u32,
    pub day: u32,
    pub hour: u32,
    pub minute: u32,
    pub second: u32,
}

/// What `chrono::NaiveDateTime::parse_from_str` gives for a text and a format.
pub uninterp spec fn parsed_datetime(text: Seq<char>, format: Seq<char>) -> Option<Timestamp>;

/// What chrono writes for a date and time under a format, where it can.
pub uninterp spec fn formatted_datetime(t: Timestamp, format: Seq<char>) -> Option<Seq<char>>;

pub open spec fn is_leap_year(y: int) -> bool {
    (y % 4 == 0 && y % 100 != 0) || y % 400 == 0
}

pub open spec fn days_in_month(y: int, m: int) -> int {
    if m == 2 {
        if is_leap_year(y) { 29 } else { 28 }
    } else if m == 4 || m == 6 || m == 9 || m == 11 {
        30
    } else {
        31
    }
}

impl Timestamp {
    /// A real calendar day and a time of day with whole seconds.
    pub open spec fn wf(self) -> bool {
        &&& 1 <= self.month <= 12
        &&& 1 <= self.day <= days_in_month(self.year as int, self.month as int)
        &&& self.hour < 24
        &&& self.minute < 60
        &&& self.second < 60
    }
}

/// Relies on `chrono::NaiveDateTime::parse_from_str`: parses `text` under
/// the strftime-style `format`; a value it returns is a valid date and time.
#[verifier::external_body]
pub(crate) fn parse_datetime(text: &str, format: &str) -> (r: Option<Timestamp>)
    ensures
        r == parsed_datetime(text@, format@),
        r matches Some(t) ==> t.wf(),
{
    let d = chrono::NaiveDateTime::parse_from_str(text, format).ok()?;
    Some(Timestamp {
        year: d.year(),
        month: d.month(),
        day: d.day(),
        hour: d.hour(),
        minute: d.minute(),
        second: d.second(),
    })
}

/// Relies on `chrono::NaiveDate::from_ymd_opt`, `NaiveDate::and_hms_opt` and
/// `NaiveDateTime::format`: writes the date and time under `format`, or
/// gives `None` where the fields name no date and time or the format is not
/// one chrono can write.
#[verifier::external_body]
pub(crate) fn format_datetime(t: &Timestamp, format: &str) -> (r: Option<String>)
    ensures
        r matches Some(s) ==> formatted_datetime(*t, format@) == Some(s@),
        r is None ==> formatted_datetime(*t, format@) is None,
{
    let d = chrono::NaiveDate::from_ymd_opt(t.year, t.month, t.day)?
        .and_hms_opt(t.hour, t.minute, t.second)?;
    let mut s = String::new();
    write!(s, "{}", d.format(format)).ok()?;
    Some(s)
}

} // verus!
