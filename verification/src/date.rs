//! Calendar dates and times of day as plain numbers, and the calls into
//! `chrono` that read them from text and write them as text.

use crate::text::{read_view, written_view};
use chrono::{Datelike, Timelike};
use std::fmt::Write;
use vstd::prelude::*;

verus! {

/// A calendar date: year, month (from 1) and day of the month (from 1).
#[derive(Debug, Clone, Copy, PartialEq, Eq, Structural)]
pub struct Date {
    pub year: i32,
    pub month: u32,
    pub day: u32,
}

/// A date with a time of day. A leap second is written as second 59 with a
/// nanosecond count of one thousand million or more.
#[derive(Debug, Clone, Copy, PartialEq, Eq, Structural)]
pub struct DateTime {
    pub date: Date,
    pub hour: u32,
    pub minute: u32,
    pub second: u32,
    pub nanosecond: u32,
}

/// What `chrono` reads from `text` as a date under `format`: the date, or
/// the reason why the text is none.
pub uninterp spec fn parsed_date(text: Seq<char>, format: Seq<char>) -> Result<Date, Seq<char>>;

/// What `chrono` reads from `text` as a date and time under `format`: the
/// date and time, or the reason why the text is none.
pub uninterp spec fn parsed_date_time(text: Seq<char>, format: Seq<char>) -> Result<
    DateTime,
    Seq<char>,
>;

/// What `chrono` writes for `date` under `format`, if the date exists in the
/// calendar and the format is one that `chrono` accepts.
pub uninterp spec fn formatted_date(date: Date, format: Seq<char>) -> Option<Seq<char>>;

/// Calls `chrono::NaiveDate::parse_from_str` and hands back the year, month
/// and day of the date it read, or the text of its error. The result is
/// [`parsed_date`] of the two texts; nothing more is claimed of it.
#[verifier::external_body]
pub(crate) fn parse_date(text: &str, format: &str) -> (parsed: Result<Date, String>)
    ensures
        read_view(parsed) == parsed_date(text@, format@),
{
    match chrono::NaiveDate::parse_from_str(text, format) {
        Ok(day) => Ok(Date { year: day.year(), month: day.month(), day: day.day() }),
        Err(e) => Err(e.to_string()),
    }
}

/// Calls `chrono::NaiveDateTime::parse_from_str` and hands back the parts
/// of the date and time it read, or the text of its error. The result is
/// [`parsed_date_time`] of the two texts; nothing more is claimed of it.
#[verifier::external_body]
pub(crate) fn parse_date_time(text: &str, format: &str) -> (parsed: Result<DateTime, String>)
    ensures
        read_view(parsed) == parsed_date_time(text@, format@),
{
    match chrono::NaiveDateTime::parse_from_str(text, format) {
        Ok(t) => Ok(
            DateTime {
                date: Date { year: t.year(), month: t.month(), day: t.day() },
                hour: t.hour(),
                minute: t.minute(),
                second: t.second(),
                nanosecond: t.nanosecond(),
            },
        ),
        Err(e) => Err(e.to_string()),
    }
}

/// Calls `chrono::NaiveDate::from_ymd_opt` and writes the date it made with
/// `chrono::NaiveDate::format`. Gives `None` where `chrono` has no such date
/// or refuses the format. The result is [`formatted_date`] of the date and
/// the format; nothing more is claimed of it.
#[verifier::external_body]
pub(crate) fn format_date(date: &Date, format: &str) -> (text: Option<String>)
    ensures
        written_view(text) == formatted_date(*date, format@),
{
    let day = chrono::NaiveDate::from_ymd_opt(date.year, date.month, date.day)?;
    let mut text = String::new();
    write!(text, "{}", day.format(format)).ok()?;
    Some(text)
}

} // verus!
