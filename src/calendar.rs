//! Calendar dates as day numbers, with January 1, 1970 as day 0.
//!
//! Text conversion and weekday names come from chrono; the arithmetic on day
//! numbers (a week's end, a day's offset) is plain integer arithmetic here.
use vstd::prelude::*;

verus! {

/// Day number of the earliest date chrono represents (January 1, 262144 BCE).
pub const FIRST_DAY: i32 = -96_465_292;

/// Day number of the latest date chrono represents (December 31, 262142 CE).
pub const LAST_DAY: i32 = 95_026_236;

pub open spec fn day_in_range(d: int) -> bool {
    FIRST_DAY <= d <= LAST_DAY
}

/// The day that a `YYYY-MM-DD` text denotes, or `None` where chrono rejects it.
pub uninterp spec fn day_of_text(s: Seq<char>) -> Option<int>;

/// The `YYYY-MM-DD` text of a day.
pub uninterp spec fn text_of_day(d: int) -> Seq<char>;

/// The short English weekday name of a day (`Mon` ... `Sun`).
pub uninterp spec fn weekday_of_day(d: int) -> Seq<char>;

/// Relies on `chrono::NaiveDate::parse_from_str` with format `%Y-%m-%d` and on
/// `NaiveDate::to_epoch_days`: every `NaiveDate` lies between chrono's `MIN`
/// and `MAX`, whose day numbers are `FIRST_DAY` and `LAST_DAY`.
#[verifier::external_body]
pub fn parse_date(s: &str) -> (r: Option<i32>)
    ensures
        r matches Some(d) ==> day_of_text(s@) == Some(d as int) && day_in_range(d as int),
        r is None ==> day_of_text(s@) is None,
{
    chrono::NaiveDate::parse_from_str(s, "%Y-%m-%d").ok().map(|d| d.to_epoch_days())
}

/// Relies on `chrono::NaiveDate::from_epoch_days`, which yields a date for every
/// day in range, and on its `format("%Y-%m-%d")`, which `parse_from_str` with the
/// same format reads back (years outside 0 to 9999 are written with their sign).
#[verifier::external_body]
pub(crate) fn format_day(d: i32) -> (r: String)
    requires
        day_in_range(d as int),
    ensures
        r@ == text_of_day(d as int),
        day_of_text(r@) == Some(d as int),
{
    chrono::NaiveDate::from_epoch_days(d).unwrap().format("%Y-%m-%d").to_string()
}

/// Relies on `chrono::NaiveDate::weekday` and the `Display` of `chrono::Weekday`.
#[verifier::external_body]
pub(crate) fn weekday_name(d: i32) -> (r: String)
    requires
        day_in_range(d as int),
    ensures
        r@ == weekday_of_day(d as int),
{
    let date = chrono::NaiveDate::from_epoch_days(d).unwrap();
    chrono::Datelike::weekday(&date).to_string()
}

/// Relies on `chrono::Utc::now().date_naive()`: the current UTC date, which is
/// a `NaiveDate` and so lies in range.
#[verifier::external_body]
pub(crate) fn today() -> (r: i32)
    ensures
        day_in_range(r as int),
{
    chrono::Utc::now().date_naive().to_epoch_days()
}

} // verus!
