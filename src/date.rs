//! Calendar days through chrono.

use vstd::prelude::*;
use chrono::Datelike;

verus! {

/// Format of the record dates, day.month.year.
pub const DMY_PATTERN: &'static str = "%d.%m.%Y";

/// Format of the dates in page addresses, year-month-day.
pub const ISO_PATTERN: &'static str = "%Y-%m-%d";

/// The day number that chrono reads from `s` in the `day.month.year` format,
/// if it reads one.
pub uninterp spec fn dmy_day_of(s: Seq<char>) -> Option<int>;

/// The text that chrono writes for day number `d` with the format `pattern`,
/// if `d` is a date chrono represents.
pub uninterp spec fn day_text_of(d: int, pattern: Seq<char>) -> Option<Seq<char>>;

/// Relies on chrono's `NaiveDate::parse_from_str` with `%d.%m.%Y` and on
/// `Datelike::num_days_from_ce` to number the date it reads.
#[verifier::external_body]
pub fn parse_dmy(s: &str) -> (r: Option<i32>)
    ensures
        match r {
            Some(d) => dmy_day_of(s@) == Some(d as int),
            None => dmy_day_of(s@).is_none(),
        },
{
    match chrono::NaiveDate::parse_from_str(s, "%d.%m.%Y") {
        Ok(date) => Some(date.num_days_from_ce()),
        Err(_) => None,
    }
}

/// Relies on chrono's `NaiveDate::from_num_days_from_ce_opt` to find the date
/// of a day number and on `NaiveDate::format` to write it with `pattern`
/// (writing panics on a pattern chrono cannot read, hence the two patterns).
#[verifier::external_body]
pub fn day_text(d: i32, pattern: &str) -> (r: Option<String>)
    requires
        pattern@ == DMY_PATTERN@ || pattern@ == ISO_PATTERN@,
    ensures
        match r {
            Some(t) => day_text_of(d as int, pattern@) == Some(t@),
            None => day_text_of(d as int, pattern@).is_none(),
        },
{
    match chrono::NaiveDate::from_num_days_from_ce_opt(d) {
        Some(date) => Some(date.format(pattern).to_string()),
        None => None,
    }
}

} // verus!
