//! Calendar dates as plain numbers, and the reading of dates from text.

use vstd::prelude::*;

verus! {

/// A calendar date: year, month (1 to 12) and day of the month (1 to 31).
#[derive(Clone, Copy, Debug, PartialEq, Eq, Structural, Hash)]
pub struct Date {
    pub year: i32,
    pub month: u32,
    pub day: u32,
}

impl DeepView for Date {
    type V = Date;

    open spec fn deep_view(&self) -> Date {
        *self
    }
}

/// The format of every date that the sources publish: `YYYY-MM-DD`.
pub open spec fn iso_date_format() -> Seq<char> {
    "%Y-%m-%d"@
}

/// The date that `chrono::NaiveDate::parse_from_str` reads from `text` under
/// the strftime pattern `format`, or `None` where it reports an error.
pub uninterp spec fn parsed_date(text: Seq<char>, format: Seq<char>) -> Option<Date>;

/// Calls `chrono::NaiveDate::parse_from_str` and hands back the year, month
/// and day of the date it read. Nothing is claimed of which texts it accepts:
/// the result is only named.
#[verifier::external_body]
pub(crate) fn parse_date_with(text: &str, format: &str) -> (date: Option<Date>)
    ensures
        date == parsed_date(text@, format@),
{
    chrono::NaiveDate::parse_from_str(text, format).ok().map(
        |d| Date {
            year: chrono::Datelike::year(&d),
            month: chrono::Datelike::month(&d),
            day: chrono::Datelike::day(&d),
        },
    )
}

impl Date {
    /// The first day of the Unix epoch, the stand-in for a date that could
    /// not be read.
    pub open spec fn epoch() -> Date {
        Date { year: 1970, month: 1, day: 1 }
    }

    /// The first day of the Unix epoch.
    pub fn unix_epoch() -> (date: Date)
        ensures
            date == Date::epoch(),
    {
        Date { year: 1970, month: 1, day: 1 }
    }

    /// Reads a date written as `YYYY-MM-DD`.
    pub fn parse_iso(text: &str) -> (date: Option<Date>)
        ensures
            date == parsed_date(text@, iso_date_format()),
    {
        parse_date_with(text, "%Y-%m-%d")
    }
}

/// The date read from `text`, or the epoch where none can be read.
pub open spec fn date_or_epoch(text: Option<Seq<char>>) -> Date {
    match text {
        Some(t) => match parsed_date(t, iso_date_format()) {
            Some(d) => d,
            None => Date::epoch(),
        },
        None => Date::epoch(),
    }
}

} // verus!
