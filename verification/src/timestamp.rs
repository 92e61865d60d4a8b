//! Local civil time, to the second.

use crate::text_view;
use vstd::prelude::*;

verus! {

/// A moment of local civil time: a calendar date and a time of day.
#[derive(Clone, Copy, Debug, PartialEq, Eq, Structural)]
pub struct Timestamp {
    pub year: i32,
    pub month: u32,
    pub day: u32,
    pub hour: u32,
    pub minute: u32,
    pub second: u32,
}

/// The text that chrono writes for a date and a time of day under the pattern
/// `%Y-%m-%d %H:%M:%S`, and `None` where chrono knows no such date or time.
pub uninterp spec fn civil_text(
    year: i32,
    month: u32,
    day: u32,
    hour: u32,
    minute: u32,
    second: u32,
) -> Option<Seq<char>>;

/// Reads the clock with `chrono::Local::now` and keeps the calendar and clock
/// fields of the answer.
///
/// Believed, not proved: the ranges that chrono documents for
/// `Datelike::month` (1 to 12), `Datelike::day` (1 to 31), `Timelike::hour`
/// (0 to 23), `Timelike::minute` and `Timelike::second` (0 to 59). Nothing is
/// said of the year, nor of how two readings relate. chrono stops the program
/// where the machine's clock stands before 1970.
#[verifier::external_body]
pub(crate) fn local_now() -> (now: Timestamp)
    ensures
        now.in_range(),
{
    let moment = chrono::Local::now();
    Timestamp {
        year: chrono::Datelike::year(&moment),
        month: chrono::Datelike::month(&moment),
        day: chrono::Datelike::day(&moment),
        hour: chrono::Timelike::hour(&moment),
        minute: chrono::Timelike::minute(&moment),
        second: chrono::Timelike::second(&moment),
    }
}

/// Builds the date with `chrono::NaiveDate::from_ymd_opt`, adds the time of
/// day with `NaiveDate::and_hms_opt`, and writes the two with
/// `NaiveDateTime::format` under the pattern `%Y-%m-%d %H:%M:%S`.
///
/// Believed, not proved: that the answer depends on the six numbers alone. It
/// is `None` where either of the first two calls finds no such date or time.
#[verifier::external_body]
fn format_civil(year: i32, month: u32, day: u32, hour: u32, minute: u32, second: u32) -> (text:
    Option<String>)
    ensures
        text_view(text) == civil_text(year, month, day, hour, minute, second),
{
    let date = chrono::NaiveDate::from_ymd_opt(year, month, day)?;
    let moment = date.and_hms_opt(hour, minute, second)?;
    Some(moment.format("%Y-%m-%d %H:%M:%S").to_string())
}

impl Timestamp {
    /// Every field but the year lies in the range of its unit: months 1 to 12,
    /// days 1 to 31, hours 0 to 23, minutes and seconds 0 to 59.
    pub open spec fn in_range(self) -> bool {
        &&& 1 <= self.month <= 12
        &&& 1 <= self.day <= 31
        &&& self.hour <= 23
        &&& self.minute <= 59
        &&& self.second <= 59
    }

    /// What [`Timestamp::render`] gives for this moment.
    pub open spec fn text(self) -> Option<Seq<char>> {
        civil_text(self.year, self.month, self.day, self.hour, self.minute, self.second)
    }

    /// The moment with the given fields, if each lies in the range of its unit.
    pub fn new(year: i32, month: u32, day: u32, hour: u32, minute: u32, second: u32) -> (made:
        Option<Timestamp>)
        ensures
            made == if (Timestamp { year, month, day, hour, minute, second }).in_range() {
                Some(Timestamp { year, month, day, hour, minute, second })
            } else {
                None
            },
    {
        if 1 <= month && month <= 12 && 1 <= day && day <= 31 && hour <= 23 && minute <= 59
            && second <= 59 {
            Some(Timestamp { year, month, day, hour, minute, second })
        } else {
            None
        }
    }

    /// The moment as `YYYY-MM-DD HH:MM:SS`, or `None` where the calendar has
    /// no such day.
    pub fn render(&self) -> (text: Option<String>)
        ensures
            text_view(text) == self.text(),
    {
        format_civil(self.year, self.month, self.day, self.hour, self.minute, self.second)
    }
}

} // verus!
