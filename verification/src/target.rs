//! Which file a session works on: the master list, or the list of one day.
//!
//! A day's file is named after its date, written as day, month and the last
//! two digits of the year. The calendar is `chrono`'s, reached through the
//! trusted functions at the end of this file.

use crate::text::digit_char;
use chrono::{Datelike, NaiveDate, ParseError};
use vstd::prelude::*;
use vstd::string::StringExecFns;

verus! {

/// The first year that a date can lie in.
pub const MIN_YEAR: i32 = -262143;

/// The last year that a date can lie in.
pub const MAX_YEAR: i32 = 262142;

/// A day of the calendar, by its numbers.
#[derive(Clone, Copy, PartialEq, Eq, Structural, Debug)]
pub struct Date {
    pub year: i32,
    pub month: u32,
    pub day: u32,
}

/// The list to load.
#[derive(Clone, Copy, PartialEq, Eq, Structural, Debug)]
pub enum LoadTarget {
    /// The one list that belongs to no day.
    Master,
    /// The list of a day.
    Date(Date),
}

/// Why no list could be chosen.
#[derive(Clone, Copy, PartialEq, Eq, Structural, Debug)]
pub enum TargetError {
    /// The text given for the date is not a date written as `DD-MM-YY`.
    BadDate,
    /// The day before was asked for, and the calendar has none.
    NoYesterday,
}

/// Whether `year` has a 29th of February.
pub open spec fn is_leap_year(year: int) -> bool {
    year % 4 == 0 && (year % 100 != 0 || year % 400 == 0)
}

/// The number of days of a month.
pub open spec fn days_in_month(year: int, month: int) -> int {
    if month == 2 {
        if is_leap_year(year) {
            29
        } else {
            28
        }
    } else if month == 4 || month == 6 || month == 9 || month == 11 {
        30
    } else {
        31
    }
}

impl Date {
    /// Whether the numbers are those of a day that the calendar has.
    pub open spec fn valid(self) -> bool {
        &&& MIN_YEAR <= self.year <= MAX_YEAR
        &&& 1 <= self.month <= 12
        &&& 1 <= self.day <= days_in_month(self.year as int, self.month as int)
    }
}

/// The day before `date`, where `date` is a day of the calendar and not its
/// first.
pub open spec fn day_before(date: Date) -> Option<Date> {
    if !date.valid() {
        None
    } else if date.day > 1 {
        Some(Date { day: (date.day - 1) as u32, ..date })
    } else if date.month > 1 {
        Some(
            Date {
                month: (date.month - 1) as u32,
                day: days_in_month(date.year as int, date.month - 1) as u32,
                ..date
            },
        )
    } else if date.year > MIN_YEAR {
        Some(Date { year: (date.year - 1) as i32, month: 12, day: 31 })
    } else {
        None
    }
}

/// A number below 100 in two digits.
pub open spec fn two_digits(n: nat) -> Seq<char> {
    seq![digit_char(n / 10), digit_char(n % 10)]
}

/// A date as file names hold it: day, month and the last two digits of the
/// year, two digits each, with hyphens between them.
pub open spec fn date_text(date: Date) -> Seq<char> {
    two_digits(date.day as nat) + seq!['-'] + two_digits(date.month as nat) + seq!['-']
        + two_digits((date.year % 100) as nat)
}

/// The date that `chrono` reads from `text` under `format`, if it reads
/// one.
pub uninterp spec fn date_parsed(text: Seq<char>, format: Seq<char>) -> Option<Date>;

/// The list that the command line asks for. A date given as text replaces
/// today; the day before is taken of whichever of the two it is; the master
/// list is chosen last, so a date that cannot be read is an error even
/// where the master list is asked for.
pub open spec fn resolved(today: Date, date: Option<Seq<char>>, yesterday: bool, master: bool) -> Result<
    LoadTarget,
    TargetError,
> {
    let given = match date {
        Some(text) => date_parsed(text, "%d-%m-%y"@),
        None => Some(today),
    };
    match given {
        None => Err(TargetError::BadDate),
        Some(day) => {
            let wanted = if yesterday {
                day_before(day)
            } else {
                Some(day)
            };
            match wanted {
                None => Err(TargetError::NoYesterday),
                Some(day) => if master {
                    Ok(LoadTarget::Master)
                } else {
                    Ok(LoadTarget::Date(day))
                },
            }
        },
    }
}

/// The name of the file of a list: `master.todo`, or the date and `.todo`.
/// A date that the calendar does not have names no file.
pub open spec fn file_name(target: LoadTarget) -> Option<Seq<char>> {
    match target {
        LoadTarget::Master => Some("master.todo"@),
        LoadTarget::Date(date) => if date.valid() {
            Some(date_text(date) + ".todo"@)
        } else {
            None
        },
    }
}

/// The day before a day of the calendar is a day of the calendar.
pub proof fn lemma_day_before_valid(date: Date)
    ensures
        day_before(date) matches Some(before) ==> before.valid(),
{
}

/// How dates are written: day, month, two digits of the year.
pub fn date_format() -> (format: &'static str)
    ensures
        format@ == "%d-%m-%y"@,
{
    "%d-%m-%y"
}

/// Chooses the list to load from what the command line gave.
pub fn resolve_target(today: Date, date: Option<&str>, yesterday: bool, master: bool) -> (r: Result<
    LoadTarget,
    TargetError,
>)
    ensures
        r == resolved(
            today,
            match date {
                Some(text) => Some(text@),
                None => None,
            },
            yesterday,
            master,
        ),
        date is Some || today.valid() ==> (r matches Ok(LoadTarget::Date(day)) ==> day.valid()),
{
    let mut day = today;
    if let Some(text) = date {
        match parse_date(text, date_format()) {
            Ok(parsed) => {
                day = parsed;
            },
            Err(_) => {
                return Err(TargetError::BadDate);
            },
        }
    }
    if yesterday {
        proof {
            lemma_day_before_valid(day);
        }
        match previous_day(day) {
            Some(before) => {
                day = before;
            },
            None => {
                return Err(TargetError::NoYesterday);
            },
        }
    }
    if master {
        Ok(LoadTarget::Master)
    } else {
        Ok(LoadTarget::Date(day))
    }
}

/// The name of the file that holds the list `target`.
pub fn get_target_file(target: &LoadTarget) -> (name: Option<String>)
    ensures
        match file_name(*target) {
            Some(text) => name is Some && name->0@ == text,
            None => name is None,
        },
{
    match target {
        LoadTarget::Date(date) => {
            match format_date(*date, date_format()) {
                Some(mut name) => {
                    name.append(".todo");
                    Some(name)
                },
                None => None,
            }
        },
        LoadTarget::Master => Some("master.todo".to_owned()),
    }
}

/// `chrono`'s `ParseError`: why a text is no date. Nothing is said of it.
#[verifier::external_type_specification]
#[verifier::external_body]
pub struct ExParseError(ParseError);

/// `NaiveDate::parse_from_str`: the date read from `text` under `format`,
/// which is a day of the calendar, or the error where none is read.
#[verifier::external_body]
pub(crate) fn parse_date(text: &str, format: &str) -> (r: Result<Date, ParseError>)
    ensures
        match r {
            Ok(date) => date_parsed(text@, format@) == Some(date) && date.valid(),
            Err(_) => date_parsed(text@, format@) is None,
        },
{
    NaiveDate::parse_from_str(text, format).map(
        |d| Date { year: d.year(), month: d.month(), day: d.day() },
    )
}

/// `NaiveDate::pred_opt`, on the date that `NaiveDate::from_ymd_opt` makes
/// of the numbers: the day before, or `None` where the numbers are no day
/// of the calendar or the day is its first.
#[verifier::external_body]
pub(crate) fn previous_day(date: Date) -> (r: Option<Date>)
    ensures
        r == day_before(date),
{
    NaiveDate::from_ymd_opt(date.year, date.month, date.day).and_then(|d| d.pred_opt()).map(
        |d| Date { year: d.year(), month: d.month(), day: d.day() },
    )
}

/// `NaiveDate::format` under `%d-%m-%y`, on the date that
/// `NaiveDate::from_ymd_opt` makes of the numbers: day, month and year
/// modulo 100, each in two digits with a leading zero where needed, or
/// `None` where the numbers are no day of the calendar.
#[verifier::external_body]
pub(crate) fn format_date(date: Date, format: &str) -> (r: Option<String>)
    requires
        format@ == "%d-%m-%y"@,
    ensures
        match r {
            Some(text) => date.valid() && text@ == date_text(date),
            None => !date.valid(),
        },
{
    NaiveDate::from_ymd_opt(date.year, date.month, date.day).map(|d| d.format(format).to_string())
}

} // verus!
