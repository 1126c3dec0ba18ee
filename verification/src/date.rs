use chrono::Datelike;
use vstd::prelude::*;

verus! {

/// A calendar date as three plain numbers.
///
/// Any three numbers can be held; [`Date::valid`] tells which of them name a
/// day that can be written as a text and read back from it.
#[derive(Debug, Clone, Copy, PartialEq, Eq, Structural)]
pub struct Date {
    pub year: i32,
    pub month: u32,
    pub day: u32,
}

/// The text of a date as `chrono` writes it; `None` where its calendar has
/// no day of these three numbers.
pub uninterp spec fn date_text(date: Date) -> Option<Seq<char>>;

/// The date that `chrono` reads from a text; `None` where it reads none.
pub uninterp spec fn date_parsed(text: Seq<char>) -> Option<Date>;

/// The date one gets by adding `days` days to `date`, as the calendar
/// arithmetic of `chrono` computes it; `None` where `date` is no day of the
/// calendar or the result lies beyond the dates that `chrono` can hold.
pub uninterp spec fn date_after(date: Date, days: u64) -> Option<Date>;

/// The local date on the machine's clock: `chrono::Local::now`, then
/// `DateTime::date_naive`, read off by `Datelike::year`, `month` and `day`.
/// Of the date is known what `chrono` documents of every date that it holds:
/// the ranges of a month and a day, and that the text that it writes for the
/// date can be parsed back. `chrono` panics where the clock stands before
/// 1970.
#[verifier::external_body]
fn clock_date() -> (date: Date)
    ensures
        1 <= date.month <= 12,
        1 <= date.day <= 31,
        date.valid(),
{
    let now = chrono::Local::now().date_naive();
    Date { year: now.year(), month: now.month(), day: now.day() }
}

/// `NaiveDate::checked_add_days` on the date that `NaiveDate::from_ymd_opt`
/// makes of the three numbers: the result is a function of the date and the
/// number of days alone, and it is `None` where either call returns `None`.
#[verifier::external_body]
fn chrono_add_days(date: Date, days: u64) -> (later: Option<Date>)
    ensures
        later == date_after(date, days),
{
    let start = chrono::NaiveDate::from_ymd_opt(date.year, date.month, date.day)?;
    let later = start.checked_add_days(chrono::Days::new(days))?;
    Some(Date { year: later.year(), month: later.month(), day: later.day() })
}

/// `to_string` on the date that `NaiveDate::from_ymd_opt` makes of the three
/// numbers: the text is a function of the date alone, and there is none
/// where `from_ymd_opt` returns `None`.
#[verifier::external_body]
fn chrono_text(date: Date) -> (text: Option<String>)
    ensures
        match date_text(date) {
            Some(written) => text matches Some(s) && s@ == written,
            None => text is None,
        },
{
    let day = chrono::NaiveDate::from_ymd_opt(date.year, date.month, date.day)?;
    Some(day.to_string())
}

/// `str::parse` for a `NaiveDate`, read off by `Datelike::year`, `month` and
/// `day`: the date is a function of the text alone, and there is none where
/// the parser fails.
#[verifier::external_body]
fn chrono_parse(text: &str) -> (date: Option<Date>)
    ensures
        date == date_parsed(text@),
{
    match text.parse::<chrono::NaiveDate>() {
        Ok(day) => Some(Date { year: day.year(), month: day.month(), day: day.day() }),
        Err(_) => None,
    }
}

impl Date {
    /// Whether the date can be written as a text and read back from it.
    pub open spec fn valid(self) -> bool {
        date_text(self) matches Some(text) && date_parsed(text) == Some(self)
    }

    /// The text of the date; empty where the calendar has no such day.
    pub open spec fn text(self) -> Seq<char> {
        match date_text(self) {
            Some(text) => text,
            None => Seq::empty(),
        }
    }

    /// The date that a text names, if it names one.
    pub open spec fn parse(text: Seq<char>) -> Option<Date> {
        date_parsed(text)
    }

    /// Whether the date can be written as a text and read back from it.
    pub fn is_valid(&self) -> (ok: bool)
        ensures
            ok == self.valid(),
    {
        match chrono_text(*self) {
            Some(text) => match chrono_parse(text.as_str()) {
                Some(read) => read == *self,
                None => false,
            },
            None => false,
        }
    }

    /// The text of the date; empty where the calendar has no such day.
    pub fn to_text(&self) -> (text: String)
        ensures
            text@ == self.text(),
    {
        match chrono_text(*self) {
            Some(text) => text,
            None => String::new(),
        }
    }

    /// The date that a text names, if it names one.
    pub fn from_text(text: &str) -> (date: Option<Date>)
        ensures
            date == Date::parse(text@),
    {
        chrono_parse(text)
    }

    /// The local date on the machine's clock.
    pub fn today() -> (date: Date)
        ensures
            1 <= date.month <= 12,
            1 <= date.day <= 31,
            date.valid(),
    {
        clock_date()
    }

    /// The date `days` days later, if the calendar has it.
    pub fn plus_days(&self, days: u64) -> (later: Option<Date>)
        ensures
            later == date_after(*self, days),
    {
        chrono_add_days(*self, days)
    }
}

impl Default for Date {
    /// The first of January 1970.
    fn default() -> (date: Date)
        ensures
            date == (Date { year: 1970, month: 1, day: 1 }),
    {
        Date { year: 1970, month: 1, day: 1 }
    }
}

} // verus!
