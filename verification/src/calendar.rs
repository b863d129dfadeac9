//! Calendar dates and instants.

use vstd::prelude::*;
use chrono::Datelike;

verus! {

/// Whether `year` is a leap year of the proleptic Gregorian calendar.
pub open spec fn is_leap_year(year: int) -> bool {
    year % 4 == 0 && (year % 100 != 0 || year % 400 == 0)
}

/// The number of days of `month` in `year`; 0 where there is no such month.
pub open spec fn days_in_month(year: int, month: int) -> int {
    if month == 2 {
        if is_leap_year(year) {
            29
        } else {
            28
        }
    } else if month == 4 || month == 6 || month == 9 || month == 11 {
        30
    } else if 1 <= month <= 12 {
        31
    } else {
        0
    }
}

/// Whether year, month and day name a day that exists, in a year that a
/// `chrono::NaiveDate` can hold.
pub open spec fn is_calendar_day(year: int, month: int, day: int) -> bool {
    &&& -262143 <= year <= 262142
    &&& 1 <= month <= 12
    &&& 1 <= day <= days_in_month(year, month)
}

/// The ten decimal digits.
pub open spec fn digit(n: int) -> char {
    seq!['0', '1', '2', '3', '4', '5', '6', '7', '8', '9'][n]
}

/// A number below 100 in two digits.
pub open spec fn two_digits(n: int) -> Seq<char> {
    seq![digit(n / 10), digit(n % 10)]
}

/// A natural number in decimal, without leading zeros.
pub open spec fn decimal(n: int) -> Seq<char>
    decreases n,
{
    if n < 10 {
        seq![digit(n)]
    } else {
        decimal(n / 10).push(digit(n % 10))
    }
}

/// A year as ISO 8601 writes it: four digits from 0 to 9999, and otherwise
/// a sign followed by at least four digits.
pub open spec fn year_text(year: int) -> Seq<char> {
    if 0 <= year <= 9999 {
        two_digits(year / 100) + two_digits(year % 100)
    } else if -9999 <= year < 0 {
        seq!['-'] + two_digits(-year / 100) + two_digits(-year % 100)
    } else if year < 0 {
        seq!['-'] + decimal(-year)
    } else {
        seq!['+'] + decimal(year)
    }
}

/// A calendar day as ISO 8601 writes it: year, month and day, the last two
/// in two digits, with hyphens between.
pub open spec fn iso_date(year: int, month: int, day: int) -> Seq<char> {
    year_text(year) + seq!['-'] + two_digits(month) + seq!['-'] + two_digits(day)
}

/// Whether `c` is one of the ten decimal digits.
pub open spec fn is_digit(c: char) -> bool {
    '0' <= c <= '9'
}

/// The number that a decimal digit stands for.
pub open spec fn digit_value(c: char) -> int {
    c as int - '0' as int
}

/// Whether a text has the shape `YYYY-MM-DD`: ten characters, of which the
/// fifth and the eighth are hyphens and the others decimal digits.
pub open spec fn is_iso_shape(text: Seq<char>) -> bool {
    &&& text.len() == 10
    &&& forall|i: int|
        0 <= i < 10 ==> if i == 4 || i == 7 {
            text[i] == '-'
        } else {
            is_digit(#[trigger] text[i])
        }
}

/// The year that a text of the shape `YYYY-MM-DD` spells.
pub open spec fn year_of(text: Seq<char>) -> int {
    1000 * digit_value(text[0]) + 100 * digit_value(text[1]) + 10 * digit_value(text[2])
        + digit_value(text[3])
}

/// The month that a text of the shape `YYYY-MM-DD` spells.
pub open spec fn month_of(text: Seq<char>) -> int {
    10 * digit_value(text[5]) + digit_value(text[6])
}

/// The day of the month that a text of the shape `YYYY-MM-DD` spells.
pub open spec fn day_of(text: Seq<char>) -> int {
    10 * digit_value(text[8]) + digit_value(text[9])
}

/// Whether a text has the shape `YYYY-MM-DD` and spells a day that exists.
pub open spec fn denotes_day(text: Seq<char>) -> bool {
    is_iso_shape(text) && is_calendar_day(year_of(text), month_of(text), day_of(text))
}

/// Calls `chrono::NaiveDate::parse_from_str` on a text of the shape
/// `YYYY-MM-DD` under the format `%Y-%m-%d`, and takes the date apart with
/// `Datelike::year`, `month` and `day`. The contract claims that the date
/// read is the one that the digits spell, and that none is read where they
/// spell no day that exists.
#[verifier::external_body]
fn chrono_parse_date(text: &str, format: &str) -> (r: Option<(i32, u32, u32)>)
    requires
        is_iso_shape(text@),
        format@ == "%Y-%m-%d"@,
    ensures
        r == if is_calendar_day(year_of(text@), month_of(text@), day_of(text@)) {
            Some((year_of(text@) as i32, month_of(text@) as u32, day_of(text@) as u32))
        } else {
            None
        },
{
    match chrono::NaiveDate::parse_from_str(text, format) {
        Ok(date) => Some((date.year(), date.month(), date.day())),
        Err(_) => None,
    }
}

/// Calls `to_string` on the `chrono::NaiveDate` that `from_ymd_opt` makes of
/// a day that exists. The contract claims that the text is the ISO 8601
/// form of the day.
#[verifier::external_body]
fn chrono_date_text(year: i32, month: u32, day: u32) -> (r: String)
    requires
        is_calendar_day(year as int, month as int, day as int),
    ensures
        r@ == iso_date(year as int, month as int, day as int),
{
    chrono::NaiveDate::from_ymd_opt(year, month, day).unwrap().to_string()
}

/// Calls `chrono::Utc::now` and `date_naive`: the current day in UTC.
/// `Utc::now` reads the system clock and does not return where that stands
/// before 1970. The contract claims only that the day exists and is not
/// before 1970.
#[verifier::external_body]
fn chrono_today() -> (r: (i32, u32, u32))
    ensures
        is_calendar_day(r.0 as int, r.1 as int, r.2 as int),
        r.0 >= 1970,
{
    let date = chrono::Utc::now().date_naive();
    (date.year(), date.month(), date.day())
}

/// Calls `chrono::Utc::now` and `timestamp_micros`: the current instant in
/// microseconds since the Unix epoch. `Utc::now` reads the system clock and
/// does not return where that stands before the epoch. The contract claims
/// only that the instant is not before the epoch.
#[verifier::external_body]
fn chrono_now_micros() -> (r: i64)
    ensures
        r >= 0,
{
    chrono::Utc::now().timestamp_micros()
}

/// Year, month and day of a calendar date, as numbers.
pub struct Ymd {
    pub year: int,
    pub month: int,
    pub day: int,
}

/// A day of the proleptic Gregorian calendar. Every value is a day that
/// exists.
#[derive(Clone, Copy, Debug, PartialEq, Eq, Structural)]
pub struct CalendarDate {
    year: i32,
    month: u32,
    day: u32,
}

impl View for CalendarDate {
    type V = Ymd;

    closed spec fn view(&self) -> Ymd {
        Ymd { year: self.year as int, month: self.month as int, day: self.day as int }
    }
}

fn leap_year(year: i32) -> (r: bool)
    requires
        -262143 <= year <= 262142,
    ensures
        r == is_leap_year(year as int),
{
    let shifted: u32 = (year + 400_000) as u32;
    shifted % 4 == 0 && (shifted % 100 != 0 || shifted % 400 == 0)
}

fn month_length(year: i32, month: u32) -> (r: u32)
    requires
        -262143 <= year <= 262142,
    ensures
        r == days_in_month(year as int, month as int),
{
    if month == 2 {
        if leap_year(year) {
            29
        } else {
            28
        }
    } else if month == 4 || month == 6 || month == 9 || month == 11 {
        30
    } else if 1 <= month && month <= 12 {
        31
    } else {
        0
    }
}

fn has_iso_shape(text: &str) -> (r: bool)
    ensures
        r == is_iso_shape(text@),
{
    if text.unicode_len() != 10 {
        return false;
    }
    let mut i: usize = 0;
    while i < 10
        invariant
            i <= 10,
            text@.len() == 10,
            forall|j: int|
                0 <= j < i ==> if j == 4 || j == 7 {
                    text@[j] == '-'
                } else {
                    is_digit(#[trigger] text@[j])
                },
        decreases 10 - i,
    {
        let c = text.get_char(i);
        if i == 4 || i == 7 {
            if c != '-' {
                return false;
            }
        } else if !('0' <= c && c <= '9') {
            return false;
        }
        i += 1;
    }
    true
}

impl CalendarDate {
    #[verifier::type_invariant]
    spec fn exists_in_calendar(self) -> bool {
        is_calendar_day(self.year as int, self.month as int, self.day as int)
    }

    /// The date with this year, month and day.
    pub closed spec fn on(year: int, month: int, day: int) -> CalendarDate {
        CalendarDate { year: year as i32, month: month as u32, day: day as u32 }
    }

    /// The date that a text denotes, if it denotes one: the day that it
    /// spells, where it has the shape `YYYY-MM-DD` and that day exists.
    pub open spec fn parsed(text: Seq<char>) -> Option<CalendarDate> {
        if denotes_day(text) {
            Some(CalendarDate::on(year_of(text), month_of(text), day_of(text)))
        } else {
            None
        }
    }

    /// The ISO 8601 text of this date.
    pub open spec fn text(self) -> Seq<char> {
        iso_date(self@.year, self@.month, self@.day)
    }

    /// The date with this year, month and day, where that day exists.
    pub fn new(year: i32, month: u32, day: u32) -> (r: Option<CalendarDate>)
        ensures
            r == if is_calendar_day(year as int, month as int, day as int) {
                Some(CalendarDate::on(year as int, month as int, day as int))
            } else {
                None
            },
    {
        if year < -262143 || year > 262142 || day < 1 {
            return None;
        }
        if day > month_length(year, month) {
            return None;
        }
        Some(CalendarDate { year, month, day })
    }

    /// Reads a date from a text in the form `YYYY-MM-DD`. Any other form
    /// is refused, and so is a day that does not exist.
    pub fn parse(text: &str) -> (r: Option<CalendarDate>)
        ensures
            r == CalendarDate::parsed(text@),
    {
        if !has_iso_shape(text) {
            return None;
        }
        match chrono_parse_date(text, "%Y-%m-%d") {
            Some((year, month, day)) => Some(CalendarDate { year, month, day }),
            None => None,
        }
    }

    /// Writes the date in the form `YYYY-MM-DD`.
    pub fn to_string(&self) -> (r: String)
        ensures
            r@ == self.text(),
    {
        proof {
            use_type_invariant(self);
        }
        chrono_date_text(self.year, self.month, self.day)
    }

    /// The current day in UTC, as the system clock has it: a day that
    /// exists, not before 1970.
    pub fn today() -> (r: CalendarDate)
        ensures
            is_calendar_day(r@.year, r@.month, r@.day),
            r@.year >= 1970,
    {
        let (year, month, day) = chrono_today();
        CalendarDate { year, month, day }
    }

    /// The year.
    pub fn year(&self) -> (r: i32)
        ensures
            r == self@.year,
    {
        self.year
    }

    /// The month of the year, from 1 to 12.
    pub fn month(&self) -> (r: u32)
        ensures
            r == self@.month,
    {
        self.month
    }

    /// The day of the month, from 1.
    pub fn day(&self) -> (r: u32)
        ensures
            r == self@.day,
    {
        self.day
    }
}

/// The date on a day that exists has the year, month and day of that day.
pub proof fn lemma_date_on(year: int, month: int, day: int)
    requires
        is_calendar_day(year, month, day),
    ensures
        CalendarDate::on(year, month, day)@ == (Ymd { year, month, day }),
{
}

/// A date that is written is read back: the text of a date in a year of
/// four digits denotes that date.
pub proof fn lemma_written_date_is_read_back(year: int, month: int, day: int)
    requires
        0 <= year <= 9999,
        is_calendar_day(year, month, day),
    ensures
        is_iso_shape(iso_date(year, month, day)),
        year_of(iso_date(year, month, day)) == year,
        month_of(iso_date(year, month, day)) == month,
        day_of(iso_date(year, month, day)) == day,
        CalendarDate::parsed(CalendarDate::on(year, month, day).text()) == Some(
            CalendarDate::on(year, month, day),
        ),
{
    let text = iso_date(year, month, day);
    assert(forall|n: int| 0 <= n < 10 ==> is_digit(#[trigger] digit(n)) && digit_value(digit(n)) == n);
    assert(text.len() == 10);
    assert(text[0] == digit(year / 100 / 10));
    assert(text[1] == digit(year / 100 % 10));
    assert(text[2] == digit(year % 100 / 10));
    assert(text[3] == digit(year % 100 % 10));
    assert(text[4] == '-');
    assert(text[5] == digit(month / 10));
    assert(text[6] == digit(month % 10));
    assert(text[7] == '-');
    assert(text[8] == digit(day / 10));
    assert(text[9] == digit(day % 10));
    assert(is_iso_shape(text));
}

/// An instant, in microseconds since the Unix epoch.
#[derive(Clone, Copy, Debug, PartialEq, Eq, Structural)]
pub struct Timestamp {
    pub micros: i64,
}

impl Timestamp {
    /// The current instant, as the system clock has it: not before the
    /// Unix epoch.
    pub fn now() -> (r: Timestamp)
        ensures
            r.micros >= 0,
    {
        Timestamp { micros: chrono_now_micros() }
    }
}

} // verus!
