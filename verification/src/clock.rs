//! The run timestamp: a minute of the calendar, written `DD-MM-YYYY:HH:MM`.
//!
//! The library does not read the clock. Its caller does, and hands over the
//! five numbers of the minute; the library holds them against the calendar
//! and has them written out.

use vstd::prelude::*;

verus! {

/// A minute of the calendar, as plain numbers.
pub struct Moment {
    pub year: int,
    pub month: int,
    pub day: int,
    pub hour: int,
    pub minute: int,
}

/// The first year that a moment can lie in.
pub open spec fn min_year() -> int {
    -262143
}

/// The last year that a moment can lie in.
pub open spec fn max_year() -> int {
    262142
}

/// Whether a year of the proleptic Gregorian calendar is a leap year. Years
/// are counted astronomically: the year before year 1 is year 0.
pub open spec fn is_leap_year(year: int) -> bool {
    year % 4 == 0 && (year % 100 != 0 || year % 400 == 0)
}

/// The number of days of a month.
pub open spec fn days_in_month(year: int, month: int) -> int
    recommends
        1 <= month <= 12,
{
    if month == 2 {
        if is_leap_year(year) {
            29
        } else {
            28
        }
    } else if month == 4 || month == 6 || month == 9 || month == 11 {
        30
    } else {
        31
    }
}

impl Moment {
    /// Whether the moment exists: the day is a day of the proleptic
    /// Gregorian calendar in a year that can be represented, and hour and
    /// minute are in the range of their units.
    pub open spec fn valid(self) -> bool {
        &&& min_year() <= self.year <= max_year()
        &&& 1 <= self.month <= 12
        &&& 1 <= self.day <= days_in_month(self.year, self.month)
        &&& 0 <= self.hour <= 23
        &&& 0 <= self.minute <= 59
    }
}

/// The pattern that a timestamp is written with.
pub open spec fn timestamp_pattern() -> Seq<char> {
    "%d-%m-%Y:%H:%M"@
}

/// The character of a decimal digit.
pub open spec fn digit(d: int) -> char
    recommends
        0 <= d <= 9,
{
    if d == 0 {
        '0'
    } else if d == 1 {
        '1'
    } else if d == 2 {
        '2'
    } else if d == 3 {
        '3'
    } else if d == 4 {
        '4'
    } else if d == 5 {
        '5'
    } else if d == 6 {
        '6'
    } else if d == 7 {
        '7'
    } else if d == 8 {
        '8'
    } else {
        '9'
    }
}

/// Whether a character is a decimal digit.
pub open spec fn is_digit(c: char) -> bool {
    exists|d: int| 0 <= d <= 9 && c == #[trigger] digit(d)
}

/// A number below one hundred in two digits, with a leading zero if needed.
pub open spec fn two_digits(v: int) -> Seq<char>
    recommends
        0 <= v <= 99,
{
    seq![digit(v / 10), digit(v % 10)]
}

/// A number below ten thousand in four digits, with leading zeros if needed.
pub open spec fn four_digits(v: int) -> Seq<char>
    recommends
        0 <= v <= 9999,
{
    seq![digit(v / 1000), digit((v / 100) % 10), digit((v / 10) % 10), digit(v % 10)]
}

/// A natural number in decimal, without leading zeros.
pub open spec fn decimal(n: nat) -> Seq<char>
    decreases n,
{
    if n < 10 {
        seq![digit(n as int)]
    } else {
        decimal(n / 10).push(digit((n % 10) as int))
    }
}

/// A natural number in decimal, padded with zeros to four digits.
pub open spec fn at_least_four_digits(n: nat) -> Seq<char> {
    if n <= 9999 {
        four_digits(n as int)
    } else {
        decimal(n)
    }
}

/// A year as text: four digits for the years 0 to 9999; outside them a sign
/// and then at least four digits.
pub open spec fn year_text(year: int) -> Seq<char> {
    if 0 <= year <= 9999 {
        four_digits(year)
    } else if year < 0 {
        seq!['-'] + at_least_four_digits((-year) as nat)
    } else {
        seq!['+'] + at_least_four_digits(year as nat)
    }
}

/// The timestamp of a moment: day, month and year joined by hyphens, a
/// colon, then hour and minute joined by a colon.
pub open spec fn timestamp_text(m: Moment) -> Seq<char> {
    two_digits(m.day) + seq!['-'] + two_digits(m.month) + seq!['-'] + year_text(m.year) + seq![
        ':',
    ] + two_digits(m.hour) + seq![':'] + two_digits(m.minute)
}

/// Whether `text` has the shape `DD-MM-YYYY:HH:MM`: sixteen characters, the
/// separators in their places and digits everywhere else.
pub open spec fn has_timestamp_shape(text: Seq<char>) -> bool {
    &&& text.len() == 16
    &&& text[2] == '-'
    &&& text[5] == '-'
    &&& text[10] == ':'
    &&& text[13] == ':'
    &&& forall|i: int|
        0 <= i < 16 && i != 2 && i != 5 && i != 10 && i != 13 ==> is_digit(#[trigger] text[i])
}

/// The timestamp of a valid moment in the years 0 to 9999 has the shape
/// `DD-MM-YYYY:HH:MM`.
pub proof fn lemma_timestamp_shape(m: Moment)
    requires
        m.valid(),
        0 <= m.year <= 9999,
    ensures
        has_timestamp_shape(timestamp_text(m)),
{
    let text = timestamp_text(m);
    assert(text.len() == 16);
    assert(text[0] == digit(m.day / 10));
    assert(text[1] == digit(m.day % 10));
    assert(text[3] == digit(m.month / 10));
    assert(text[4] == digit(m.month % 10));
    assert(text[6] == digit(m.year / 1000));
    assert(text[7] == digit((m.year / 100) % 10));
    assert(text[8] == digit((m.year / 10) % 10));
    assert(text[9] == digit(m.year % 10));
    assert(text[11] == digit(m.hour / 10));
    assert(text[12] == digit(m.hour % 10));
    assert(text[14] == digit(m.minute / 10));
    assert(text[15] == digit(m.minute % 10));
}

/// Writes a minute of the calendar out with `pattern`.
///
/// Calls `chrono::NaiveDate::from_ymd_opt`, then `NaiveDate::and_hms_opt`
/// with zero seconds, then `NaiveDateTime::format` with `pattern` and
/// `to_string`. Trusted, as chrono's documentation and source have it:
/// - the result is `None` exactly when the day does not exist in the proleptic
///   Gregorian calendar, the year lies outside -262143 to 262142, or hour or
///   minute is out of range;
/// - with the pattern `%d-%m-%Y:%H:%M` the text is day, month, hour and
///   minute in two digits each, padded with a zero, and the year in four
///   digits padded with zeros, or, outside the years 0 to 9999, a sign and at
///   least four digits, joined as the pattern says.
/// The pattern is held to `%d-%m-%Y:%H:%M` because chrono panics when a
/// pattern that it cannot read is written out.
#[verifier::external_body]
fn format_moment(year: i32, month: u32, day: u32, hour: u32, minute: u32, pattern: &str) -> (text:
    Option<String>)
    requires
        pattern@ == timestamp_pattern(),
    ensures
        text is Some <==> (Moment {
            year: year as int,
            month: month as int,
            day: day as int,
            hour: hour as int,
            minute: minute as int,
        }).valid(),
        text matches Some(t) ==> t@ == timestamp_text(
            Moment {
                year: year as int,
                month: month as int,
                day: day as int,
                hour: hour as int,
                minute: minute as int,
            },
        ),
{
    let date = chrono::NaiveDate::from_ymd_opt(year, month, day)?;
    let time = date.and_hms_opt(hour, minute, 0)?;
    Some(time.format(pattern).to_string())
}

/// A minute of local time, together with its timestamp.
#[derive(Debug, PartialEq, Eq)]
pub struct LocalTime {
    year: i32,
    month: u32,
    day: u32,
    hour: u32,
    minute: u32,
    text: String,
}

impl View for LocalTime {
    type V = Moment;

    closed spec fn view(&self) -> Moment {
        Moment {
            year: self.year as int,
            month: self.month as int,
            day: self.day as int,
            hour: self.hour as int,
            minute: self.minute as int,
        }
    }
}

impl LocalTime {
    #[verifier::type_invariant]
    spec fn well_formed(self) -> bool {
        &&& self@.valid()
        &&& self.text@ == timestamp_text(self@)
    }

    /// The given minute, or `None` if there is no such minute: the day does
    /// not exist in its month, the year cannot be represented, or a field is
    /// out of the range of its unit.
    pub fn new(year: i32, month: u32, day: u32, hour: u32, minute: u32) -> (time: Option<
        LocalTime,
    >)
        ensures
            time is Some <==> (Moment {
                year: year as int,
                month: month as int,
                day: day as int,
                hour: hour as int,
                minute: minute as int,
            }).valid(),
            time matches Some(t) ==> t@ == (Moment {
                year: year as int,
                month: month as int,
                day: day as int,
                hour: hour as int,
                minute: minute as int,
            }),
    {
        let formatted = format_moment(year, month, day, hour, minute, "%d-%m-%Y:%H:%M");
        match formatted {
            Some(text) => {
                let time = LocalTime { year, month, day, hour, minute, text };
                Some(time)
            },
            None => None,
        }
    }

    /// The year.
    pub fn year(&self) -> (year: i32)
        ensures
            year == self@.year,
            min_year() <= year <= max_year(),
    {
        proof {
            use_type_invariant(self);
        }
        self.year
    }

    /// The month, from 1.
    pub fn month(&self) -> (month: u32)
        ensures
            month == self@.month,
            1 <= month <= 12,
    {
        proof {
            use_type_invariant(self);
        }
        self.month
    }

    /// The day of the month, from 1.
    pub fn day(&self) -> (day: u32)
        ensures
            day == self@.day,
            1 <= day <= days_in_month(self@.year, self@.month),
    {
        proof {
            use_type_invariant(self);
        }
        self.day
    }

    /// The hour, from 0.
    pub fn hour(&self) -> (hour: u32)
        ensures
            hour == self@.hour,
            hour <= 23,
    {
        proof {
            use_type_invariant(self);
        }
        self.hour
    }

    /// The minute, from 0.
    pub fn minute(&self) -> (minute: u32)
        ensures
            minute == self@.minute,
            minute <= 59,
    {
        proof {
            use_type_invariant(self);
        }
        self.minute
    }

    /// The timestamp of this minute, `DD-MM-YYYY:HH:MM`.
    pub fn timestamp(&self) -> (text: String)
        ensures
            self@.valid(),
            text@ == timestamp_text(self@),
            0 <= self@.year <= 9999 ==> has_timestamp_shape(text@),
    {
        proof {
            use_type_invariant(self);
            if 0 <= self@.year <= 9999 {
                lemma_timestamp_shape(self@);
            }
        }
        self.text.clone()
    }
}

} // verus!
