//! Calendar dates without a time component, and their `YYYY-MM-DD` text.

use chrono::Datelike;
use chrono::NaiveDate;
use vstd::prelude::*;
use vstd::string::StrSliceExecFns;

verus! {

/// The earliest year a [`Date`] can hold.
pub const MIN_YEAR: i32 = 0;

/// The latest year a [`Date`] can hold: the last one that four digits can write.
pub const MAX_YEAR: i32 = 9999;

/// The earliest year of which chrono's `NaiveDate` holds every day.
pub const CALENDAR_MIN_YEAR: i32 = -262_143;

/// The latest year of which chrono's `NaiveDate` holds every day.
pub const CALENDAR_MAX_YEAR: i32 = 262_142;

/// Whether `year` has a 29th of February in the proleptic Gregorian calendar.
pub open spec fn is_leap_year(year: int) -> bool {
    year % 4 == 0 && (year % 100 != 0 || year % 400 == 0)
}

/// The number of days of `month` in `year`, for a month from 1 to 12.
pub open spec fn days_in_month(year: int, month: int) -> int {
    if month == 2 {
        if is_leap_year(year) {
            29
        } else {
            28
        }
    } else if month == 4 || month == 6 || month == 9 || month == 11 {
        30
    } else {
        31
    }
}

/// Whether the day exists in the proleptic Gregorian calendar, in a year that
/// chrono's `NaiveDate` can hold.
pub open spec fn is_calendar_day(year: int, month: int, day: int) -> bool {
    &&& CALENDAR_MIN_YEAR <= year <= CALENDAR_MAX_YEAR
    &&& 1 <= month <= 12
    &&& 1 <= day <= days_in_month(year, month)
}

/// A year, a month and a day as mathematical integers: what a [`Date`] stands for.
pub struct Ymd {
    pub year: int,
    pub month: int,
    pub day: int,
}

impl Ymd {
    /// An existing calendar day whose year is written with four digits.
    pub open spec fn wf(self) -> bool {
        &&& MIN_YEAR <= self.year <= MAX_YEAR
        &&& is_calendar_day(self.year, self.month, self.day)
    }
}

/// Whether `c` is one of the ten ASCII digits.
pub open spec fn is_digit(c: char) -> bool {
    '0' as int <= c as int <= '9' as int
}

/// The number that the ASCII digit `c` writes.
pub open spec fn digit_value(c: char) -> int {
    c as int - '0' as int
}

/// The ASCII digit that writes `n`, for `n` from 0 to 9.
pub open spec fn digit_char(n: int) -> char {
    ('0' as int + n) as char
}

/// The two digits that write `n`, for `n` from 0 to 99, with a leading zero.
pub open spec fn two_digits(n: int) -> Seq<char> {
    seq![digit_char(n / 10), digit_char(n % 10)]
}

/// The number that the two characters of `t` from position `i` write.
pub open spec fn two_digit_number(t: Seq<char>, i: int) -> int {
    10 * digit_value(t[i]) + digit_value(t[i + 1])
}

/// The text of a date: `YYYY-MM-DD`, each part padded with zeros.
pub open spec fn date_text(d: Ymd) -> Seq<char> {
    two_digits(d.year / 100) + two_digits(d.year % 100) + seq!['-'] + two_digits(d.month)
        + seq!['-'] + two_digits(d.day)
}

/// Whether `t` has the shape `YYYY-MM-DD`: ten characters, digits but for the
/// two hyphens.
pub open spec fn has_date_shape(t: Seq<char>) -> bool {
    &&& t.len() == 10
    &&& is_digit(t[0])
    &&& is_digit(t[1])
    &&& is_digit(t[2])
    &&& is_digit(t[3])
    &&& t[4] == '-'
    &&& is_digit(t[5])
    &&& is_digit(t[6])
    &&& t[7] == '-'
    &&& is_digit(t[8])
    &&& is_digit(t[9])
}

/// The year, month and day that a text of the shape `YYYY-MM-DD` writes,
/// whether or not such a day exists.
pub open spec fn numbers_of_text(t: Seq<char>) -> Ymd {
    Ymd {
        year: 100 * two_digit_number(t, 0) + two_digit_number(t, 2),
        month: two_digit_number(t, 5),
        day: two_digit_number(t, 8),
    }
}

/// The date that `t` writes: `t` has the shape `YYYY-MM-DD` and names an
/// existing day. Any other text writes no date.
pub open spec fn date_of_text(t: Seq<char>) -> Option<Ymd> {
    if has_date_shape(t) && numbers_of_text(t).wf() {
        Some(numbers_of_text(t))
    } else {
        None
    }
}

/// A digit character writes a number from 0 to 9, and that number is written
/// by the same character.
proof fn lemma_digit_of_char(c: char)
    requires
        is_digit(c),
    ensures
        0 <= digit_value(c) <= 9,
        digit_char(digit_value(c)) == c,
{
}

/// A number from 0 to 9 is written by a digit character, which writes that
/// number.
proof fn lemma_char_of_digit(n: int)
    requires
        0 <= n <= 9,
    ensures
        is_digit(digit_char(n)),
        digit_value(digit_char(n)) == n,
{
}

/// The two digits of a number from 0 to 99 are digit characters that write
/// that number.
proof fn lemma_two_digits_read_back(n: int)
    requires
        0 <= n <= 99,
    ensures
        two_digits(n).len() == 2,
        is_digit(two_digits(n)[0]),
        is_digit(two_digits(n)[1]),
        two_digit_number(two_digits(n), 0) == n,
{
    lemma_char_of_digit(n / 10);
    lemma_char_of_digit(n % 10);
}

/// Two digit characters write a number from 0 to 99 whose two digits are
/// those characters.
proof fn lemma_two_digits_are_unique(t: Seq<char>, i: int)
    requires
        0 <= i,
        i + 1 < t.len(),
        is_digit(t[i]),
        is_digit(t[i + 1]),
    ensures
        0 <= two_digit_number(t, i) <= 99,
        two_digits(two_digit_number(t, i)) == seq![t[i], t[i + 1]],
{
    lemma_digit_of_char(t[i]);
    lemma_digit_of_char(t[i + 1]);
    let n = two_digit_number(t, i);
    assert(n / 10 == digit_value(t[i]));
    assert(n % 10 == digit_value(t[i + 1]));
}

/// Reading the text of a date gives that date back.
pub proof fn lemma_date_text_reads_back(d: Ymd)
    requires
        d.wf(),
    ensures
        date_of_text(date_text(d)) == Some(d),
{
    let t = date_text(d);
    lemma_two_digits_read_back(d.year / 100);
    lemma_two_digits_read_back(d.year % 100);
    lemma_two_digits_read_back(d.month);
    lemma_two_digits_read_back(d.day);
    assert(has_date_shape(t));
    assert(numbers_of_text(t) == d);
}

/// A text that writes a date is the text of that date: no date has two texts.
pub proof fn lemma_date_text_is_unique(t: Seq<char>)
    requires
        date_of_text(t).is_some(),
    ensures
        date_text(date_of_text(t).unwrap()) == t,
{
    let d = numbers_of_text(t);
    lemma_two_digits_are_unique(t, 0);
    lemma_two_digits_are_unique(t, 2);
    lemma_two_digits_are_unique(t, 5);
    lemma_two_digits_are_unique(t, 8);
    assert(d.year / 100 == two_digit_number(t, 0));
    assert(d.year % 100 == two_digit_number(t, 2));
    assert(date_text(d) =~= t);
}

/// The value of `c` where it is an ASCII digit.
fn digit_of(c: char) -> (r: Option<u32>)
    ensures
        r.is_some() == is_digit(c),
        r.is_some() ==> r.unwrap() == digit_value(c),
{
    let v: u32 = c as u32;
    if 48 <= v && v <= 57 {
        Some(v - 48)
    } else {
        None
    }
}

/// The number that the two characters of `text` from position `i` write, where
/// both are ASCII digits.
fn two_digits_at(text: &str, i: usize) -> (r: Option<u32>)
    requires
        i + 1 < text@.len(),
        i < usize::MAX,
    ensures
        r.is_some() == (is_digit(text@[i as int]) && is_digit(text@[i + 1])),
        r.is_some() ==> r.unwrap() == two_digit_number(text@, i as int),
{
    let hi = digit_of(text.get_char(i));
    let lo = digit_of(text.get_char(i + 1));
    match (hi, lo) {
        (Some(h), Some(l)) => Some(10 * h + l),
        _ => None,
    }
}

/// A calendar date. Every value of this type is an existing day between
/// 0000-01-01 and 9999-12-31.
#[derive(Clone, Copy, Debug, PartialEq, Eq, Structural)]
pub struct Date {
    year: i32,
    month: u32,
    day: u32,
}

impl View for Date {
    type V = Ymd;

    closed spec fn view(&self) -> Ymd {
        Ymd { year: self.year as int, month: self.month as int, day: self.day as int }
    }
}

/// `NaiveDate::from_ymd_opt` of chrono, with the date it accepted handed back
/// as its three numbers. The contract claims what chrono documents: the result
/// is `None` exactly when the year is outside chrono's range, the month is not
/// one of 1 to 12, or the day does not exist in that month; otherwise it is the
/// date that was asked for.
#[verifier::external_body]
fn chrono_from_ymd_opt(year: i32, month: u32, day: u32) -> (r: Option<(i32, u32, u32)>)
    ensures
        r.is_some() == is_calendar_day(year as int, month as int, day as int),
        r.is_some() ==> r == Some((year, month, day)),
{
    NaiveDate::from_ymd_opt(year, month, day).map(|d| (d.year(), d.month(), d.day()))
}

/// The `Display` of chrono's `NaiveDate`, asked of the date that
/// `NaiveDate::from_ymd_opt` makes of the given numbers. The contract claims
/// what chrono documents for a year from 0 to 9999: the text is the year in
/// four digits, the month in two and the day in two, each padded with zeros,
/// joined by hyphens.
#[verifier::external_body]
fn chrono_date_text(year: i32, month: u32, day: u32) -> (s: String)
    requires
        (Ymd { year: year as int, month: month as int, day: day as int }).wf(),
    ensures
        s@ == date_text(Ymd { year: year as int, month: month as int, day: day as int }),
{
    NaiveDate::from_ymd_opt(year, month, day).map(|d| d.to_string()).unwrap_or_default()
}

impl Date {
    #[verifier::type_invariant]
    spec fn inv(self) -> bool {
        self@.wf()
    }

    /// The date of the given year, month and day, where that day exists and
    /// its year lies between 0 and 9999.
    pub fn from_ymd_opt(year: i32, month: u32, day: u32) -> (r: Option<Date>)
        ensures
            r.is_some() == (Ymd { year: year as int, month: month as int, day: day as int }).wf(),
            r.is_some() ==> r.unwrap()@ == (Ymd {
                year: year as int,
                month: month as int,
                day: day as int,
            }),
    {
        if year < MIN_YEAR || year > MAX_YEAR {
            return None;
        }
        match chrono_from_ymd_opt(year, month, day) {
            Some((y, m, d)) => Some(Date { year: y, month: m, day: d }),
            None => None,
        }
    }

    /// Reads a date written as `YYYY-MM-DD`. Any other text, and the text of
    /// a day that does not exist, gives `None`.
    pub fn parse(text: &str) -> (r: Option<Date>)
        ensures
            r.is_some() == date_of_text(text@).is_some(),
            r.is_some() ==> Some(r.unwrap()@) == date_of_text(text@),
    {
        if text.unicode_len() != 10 {
            return None;
        }
        if text.get_char(4) != '-' || text.get_char(7) != '-' {
            return None;
        }
        let century = two_digits_at(text, 0);
        let years = two_digits_at(text, 2);
        let month = two_digits_at(text, 5);
        let day = two_digits_at(text, 8);
        match (century, years, month, day) {
            (Some(c), Some(y), Some(m), Some(d)) => {
                let year: u32 = 100 * c + y;
                Date::from_ymd_opt(year as i32, m, d)
            },
            _ => None,
        }
    }

    /// The text of the date: `YYYY-MM-DD`.
    pub fn to_text(&self) -> (s: String)
        ensures
            s@ == date_text(self@),
            self@.wf(),
    {
        proof {
            use_type_invariant(self);
        }
        chrono_date_text(self.year, self.month, self.day)
    }

    /// The year of the date, from 0 to 9999.
    pub fn year(&self) -> (y: i32)
        ensures
            y == self@.year,
            self@.wf(),
    {
        proof {
            use_type_invariant(self);
        }
        self.year
    }

    /// The month of the date, from 1 to 12.
    pub fn month(&self) -> (m: u32)
        ensures
            m == self@.month,
            self@.wf(),
    {
        proof {
            use_type_invariant(self);
        }
        self.month
    }

    /// The day of the month, from 1 to the last day of that month.
    pub fn day(&self) -> (d: u32)
        ensures
            d == self@.day,
            self@.wf(),
    {
        proof {
            use_type_invariant(self);
        }
        self.day
    }
}

} // verus!
