//! Calendar dates as values: making them, stepping through them, writing and
//! reading them, and resolving the date tokens of the command line.

use vstd::prelude::*;
use vstd::string::*;
use chrono::{Datelike, Days, Local, NaiveDate};
use crate::calendar::{
    days_before_month, days_before_year, days_earlier, is_calendar_day, is_leap_year,
    lemma_days_earlier, lemma_next, lemma_order, lemma_prev, CalendarDate, MAX_YEAR, MIN_YEAR,
};
use crate::error::{OuraError, OuraErrorView};
use crate::text::{digit_char, lemma_four_digits, lemma_two_digits, zero_padded};

verus! {

/// The year as `%Y` writes it: four digits, and a sign where four digits do
/// not say which year it is.
pub open spec fn year_text(year: int) -> Seq<char> {
    if year < 0 {
        seq!['-'] + zero_padded((-year) as nat, 4)
    } else if year > 9999 {
        seq!['+'] + zero_padded(year as nat, 4)
    } else {
        zero_padded(year as nat, 4)
    }
}

/// Three-letter English name of a weekday, counted from Sunday (0).
pub open spec fn weekday_name(weekday: int) -> Seq<char> {
    if weekday == 0 {
        "Sun"@
    } else if weekday == 1 {
        "Mon"@
    } else if weekday == 2 {
        "Tue"@
    } else if weekday == 3 {
        "Wed"@
    } else if weekday == 4 {
        "Thu"@
    } else if weekday == 5 {
        "Fri"@
    } else {
        "Sat"@
    }
}

/// Three-letter English name of a month (1 to 12).
pub open spec fn month_name(month: int) -> Seq<char> {
    if month == 1 {
        "Jan"@
    } else if month == 2 {
        "Feb"@
    } else if month == 3 {
        "Mar"@
    } else if month == 4 {
        "Apr"@
    } else if month == 5 {
        "May"@
    } else if month == 6 {
        "Jun"@
    } else if month == 7 {
        "Jul"@
    } else if month == 8 {
        "Aug"@
    } else if month == 9 {
        "Sep"@
    } else if month == 10 {
        "Oct"@
    } else if month == 11 {
        "Nov"@
    } else {
        "Dec"@
    }
}

impl CalendarDate {
    /// The date that three numbers name, if there is such a day.
    pub open spec fn of(year: int, month: int, day: int) -> Option<CalendarDate> {
        if MIN_YEAR <= year <= MAX_YEAR && is_calendar_day(year, month, day) {
            Some(CalendarDate { year: year as i32, month: month as u32, day: day as u32 })
        } else {
            None
        }
    }

    /// The date written as `YYYY-MM-DD`.
    pub open spec fn iso_text(self) -> Seq<char> {
        year_text(self.year as int) + seq!['-'] + zero_padded(self.month as nat, 2) + seq!['-']
            + zero_padded(self.day as nat, 2)
    }

    /// The date as a table label: weekday, month and day, as in `Sat Feb 10`.
    pub open spec fn label_text(self) -> Seq<char> {
        weekday_name(self.weekday()) + seq![' '] + month_name(self.month as int) + seq![' ']
            + zero_padded(self.day as nat, 2)
    }
}

/// `NaiveDate::from_ymd_opt` answers with a date exactly for the days that
/// the proleptic Gregorian calendar has in the years -262143 to 262142.
#[verifier::external_body]
fn chrono_has_day(year: i32, month: u32, day: u32) -> (found: bool)
    ensures
        found == (CalendarDate::of(year as int, month as int, day as int) is Some),
{
    NaiveDate::from_ymd_opt(year, month, day).is_some()
}

/// `NaiveDate::succ_opt` gives the following day, and nothing after the last
/// supported day.
#[verifier::external_body]
fn chrono_succ(date: CalendarDate) -> (after: Option<CalendarDate>)
    requires
        date.wf(),
    ensures
        after == if date == CalendarDate::last() {
            None
        } else {
            Some(date.next())
        },
{
    let day = NaiveDate::from_ymd_opt(date.year, date.month, date.day)?;
    let next = day.succ_opt()?;
    Some(CalendarDate { year: next.year(), month: next.month(), day: next.day() })
}

/// `NaiveDate::pred_opt` gives the preceding day, and nothing before the
/// first supported day.
#[verifier::external_body]
fn chrono_pred(date: CalendarDate) -> (before: Option<CalendarDate>)
    requires
        date.wf(),
    ensures
        before == if date == CalendarDate::first() {
            None
        } else {
            Some(date.prev())
        },
{
    let day = NaiveDate::from_ymd_opt(date.year, date.month, date.day)?;
    let prev = day.pred_opt()?;
    Some(CalendarDate { year: prev.year(), month: prev.month(), day: prev.day() })
}

/// `NaiveDate::checked_sub_days` goes back the given number of days, and
/// gives nothing where that would leave the supported days.
#[verifier::external_body]
fn chrono_sub_days(date: CalendarDate, count: u64) -> (earlier: Option<CalendarDate>)
    requires
        date.wf(),
    ensures
        earlier == days_earlier(date, count as nat),
{
    let day = NaiveDate::from_ymd_opt(date.year, date.month, date.day)?;
    let back = day.checked_sub_days(Days::new(count))?;
    Some(CalendarDate { year: back.year(), month: back.month(), day: back.day() })
}

/// `NaiveDate::format` with `%Y-%m-%d` writes the year in four digits (signed
/// outside 0 to 9999), then month and day in two digits each, with hyphens
/// between.
#[verifier::external_body]
fn chrono_format_iso(date: CalendarDate) -> (text: String)
    requires
        date.wf(),
    ensures
        text@ == date.iso_text(),
{
    match NaiveDate::from_ymd_opt(date.year, date.month, date.day) {
        Some(day) => day.format("%Y-%m-%d").to_string(),
        None => String::new(),
    }
}

/// `NaiveDate::format` with `%a %b %d` writes the English three-letter names
/// of the weekday and the month, then the day in two digits, with one space
/// between.
#[verifier::external_body]
fn chrono_format_label(date: CalendarDate) -> (text: String)
    requires
        date.wf(),
    ensures
        text@ == date.label_text(),
{
    match NaiveDate::from_ymd_opt(date.year, date.month, date.day) {
        Some(day) => day.format("%a %b %d").to_string(),
        None => String::new(),
    }
}

/// Year, month and day of `Local::now`, the machine's clock read in its own
/// time zone. Which day the clock shows is not claimed, only that it is a day
/// that a `NaiveDate` can hold: `DateTime::date_naive` gives up where the
/// local date would lie outside that range, as `Local::now` does where the
/// clock stands before 1970.
#[verifier::external_body]
fn chrono_today() -> (parts: (i32, u32, u32))
    ensures
        CalendarDate::of(parts.0 as int, parts.1 as int, parts.2 as int) is Some,
{
    let day = Local::now().date_naive();
    (day.year(), day.month(), day.day())
}

impl CalendarDate {
    /// The date of the given year, month and day, if the calendar has it.
    pub fn new(year: i32, month: u32, day: u32) -> (date: Option<CalendarDate>)
        ensures
            date == CalendarDate::of(year as int, month as int, day as int),
            date matches Some(d) ==> d.wf(),
    {
        if chrono_has_day(year, month, day) {
            Some(CalendarDate { year, month, day })
        } else {
            None
        }
    }

    /// The following day; `None` after the last supported day.
    pub fn succ(&self) -> (after: Option<CalendarDate>)
        requires
            self.wf(),
        ensures
            after is Some <==> *self != CalendarDate::last(),
            after matches Some(d) ==> d == self.next() && d.wf() && d.day_number()
                == self.day_number() + 1,
    {
        proof {
            if *self != CalendarDate::last() {
                lemma_next(*self);
            }
        }
        chrono_succ(*self)
    }

    /// The preceding day; `None` before the first supported day.
    pub fn pred(&self) -> (before: Option<CalendarDate>)
        requires
            self.wf(),
        ensures
            before is Some <==> *self != CalendarDate::first(),
            before matches Some(d) ==> d == self.prev() && d.wf() && d.day_number()
                == self.day_number() - 1,
    {
        proof {
            if *self != CalendarDate::first() {
                lemma_prev(*self);
            }
        }
        chrono_pred(*self)
    }

    /// The day `count` days earlier; `None` where that is before the first
    /// supported day.
    pub fn checked_sub_days(&self, count: u64) -> (earlier: Option<CalendarDate>)
        requires
            self.wf(),
        ensures
            earlier == days_earlier(*self, count as nat),
            earlier is Some <==> self.day_number() - count >= CalendarDate::first().day_number(),
            earlier matches Some(d) ==> d.wf() && d.day_number() == self.day_number() - count,
    {
        proof {
            lemma_days_earlier(*self, count as nat);
        }
        chrono_sub_days(*self, count)
    }

    /// Whether this day comes earlier in the calendar than `other`.
    pub fn before(&self, other: &CalendarDate) -> (earlier: bool)
        ensures
            earlier == self.is_before(*other),
            self.wf() && other.wf() ==> earlier == (self.day_number() < other.day_number()),
    {
        proof {
            if self.wf() && other.wf() {
                lemma_order(*self, *other);
            }
        }
        self.year < other.year || (self.year == other.year && (self.month < other.month || (
        self.month == other.month && self.day < other.day)))
    }

    /// The date written as `YYYY-MM-DD`.
    pub fn to_iso(&self) -> (text: String)
        requires
            self.wf(),
        ensures
            text@ == self.iso_text(),
    {
        chrono_format_iso(*self)
    }

    /// The date as a table label, as in `Sat Feb 10`.
    pub fn label(&self) -> (text: String)
        requires
            self.wf(),
        ensures
            text@ == self.label_text(),
    {
        chrono_format_label(*self)
    }
}

/// Whether `year` is a leap year.
fn leap_year(year: i32) -> (leap: bool)
    ensures
        leap == is_leap_year(year as int),
{
    year % 4 == 0 && (year % 100 != 0 || year % 400 == 0)
}

/// The days of a year that lie before the first of `month`.
fn month_offset(year: i32, month: u32) -> (days: i64)
    requires
        1 <= month <= 12,
    ensures
        days == days_before_month(year as int, month as int),
        0 <= days <= 335,
{
    let before: i64 = if month == 1 {
        0
    } else if month == 2 {
        31
    } else if month == 3 {
        59
    } else if month == 4 {
        90
    } else if month == 5 {
        120
    } else if month == 6 {
        151
    } else if month == 7 {
        181
    } else if month == 8 {
        212
    } else if month == 9 {
        243
    } else if month == 10 {
        273
    } else if month == 11 {
        304
    } else {
        334
    };
    proof {
        reveal_with_fuel(days_before_month, 13);
    }
    if month > 2 && leap_year(year) {
        before + 1
    } else {
        before
    }
}

/// The days from 1 January of year 1 up to 1 January of `year`.
fn year_offset(year: i32) -> (days: i64)
    requires
        MIN_YEAR <= year <= MAX_YEAR,
    ensures
        days == days_before_year(year as int),
{
    let past: i64 = year as i64 - 1;
    let shifted: i64 = past + 262400;
    assert(shifted / 4 == past as int / 4 + 65600);
    assert(shifted / 100 == past as int / 100 + 2624);
    assert(shifted / 400 == past as int / 400 + 656);
    365 * past + (shifted / 4 - shifted / 100 + shifted / 400 - 63632)
}

impl CalendarDate {
    /// The running number of the day: 1 for 1 January of year 1.
    pub fn serial(&self) -> (number: i64)
        requires
            self.wf(),
        ensures
            number == self.day_number(),
    {
        year_offset(self.year) + month_offset(self.year, self.month) + self.day as i64
    }
}

/// Whether a character is one of the ten digits.
pub open spec fn is_digit(c: char) -> bool {
    '0' <= c && c <= '9'
}

/// The number that a digit stands for.
pub open spec fn digit_value(c: char) -> int {
    c as int - 48
}

/// The number that the two digits at `at` and after it write.
pub open spec fn two_digit_value(text: Seq<char>, at: int) -> int {
    10 * digit_value(text[at]) + digit_value(text[at + 1])
}

/// Whether a text has the form `YYYY-MM-DD`: ten characters, hyphens in the
/// fifth and eighth place and digits elsewhere.
pub open spec fn has_date_shape(text: Seq<char>) -> bool {
    &&& text.len() == 10
    &&& is_digit(text[0])
    &&& is_digit(text[1])
    &&& is_digit(text[2])
    &&& is_digit(text[3])
    &&& text[4] == '-'
    &&& is_digit(text[5])
    &&& is_digit(text[6])
    &&& text[7] == '-'
    &&& is_digit(text[8])
    &&& is_digit(text[9])
}

/// The day that a text of the form `YYYY-MM-DD` names, if the calendar has it.
pub open spec fn parsed_date(text: Seq<char>) -> Option<CalendarDate> {
    if has_date_shape(text) {
        CalendarDate::of(
            100 * two_digit_value(text, 0) + two_digit_value(text, 2),
            two_digit_value(text, 5),
            two_digit_value(text, 8),
        )
    } else {
        None
    }
}

/// The ten characters of a day of the years 0 to 9999 written as
/// `YYYY-MM-DD`.
pub open spec fn date_digits(year: int, month: int, day: int) -> Seq<char> {
    seq![
        digit_char(year / 1000),
        digit_char(year / 100 % 10),
        digit_char(year / 10 % 10),
        digit_char(year % 10),
        '-',
        digit_char(month / 10),
        digit_char(month % 10),
        '-',
        digit_char(day / 10),
        digit_char(day % 10),
    ]
}

proof fn lemma_iso_text_digits(date: CalendarDate)
    requires
        0 <= date.year <= 9999,
        date.month < 100,
        date.day < 100,
    ensures
        date.iso_text() == date_digits(date.year as int, date.month as int, date.day as int),
{
    lemma_four_digits(date.year as nat);
    lemma_two_digits(date.month as nat);
    lemma_two_digits(date.day as nat);
    assert(date.iso_text() =~= date_digits(
        date.year as int,
        date.month as int,
        date.day as int,
    ));
}

proof fn lemma_digit_reads_back(k: int)
    requires
        0 <= k <= 9,
    ensures
        is_digit(digit_char(k)),
        digit_value(digit_char(k)) == k,
{
}

proof fn lemma_digits_read_back(year: int, month: int, day: int)
    requires
        0 <= year <= 9999,
        0 <= month <= 99,
        0 <= day <= 99,
    ensures
        has_date_shape(date_digits(year, month, day)),
        100 * two_digit_value(date_digits(year, month, day), 0) + two_digit_value(
            date_digits(year, month, day),
            2,
        ) == year,
        two_digit_value(date_digits(year, month, day), 5) == month,
        two_digit_value(date_digits(year, month, day), 8) == day,
{
    let digits = date_digits(year, month, day);
    lemma_digit_reads_back(year / 1000);
    lemma_digit_reads_back(year / 100 % 10);
    lemma_digit_reads_back(year / 10 % 10);
    lemma_digit_reads_back(year % 10);
    lemma_digit_reads_back(month / 10);
    lemma_digit_reads_back(month % 10);
    lemma_digit_reads_back(day / 10);
    lemma_digit_reads_back(day % 10);
    assert(digits.len() == 10);
    assert(digits[0] == digit_char(year / 1000));
    assert(digits[1] == digit_char(year / 100 % 10));
    assert(digits[2] == digit_char(year / 10 % 10));
    assert(digits[3] == digit_char(year % 10));
    assert(digits[4] == '-');
    assert(digits[5] == digit_char(month / 10));
    assert(digits[6] == digit_char(month % 10));
    assert(digits[7] == '-');
    assert(digits[8] == digit_char(day / 10));
    assert(digits[9] == digit_char(day % 10));
    assert(10 * (year / 1000) + year / 100 % 10 == year / 100);
    assert(10 * (year / 10 % 10) + year % 10 == year % 100);
}

proof fn lemma_two_digit_parts(tens: int, ones: int)
    requires
        0 <= tens <= 9,
        0 <= ones <= 9,
    ensures
        (10 * tens + ones) / 10 == tens,
        (10 * tens + ones) % 10 == ones,
{
}

proof fn lemma_four_digit_parts(a: int, b: int, c: int, d: int)
    requires
        0 <= a <= 9,
        0 <= b <= 9,
        0 <= c <= 9,
        0 <= d <= 9,
    ensures
        ({
            let n = 100 * (10 * a + b) + (10 * c + d);
            &&& 0 <= n <= 9999
            &&& n / 1000 == a
            &&& n / 100 % 10 == b
            &&& n / 10 % 10 == c
            &&& n % 10 == d
        }),
{
    let n = 100 * (10 * a + b) + (10 * c + d);
    assert(n / 1000 == a);
    assert(n / 100 == 10 * a + b);
    assert(n / 10 == 100 * a + 10 * b + c);
}

proof fn lemma_digit_is_written(c: char)
    requires
        is_digit(c),
    ensures
        0 <= digit_value(c) <= 9,
        digit_char(digit_value(c)) == c,
{
}

proof fn lemma_shape_is_digits(text: Seq<char>)
    requires
        has_date_shape(text),
    ensures
        ({
            let year = 100 * two_digit_value(text, 0) + two_digit_value(text, 2);
            let month = two_digit_value(text, 5);
            let day = two_digit_value(text, 8);
            &&& 0 <= year <= 9999
            &&& 0 <= month <= 99
            &&& 0 <= day <= 99
            &&& text == date_digits(year, month, day)
        }),
{
    let year = 100 * two_digit_value(text, 0) + two_digit_value(text, 2);
    let month = two_digit_value(text, 5);
    let day = two_digit_value(text, 8);
    lemma_digit_is_written(text[0]);
    lemma_digit_is_written(text[1]);
    lemma_digit_is_written(text[2]);
    lemma_digit_is_written(text[3]);
    lemma_digit_is_written(text[5]);
    lemma_digit_is_written(text[6]);
    lemma_digit_is_written(text[8]);
    lemma_digit_is_written(text[9]);
    lemma_four_digit_parts(
        digit_value(text[0]),
        digit_value(text[1]),
        digit_value(text[2]),
        digit_value(text[3]),
    );
    lemma_two_digit_parts(digit_value(text[5]), digit_value(text[6]));
    lemma_two_digit_parts(digit_value(text[8]), digit_value(text[9]));
    let digits = date_digits(year, month, day);
    assert(digits.len() == 10);
    assert(digits[0] == text[0]);
    assert(digits[1] == text[1]);
    assert(digits[2] == text[2]);
    assert(digits[3] == text[3]);
    assert(digits[4] == text[4]);
    assert(digits[5] == text[5]);
    assert(digits[6] == text[6]);
    assert(digits[7] == text[7]);
    assert(digits[8] == text[8]);
    assert(digits[9] == text[9]);
    assert(text =~= digits);
}

/// A day of the years 0 to 9999, written as `YYYY-MM-DD`, reads back as
/// itself.
pub proof fn lemma_written_date_reads_back(date: CalendarDate)
    requires
        date.wf(),
        0 <= date.year <= 9999,
    ensures
        parsed_date(date.iso_text()) == Some(date),
{
    lemma_iso_text_digits(date);
    lemma_digits_read_back(date.year as int, date.month as int, date.day as int);
}

/// A text that reads as a day is that day written as `YYYY-MM-DD`.
pub proof fn lemma_read_date_is_written(text: Seq<char>, date: CalendarDate)
    requires
        parsed_date(text) == Some(date),
    ensures
        date.iso_text() == text,
        date.wf(),
        0 <= date.year <= 9999,
{
    lemma_shape_is_digits(text);
    lemma_iso_text_digits(date);
}

/// The number that the character at `at` stands for, if it is a digit.
fn digit_at(text: &str, at: usize) -> (value: Option<u32>)
    requires
        at < text@.len(),
    ensures
        value is Some <==> is_digit(text@[at as int]),
        value matches Some(v) ==> v == digit_value(text@[at as int]),
{
    let c = text.get_char(at);
    if '0' <= c && c <= '9' {
        Some(c as u32 - 48)
    } else {
        None
    }
}

/// The number that the two characters at `at` write, if both are digits.
fn two_digits_at(text: &str, at: usize) -> (value: Option<u32>)
    requires
        at < 9,
        text@.len() == 10,
    ensures
        value is Some <==> is_digit(text@[at as int]) && is_digit(text@[at + 1]),
        value matches Some(v) ==> v == two_digit_value(text@, at as int) && v <= 99,
{
    match (digit_at(text, at), digit_at(text, at + 1)) {
        (Some(tens), Some(ones)) => Some(10 * tens + ones),
        _ => None,
    }
}

/// Reads a date written strictly as `YYYY-MM-DD`. Anything else, and any
/// day that the calendar does not have, is an invalid date.
pub fn parse_date(text: &str) -> (date: Result<CalendarDate, OuraError>)
    ensures
        match date {
            Ok(d) => parsed_date(text@) == Some(d) && d.wf(),
            Err(e) => parsed_date(text@) is None && e@ == OuraErrorView::InvalidDate,
        },
{
    if text.unicode_len() != 10 {
        return Err(OuraError::InvalidDate);
    }
    if text.get_char(4) != '-' || text.get_char(7) != '-' {
        return Err(OuraError::InvalidDate);
    }
    let parts = (
        two_digits_at(text, 0),
        two_digits_at(text, 2),
        two_digits_at(text, 5),
        two_digits_at(text, 8),
    );
    match parts {
        (Some(century), Some(years), Some(month), Some(day)) => {
            let year: u32 = 100 * century + years;
            match CalendarDate::new(year as i32, month, day) {
                Some(d) => Ok(d),
                None => Err(OuraError::InvalidDate),
            }
        },
        _ => Err(OuraError::InvalidDate),
    }
}

/// A letter of `A` to `Z` as its small letter; any other character unchanged.
pub open spec fn ascii_lower(c: char) -> char {
    if 'A' <= c && c <= 'Z' {
        ((c as u8) + 32) as char
    } else {
        c
    }
}

/// Two texts are the same but for the case of the letters `A` to `Z`.
pub open spec fn same_ignoring_case(a: Seq<char>, b: Seq<char>) -> bool {
    &&& a.len() == b.len()
    &&& forall|i: int| 0 <= i < a.len() ==> ascii_lower(#[trigger] a[i]) == ascii_lower(b[i])
}

fn lower(c: char) -> (small: char)
    ensures
        small == ascii_lower(c),
{
    if 'A' <= c && c <= 'Z' {
        ((c as u8) + 32) as char
    } else {
        c
    }
}

/// Whether `text` is `word`, in whatever case its letters are written.
pub fn is_word(text: &str, word: &str) -> (same: bool)
    ensures
        same == same_ignoring_case(text@, word@),
{
    let len = text.unicode_len();
    if len != word.unicode_len() {
        return false;
    }
    let mut i: usize = 0;
    while i < len
        invariant
            i <= len,
            len == text@.len(),
            len == word@.len(),
            forall|j: int| 0 <= j < i ==> ascii_lower(#[trigger] text@[j]) == ascii_lower(word@[j]),
        decreases len - i,
    {
        if lower(text.get_char(i)) != lower(word.get_char(i)) {
            return false;
        }
        i = i + 1;
    }
    true
}

/// The day that a date token names on a given day: today where there is no
/// token or the word `today`, the day before for `yesterday`, and otherwise
/// the day that the token writes as `YYYY-MM-DD`.
pub open spec fn resolved_date(today: CalendarDate, token: Option<Seq<char>>) -> Option<
    CalendarDate,
> {
    match token {
        None => Some(today),
        Some(t) => if same_ignoring_case(t, "today"@) {
            Some(today)
        } else if same_ignoring_case(t, "yesterday"@) {
            if today == CalendarDate::first() {
                None
            } else {
                Some(today.prev())
            }
        } else {
            parsed_date(t)
        },
    }
}

/// The text of a token, where there is one.
pub open spec fn token_text(token: Option<&str>) -> Option<Seq<char>> {
    match token {
        Some(t) => Some(t@),
        None => None,
    }
}

/// Resolves a date token against the day given as today.
pub fn resolve_date_on(today: CalendarDate, input: Option<&str>) -> (date: Result<
    CalendarDate,
    OuraError,
>)
    requires
        today.wf(),
    ensures
        match date {
            Ok(d) => resolved_date(today, token_text(input)) == Some(d) && d.wf(),
            Err(e) => resolved_date(today, token_text(input)) is None && e@
                == OuraErrorView::InvalidDate,
        },
{
    match input {
        None => Ok(today),
        Some(token) => {
            if is_word(token, "today") {
                Ok(today)
            } else if is_word(token, "yesterday") {
                match today.pred() {
                    Some(d) => Ok(d),
                    None => Err(OuraError::InvalidDate),
                }
            } else {
                parse_date(token)
            }
        },
    }
}

/// Today by the machine's clock, read in its own time zone: always a
/// supported day, whichever the clock shows.
pub fn today() -> (date: Option<CalendarDate>)
    ensures
        date matches Some(d) && d.wf(),
{
    let (year, month, day) = chrono_today();
    CalendarDate::new(year, month, day)
}

/// Resolves a date token against the machine's clock. No token and the
/// word `today` always give a day; a token that writes a date gives that
/// date whatever the clock says.
pub fn resolve_date(input: Option<&str>) -> (date: Result<CalendarDate, OuraError>)
    ensures
        match date {
            Ok(d) => d.wf() && exists|today: CalendarDate|
                today.wf() && resolved_date(today, token_text(input)) == Some(d),
            Err(e) => e@ == OuraErrorView::InvalidDate,
        },
        match input {
            Some(t) => if same_ignoring_case(t@, "today"@) {
                date is Ok
            } else {
                !same_ignoring_case(t@, "yesterday"@) ==> match date {
                    Ok(d) => parsed_date(t@) == Some(d),
                    Err(_) => parsed_date(t@) is None,
                }
            },
            None => date is Ok,
        },
{
    match today() {
        Some(today) => resolve_date_on(today, input),
        None => match input {
            Some(token) => {
                if is_word(token, "today") || is_word(token, "yesterday") {
                    Err(OuraError::InvalidDate)
                } else {
                    let date = parse_date(token);
                    proof {
                        if let Ok(d) = date {
                            assert(resolved_date(d, token_text(input)) == Some(d));
                        }
                    }
                    date
                }
            },
            None => Err(OuraError::InvalidDate),
        },
    }
}

} // verus!
