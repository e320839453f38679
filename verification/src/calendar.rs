//! The proleptic Gregorian calendar as the reports need it: which days exist,
//! how they follow one another, and how many days lie between two of them.

use vstd::prelude::*;

verus! {

/// First year that a calendar date can hold.
pub const MIN_YEAR: i32 = -262143;

/// Last year that a calendar date can hold.
pub const MAX_YEAR: i32 = 262142;

/// Every fourth year is a leap year, except centuries not divisible by 400.
pub open spec fn is_leap_year(year: int) -> bool {
    year % 4 == 0 && (year % 100 != 0 || year % 400 == 0)
}

/// The number of days of a month (1 to 12) in a given year.
pub open spec fn days_in_month(year: int, month: int) -> int {
    if month == 2 {
        if is_leap_year(year) {
            29
        } else {
            28
        }
    } else if month == 4 || month == 6 || month == 9 || month == 11 {
        30
    } else {
        31
    }
}

/// The number of days in a year.
pub open spec fn days_in_year(year: int) -> int {
    if is_leap_year(year) {
        366
    } else {
        365
    }
}

/// Whether the calendar has a day `day` in month `month` of `year`.
pub open spec fn is_calendar_day(year: int, month: int, day: int) -> bool {
    1 <= month <= 12 && 1 <= day <= days_in_month(year, month)
}

/// The days of the year that lie before the first of `month`.
pub open spec fn days_before_month(year: int, month: int) -> int
    decreases month,
{
    if month <= 1 {
        0
    } else {
        days_before_month(year, month - 1) + days_in_month(year, month - 1)
    }
}

/// The days from 1 January of year 1 up to, and without, 1 January of `year`;
/// negative for earlier years.
pub open spec fn days_before_year(year: int) -> int {
    365 * (year - 1) + (year - 1) / 4 - (year - 1) / 100 + (year - 1) / 400
}

/// A day of the calendar. The fields are public; `wf` says which values name
/// a day that exists.
#[derive(Clone, Copy, Debug, PartialEq, Eq, Structural)]
pub struct CalendarDate {
    pub year: i32,
    pub month: u32,
    pub day: u32,
}

impl CalendarDate {
    /// The date names an existing day within the supported years.
    pub open spec fn wf(self) -> bool {
        &&& MIN_YEAR <= self.year <= MAX_YEAR
        &&& is_calendar_day(self.year as int, self.month as int, self.day as int)
    }

    /// The first supported day.
    pub open spec fn first() -> CalendarDate {
        CalendarDate { year: MIN_YEAR, month: 1, day: 1 }
    }

    /// The last supported day.
    pub open spec fn last() -> CalendarDate {
        CalendarDate { year: MAX_YEAR, month: 12, day: 31 }
    }

    /// The running number of the day: 1 for 1 January of year 1, and one more
    /// for each following day.
    pub open spec fn day_number(self) -> int {
        days_before_year(self.year as int) + days_before_month(
            self.year as int,
            self.month as int,
        ) + self.day
    }

    /// The day after this one.
    pub open spec fn next(self) -> CalendarDate {
        if self.day < days_in_month(self.year as int, self.month as int) {
            CalendarDate { year: self.year, month: self.month, day: (self.day + 1) as u32 }
        } else if self.month < 12 {
            CalendarDate { year: self.year, month: (self.month + 1) as u32, day: 1 }
        } else {
            CalendarDate { year: (self.year + 1) as i32, month: 1, day: 1 }
        }
    }

    /// The day before this one.
    pub open spec fn prev(self) -> CalendarDate {
        if self.day > 1 {
            CalendarDate { year: self.year, month: self.month, day: (self.day - 1) as u32 }
        } else if self.month > 1 {
            CalendarDate {
                year: self.year,
                month: (self.month - 1) as u32,
                day: days_in_month(self.year as int, self.month - 1) as u32,
            }
        } else {
            CalendarDate { year: (self.year - 1) as i32, month: 12, day: 31 }
        }
    }

    /// This day comes earlier in the calendar than `other`.
    pub open spec fn is_before(self, other: CalendarDate) -> bool {
        self.year < other.year || (self.year == other.year && (self.month < other.month || (
        self.month == other.month && self.day < other.day)))
    }

    /// Day of the week, counted from Sunday (0) to Saturday (6).
    pub open spec fn weekday(self) -> int {
        self.day_number() % 7
    }
}

/// The day `count` days before `date`, or `None` where that would be before
/// the first supported day.
pub open spec fn days_earlier(date: CalendarDate, count: nat) -> Option<CalendarDate>
    decreases count,
{
    if count == 0 {
        Some(date)
    } else if date == CalendarDate::first() {
        None
    } else {
        days_earlier(date.prev(), (count - 1) as nat)
    }
}

/// A year starts as many days after the one before as that year has days.
pub proof fn lemma_year_step(year: int)
    ensures
        days_before_year(year + 1) == days_before_year(year) + days_in_year(year),
{
}

/// Later years start later, by at least a whole year for each year between.
pub proof fn lemma_years_ascend(a: int, b: int)
    requires
        a <= b,
    ensures
        days_before_year(a) + 365 * (b - a) <= days_before_year(b),
    decreases b - a,
{
    if a < b {
        lemma_years_ascend(a, b - 1);
        lemma_year_step(b - 1);
    }
}

/// A year's months together make up the year.
pub proof fn lemma_months_fill_year(year: int, month: int)
    requires
        1 <= month <= 12,
    ensures
        0 <= days_before_month(year, month),
        days_before_month(year, month) + days_in_month(year, month) <= days_in_year(year),
        month == 12 ==> days_before_month(year, month) + days_in_month(year, month)
            == days_in_year(year),
{
    reveal_with_fuel(days_before_month, 13);
}

/// Within a year, later months start later.
pub proof fn lemma_months_ascend(year: int, a: int, b: int)
    requires
        1 <= a < b <= 12,
    ensures
        days_before_month(year, a) + days_in_month(year, a) <= days_before_month(year, b),
    decreases b - a,
{
    if a + 1 < b {
        lemma_months_ascend(year, a, b - 1);
    }
}

/// The day after a supported day, unless that is the last one, is a
/// supported day again and has the next running number.
pub proof fn lemma_next(date: CalendarDate)
    requires
        date.wf(),
        date != CalendarDate::last(),
    ensures
        date.next().wf(),
        date.next().day_number() == date.day_number() + 1,
        date.next().prev() == date,
{
    lemma_year_step(date.year as int);
    lemma_months_fill_year(date.year as int, date.month as int);
    reveal_with_fuel(days_before_month, 2);
}

/// The day before a supported day, unless that is the first one, is a
/// supported day again and has the previous running number.
pub proof fn lemma_prev(date: CalendarDate)
    requires
        date.wf(),
        date != CalendarDate::first(),
    ensures
        date.prev().wf(),
        date.prev().day_number() == date.day_number() - 1,
        date.prev().next() == date,
{
    lemma_year_step(date.year - 1);
    lemma_months_fill_year(date.year - 1, 12);
    reveal_with_fuel(days_before_month, 2);
}

/// The calendar's order is the order of the running numbers.
pub proof fn lemma_order(a: CalendarDate, b: CalendarDate)
    requires
        a.wf(),
        b.wf(),
    ensures
        a.is_before(b) <==> a.day_number() < b.day_number(),
        a == b <==> a.day_number() == b.day_number(),
{
    lemma_order_one_way(a, b);
    lemma_order_one_way(b, a);
}

proof fn lemma_order_one_way(a: CalendarDate, b: CalendarDate)
    requires
        a.wf(),
        b.wf(),
    ensures
        a.is_before(b) ==> a.day_number() < b.day_number(),
{
    lemma_months_fill_year(a.year as int, a.month as int);
    lemma_months_fill_year(b.year as int, b.month as int);
    if a.year < b.year {
        lemma_year_step(a.year as int);
        lemma_years_ascend(a.year + 1, b.year as int);
    } else if a.year == b.year && a.month < b.month {
        lemma_months_ascend(a.year as int, a.month as int, b.month as int);
    }
}

/// Going back `count` days lowers the running number by `count`, and fails
/// exactly where that leaves the supported days.
pub proof fn lemma_days_earlier(date: CalendarDate, count: nat)
    requires
        date.wf(),
    ensures
        days_earlier(date, count) is Some <==> date.day_number() - count
            >= CalendarDate::first().day_number(),
        days_earlier(date, count) matches Some(d) ==> d.wf() && d.day_number()
            == date.day_number() - count,
    decreases count,
{
    if count > 0 {
        if date == CalendarDate::first() {
        } else {
            lemma_prev(date);
            lemma_days_earlier(date.prev(), (count - 1) as nat);
        }
    }
    lemma_order(CalendarDate::first(), date);
}

} // verus!
