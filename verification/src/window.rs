//! Ranges of calendar days, and the trailing window that a trend covers.

use vstd::prelude::*;
use crate::calendar::{
    days_earlier, lemma_days_earlier, lemma_next, lemma_order, CalendarDate,
};

verus! {

/// The day `count` days after `date`.
pub open spec fn days_later(date: CalendarDate, count: nat) -> CalendarDate
    decreases count,
{
    if count == 0 {
        date
    } else {
        days_later(date, (count - 1) as nat).next()
    }
}

/// Going forward `count` days raises the running number by `count`, as long
/// as that stays within the supported days.
pub proof fn lemma_days_later(date: CalendarDate, count: nat)
    requires
        date.wf(),
        date.day_number() + count <= CalendarDate::last().day_number(),
    ensures
        days_later(date, count).wf(),
        days_later(date, count).day_number() == date.day_number() + count,
    decreases count,
{
    if count > 0 {
        let before = days_later(date, (count - 1) as nat);
        lemma_days_later(date, (count - 1) as nat);
        lemma_order(before, CalendarDate::last());
        lemma_next(before);
    }
}

/// A first and a last day, both included. A range whose first day comes after
/// its last holds no day at all.
#[derive(Clone, Copy, Debug, PartialEq, Eq, Structural)]
pub struct DateRange {
    pub start: CalendarDate,
    pub end: CalendarDate,
}

impl DateRange {
    /// Both ends are supported days.
    pub open spec fn wf(self) -> bool {
        self.start.wf() && self.end.wf()
    }

    /// The number of days in the range.
    pub open spec fn len(self) -> nat {
        if self.end.day_number() < self.start.day_number() {
            0
        } else {
            (self.end.day_number() - self.start.day_number() + 1) as nat
        }
    }

    /// The days of the range, from the first to the last.
    pub open spec fn day_list(self) -> Seq<CalendarDate> {
        Seq::new(self.len(), |i: int| days_later(self.start, i as nat))
    }

    /// The days of the range, from the first to the last.
    pub fn days(&self) -> (list: Vec<CalendarDate>)
        requires
            self.wf(),
        ensures
            list@ == self.day_list(),
            forall|i: int| 0 <= i < list.len() ==> (#[trigger] list[i]).wf(),
    {
        proof {
            lemma_range_days(*self);
        }
        let mut list: Vec<CalendarDate> = Vec::new();
        let mut current = self.start;
        let mut more = !self.end.before(&self.start);
        while more
            invariant
                self.wf(),
                current.wf(),
                more ==> current.day_number() <= self.end.day_number() && list.len()
                    == current.day_number() - self.start.day_number() && current == days_later(
                    self.start,
                    list.len() as nat,
                ),
                !more ==> list.len() == self.len(),
                list.len() <= self.len(),
                forall|i: int| 0 <= i < list.len() ==> list[i] == days_later(self.start, i as nat),
            decreases
                    (if more {
                        self.end.day_number() - current.day_number() + 1
                    } else {
                        0
                    }),
        {
            list.push(current);
            let after = if current.before(&self.end) {
                proof {
                    lemma_order(self.end, CalendarDate::last());
                    lemma_order(current, CalendarDate::last());
                }
                current.succ()
            } else {
                None
            };
            match after {
                Some(day) => {
                    current = day;
                },
                None => {
                    proof {
                        lemma_order(current, self.end);
                    }
                    more = false;
                },
            }
        }
        assert(list@ =~= self.day_list());
        list
    }
}

/// The days of a range are supported days with running numbers that rise
/// by one from the first day of the range to its last.
pub proof fn lemma_range_days(range: DateRange)
    requires
        range.wf(),
    ensures
        forall|i: int|
            0 <= i < range.day_list().len() ==> (#[trigger] range.day_list()[i]).wf()
                && range.day_list()[i].day_number() == range.start.day_number() + i,
        range.len() > 0 ==> range.day_list()[0] == range.start && range.day_list().last()
            == range.end,
{
    let days = range.day_list();
    lemma_order(range.end, CalendarDate::last());
    assert forall|i: int| 0 <= i < days.len() implies (#[trigger] days[i]).wf()
        && days[i].day_number() == range.start.day_number() + i by {
        lemma_days_later(range.start, i as nat);
    }
    if range.len() > 0 {
        lemma_order(days.last(), range.end);
    }
}

/// The first day of the window of `count` days that ends on `today`: the day
/// `count - 1` days earlier. A window of no days starts on the day after.
pub open spec fn window_start(today: CalendarDate, count: nat) -> Option<CalendarDate> {
    if count == 0 {
        if today == CalendarDate::last() {
            None
        } else {
            Some(today.next())
        }
    } else {
        days_earlier(today, (count - 1) as nat)
    }
}

/// The range of `count` days that ends on `today`; `None` where its first day
/// lies outside the supported days.
pub fn trailing_window(today: CalendarDate, count: u32) -> (window: Option<DateRange>)
    requires
        today.wf(),
    ensures
        match window {
            Some(range) => window_start(today, count as nat) == Some(range.start) && range.end
                == today && range.wf(),
            None => window_start(today, count as nat) is None,
        },
        count >= 1 ==> (window is Some <==> today.day_number() - (count - 1)
            >= CalendarDate::first().day_number()),
{
    let start = if count == 0 {
        today.succ()
    } else {
        today.checked_sub_days((count - 1) as u64)
    };
    match start {
        Some(first) => Some(DateRange { start: first, end: today }),
        None => None,
    }
}

/// A trailing window of `count` days holds exactly `count` days: each is the
/// day after the one before it, all are supported days, and where there is
/// any day at all the last of them is `today`.
pub proof fn lemma_trailing_window(today: CalendarDate, count: nat, start: CalendarDate)
    requires
        today.wf(),
        window_start(today, count) == Some(start),
    ensures
        ({
            let days = (DateRange { start, end: today }).day_list();
            &&& days.len() == count
            &&& forall|i: int| 0 <= i < days.len() ==> (#[trigger] days[i]).wf()
            &&& forall|i: int|
                0 <= i < days.len() ==> (#[trigger] days[i]).day_number() == today.day_number() - (
                count - 1) + i
            &&& forall|i: int| 0 < i < days.len() ==> #[trigger] days[i] == days[i - 1].next()
            &&& count > 0 ==> days[0] == start && days[count - 1] == today
        }),
{
    let range = DateRange { start, end: today };
    let days = range.day_list();
    lemma_order(today, CalendarDate::last());
    if count == 0 {
        lemma_next(today);
    } else {
        lemma_days_earlier(today, (count - 1) as nat);
        assert(days.len() == count);
        assert forall|i: int| 0 <= i < days.len() implies (#[trigger] days[i]).wf()
            && days[i].day_number() == today.day_number() - (count - 1) + i by {
            lemma_days_later(start, i as nat);
        }
        lemma_order(days[count - 1], today);
    }
}

} // verus!
