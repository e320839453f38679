//! Joining the three daily series by day, and the averages of their scores.

use vstd::prelude::*;
use vstd::string::*;
use crate::text::same_text;
use crate::models::{DailyActivity, DailyReadiness, DailySleep, DailyStress, Sleep};

verus! {

/// A record that belongs to a day.
pub trait Dated {
    /// The day of the record, as the payload wrote it.
    spec fn day_text(&self) -> Seq<char>;

    fn day(&self) -> (day: &str)
        ensures
            day@ == self.day_text(),
    ;
}

/// A record of a day that may carry a score.
pub trait Scored: Dated {
    /// The score of the record, where it has one.
    spec fn score_value(&self) -> Option<i64>;

    fn score(&self) -> (score: Option<i64>)
        ensures
            score == self.score_value(),
    ;
}

impl Dated for DailySleep {
    open spec fn day_text(&self) -> Seq<char> {
        self.day@
    }

    fn day(&self) -> (day: &str) {
        self.day.as_str()
    }
}

impl Scored for DailySleep {
    open spec fn score_value(&self) -> Option<i64> {
        self.score
    }

    fn score(&self) -> (score: Option<i64>) {
        self.score
    }
}

impl Dated for DailyReadiness {
    open spec fn day_text(&self) -> Seq<char> {
        self.day@
    }

    fn day(&self) -> (day: &str) {
        self.day.as_str()
    }
}

impl Scored for DailyReadiness {
    open spec fn score_value(&self) -> Option<i64> {
        self.score
    }

    fn score(&self) -> (score: Option<i64>) {
        self.score
    }
}

impl Dated for DailyActivity {
    open spec fn day_text(&self) -> Seq<char> {
        self.day@
    }

    fn day(&self) -> (day: &str) {
        self.day.as_str()
    }
}

impl Scored for DailyActivity {
    open spec fn score_value(&self) -> Option<i64> {
        self.score
    }

    fn score(&self) -> (score: Option<i64>) {
        self.score
    }
}

impl Dated for DailyStress {
    open spec fn day_text(&self) -> Seq<char> {
        self.day@
    }

    fn day(&self) -> (day: &str) {
        self.day.as_str()
    }
}

impl Dated for Sleep {
    open spec fn day_text(&self) -> Seq<char> {
        self.day@
    }

    fn day(&self) -> (day: &str) {
        self.day.as_str()
    }
}

/// The place of the record that a series holds for a day: that of its last
/// record of that day, and none where no record is of that day.
pub open spec fn place_on<T: Dated>(series: Seq<T>, day: Seq<char>) -> Option<int>
    decreases series.len(),
{
    if series.len() == 0 {
        None
    } else if series.last().day_text() == day {
        Some(series.len() - 1)
    } else {
        place_on(series.drop_last(), day)
    }
}

/// The score that a series holds for a day: that of its record for that day,
/// and none where it has no such record or the record has no score.
pub open spec fn score_on<T: Scored>(series: Seq<T>, day: Seq<char>) -> Option<i64> {
    match place_on(series, day) {
        Some(at) => series[at].score_value(),
        None => None,
    }
}

/// The record that a series holds for a day is of that day, and no later
/// record is.
pub proof fn lemma_place_on<T: Dated>(series: Seq<T>, day: Seq<char>)
    ensures
        match place_on(series, day) {
            Some(at) => 0 <= at < series.len() && series[at].day_text() == day && forall|i: int|
                at < i < series.len() ==> (#[trigger] series[i]).day_text() != day,
            None => forall|i: int|
                0 <= i < series.len() ==> (#[trigger] series[i]).day_text() != day,
        },
    decreases series.len(),
{
    if series.len() > 0 {
        let rest = series.drop_last();
        lemma_place_on(rest, day);
        assert forall|i: int| 0 <= i < rest.len() implies rest[i] == series[i] by {}
    }
}

/// The place of the record for a day does not depend on what stands behind
/// the last record of that day.
proof fn lemma_place_on_prefix<T: Dated>(series: Seq<T>, day: Seq<char>, left: int)
    requires
        0 <= left <= series.len(),
        forall|i: int| left <= i < series.len() ==> (#[trigger] series[i]).day_text() != day,
    ensures
        place_on(series, day) == place_on(series.subrange(0, left), day),
    decreases series.len() - left,
{
    if left < series.len() {
        let rest = series.drop_last();
        assert(rest.subrange(0, left) =~= series.subrange(0, left));
        assert(series.last() == series[series.len() - 1]);
        lemma_place_on_prefix(rest, day, left);
    } else {
        assert(series.subrange(0, left) =~= series);
    }
}

/// Finds the record that a series holds for a day.
pub fn find_on<T: Dated>(series: &[T], day: &str) -> (place: Option<usize>)
    ensures
        match place {
            Some(at) => place_on(series@, day@) == Some(at as int) && at < series.len(),
            None => place_on(series@, day@) is None,
        },
{
    let mut left: usize = series.len();
    while left > 0
        invariant
            left <= series.len(),
            forall|i: int| left <= i < series.len() ==> (#[trigger] series[i]).day_text() != day@,
        decreases left,
    {
        let record = &series[left - 1];
        if same_text(record.day(), day) {
            proof {
                lemma_place_on_prefix(series@, day@, left as int);
                let head = series@.subrange(0, left as int);
                assert(head.last() == series@[left - 1]);
            }
            return Some(left - 1);
        }
        left = left - 1;
    }
    proof {
        lemma_place_on_prefix(series@, day@, 0);
        assert(series@.subrange(0, 0).len() == 0);
    }
    None
}

/// Looks the score of a day up in a series.
pub fn lookup_score<T: Scored>(series: &[T], day: &str) -> (score: Option<i64>)
    ensures
        score == score_on(series@, day@),
{
    match find_on(series, day) {
        Some(at) => series[at].score(),
        None => None,
    }
}

/// One day of a trend: the score of each family on that day, as far as the
/// family's series holds one.
#[derive(Clone, Debug, PartialEq, Eq)]
pub struct JoinedTrendRow {
    pub day: String,
    pub sleep: Option<i64>,
    pub readiness: Option<i64>,
    pub activity: Option<i64>,
}

/// A `JoinedTrendRow` with its day as a sequence of characters.
pub ghost struct TrendRowView {
    pub day: Seq<char>,
    pub sleep: Option<i64>,
    pub readiness: Option<i64>,
    pub activity: Option<i64>,
}

impl View for JoinedTrendRow {
    type V = TrendRowView;

    open spec fn view(&self) -> TrendRowView {
        TrendRowView {
            day: self.day@,
            sleep: self.sleep,
            readiness: self.readiness,
            activity: self.activity,
        }
    }
}

/// The rows as values of the model.
pub open spec fn row_views(rows: Seq<JoinedTrendRow>) -> Seq<TrendRowView> {
    Seq::new(rows.len(), |i: int| rows[i]@)
}

/// The days as sequences of characters.
pub open spec fn day_texts(days: Seq<String>) -> Seq<Seq<char>> {
    Seq::new(days.len(), |i: int| days[i]@)
}

/// The row of one day: what each series holds for it.
pub open spec fn joined_row(
    day: Seq<char>,
    sleep: Seq<DailySleep>,
    readiness: Seq<DailyReadiness>,
    activity: Seq<DailyActivity>,
) -> TrendRowView {
    TrendRowView {
        day,
        sleep: score_on(sleep, day),
        readiness: score_on(readiness, day),
        activity: score_on(activity, day),
    }
}

/// One row for each of the days, in their order, whether or not a series
/// holds anything for the day.
pub open spec fn joined_rows(
    days: Seq<Seq<char>>,
    sleep: Seq<DailySleep>,
    readiness: Seq<DailyReadiness>,
    activity: Seq<DailyActivity>,
) -> Seq<TrendRowView> {
    Seq::new(days.len(), |i: int| joined_row(days[i], sleep, readiness, activity))
}

/// The sleep scores of the rows, in their order.
pub open spec fn sleep_column(rows: Seq<TrendRowView>) -> Seq<Option<i64>> {
    Seq::new(rows.len(), |i: int| rows[i].sleep)
}

/// The readiness scores of the rows, in their order.
pub open spec fn readiness_column(rows: Seq<TrendRowView>) -> Seq<Option<i64>> {
    Seq::new(rows.len(), |i: int| rows[i].readiness)
}

/// The activity scores of the rows, in their order.
pub open spec fn activity_column(rows: Seq<TrendRowView>) -> Seq<Option<i64>> {
    Seq::new(rows.len(), |i: int| rows[i].activity)
}

/// The sum of the scores that are there.
pub open spec fn present_sum(scores: Seq<Option<i64>>) -> int
    decreases scores.len(),
{
    if scores.len() == 0 {
        0
    } else {
        present_sum(scores.drop_last()) + match scores.last() {
            Some(v) => v as int,
            None => 0,
        }
    }
}

/// The number of the scores that are there.
pub open spec fn present_count(scores: Seq<Option<i64>>) -> nat
    decreases scores.len(),
{
    if scores.len() == 0 {
        0
    } else {
        present_count(scores.drop_last()) + match scores.last() {
            Some(_) => 1nat,
            None => 0nat,
        }
    }
}

/// The quotient of a sum by a count, cut off towards zero.
pub open spec fn truncated_quotient(sum: int, count: int) -> int
    recommends
        count > 0,
{
    if sum >= 0 {
        sum / count
    } else {
        -((-sum) / count)
    }
}

/// The mean of the scores that are there, cut off to a whole number; none
/// where no score is there.
pub open spec fn present_mean(scores: Seq<Option<i64>>) -> Option<int> {
    if present_count(scores) == 0 {
        None
    } else {
        Some(truncated_quotient(present_sum(scores), present_count(scores) as int))
    }
}

/// No more scores are there than places for them.
pub proof fn lemma_count_bound(scores: Seq<Option<i64>>)
    ensures
        present_count(scores) <= scores.len(),
    decreases scores.len(),
{
    if scores.len() > 0 {
        lemma_count_bound(scores.drop_last());
    }
}

/// The mean of scores lies between the least and the greatest bound that
/// holds of each of them.
pub proof fn lemma_mean_within(scores: Seq<Option<i64>>, low: int, high: int)
    requires
        low <= high,
        forall|i: int|
            0 <= i < scores.len() ==> ((#[trigger] scores[i]) matches Some(v) ==> low <= v
                <= high),
    ensures
        present_mean(scores) matches Some(m) ==> low <= m <= high,
{
    lemma_sum_within(scores, low, high);
    let sum = present_sum(scores);
    let count = present_count(scores) as int;
    if count > 0 {
        if sum >= 0 {
            assert(low <= sum / count <= high) by (nonlinear_arith)
                requires
                    count > 0,
                    sum >= 0,
                    low * count <= sum <= high * count,
            ;
        } else {
            assert(low <= -((-sum) / count) <= high) by (nonlinear_arith)
                requires
                    count > 0,
                    sum < 0,
                    low * count <= sum <= high * count,
            ;
        }
    }
}

proof fn lemma_sum_within(scores: Seq<Option<i64>>, low: int, high: int)
    requires
        forall|i: int|
            0 <= i < scores.len() ==> ((#[trigger] scores[i]) matches Some(v) ==> low <= v
                <= high),
    ensures
        low * present_count(scores) <= present_sum(scores) <= high * present_count(scores),
    decreases scores.len(),
{
    if scores.len() > 0 {
        let rest = scores.drop_last();
        assert forall|i: int| 0 <= i < rest.len() implies ((#[trigger] rest[i]) matches Some(v)
            ==> low <= v <= high) by {
            assert(rest[i] == scores[i]);
        }
        lemma_sum_within(rest, low, high);
        let n = present_count(rest) as int;
        assert(low * (n + 1) == low * n + low && high * (n + 1) == high * n + high)
            by (nonlinear_arith);
        assert(scores.last() == scores[scores.len() - 1]);
        match scores.last() {
            Some(v) => {
                assert(present_count(scores) == n + 1);
                assert(present_sum(scores) == present_sum(rest) + v);
            },
            None => {
                assert(present_count(scores) == n);
                assert(present_sum(scores) == present_sum(rest));
            },
        }
    } else {
        assert(present_count(scores) == 0);
        assert(present_sum(scores) == 0);
        assert(low * 0 == 0 && high * 0 == 0);
    }
}

/// The sum and the number of the scores of one family over the days of a
/// trend.
#[derive(Clone, Copy, Debug, PartialEq, Eq, Structural)]
pub struct Tally {
    pub sum: i128,
    pub count: usize,
}

impl Tally {
    /// The sum lies within what `count` scores can add up to.
    pub open spec fn wf(self) -> bool {
        -0x8000_0000_0000_0000 * self.count <= self.sum <= 0x7fff_ffff_ffff_ffff * self.count
    }

    /// The tally is that of the given scores.
    pub open spec fn counts(self, scores: Seq<Option<i64>>) -> bool {
        self.sum == present_sum(scores) && self.count == present_count(scores)
    }

    /// The mean that the tally stands for.
    pub open spec fn mean_value(self) -> Option<int> {
        if self.count == 0 {
            None
        } else {
            Some(truncated_quotient(self.sum as int, self.count as int))
        }
    }

    /// The tally of no scores.
    pub fn new() -> (tally: Tally)
        ensures
            tally == (Tally { sum: 0, count: 0 }),
            tally.wf(),
    {
        Tally { sum: 0, count: 0 }
    }

    /// Counts one more day, with its score where it has one.
    pub fn add(&mut self, score: Option<i64>)
        requires
            old(self).wf(),
            old(self).count < usize::MAX,
        ensures
            final(self).wf(),
            final(self).sum == old(self).sum + match score {
                Some(v) => v as int,
                None => 0,
            },
            final(self).count == old(self).count + match score {
                Some(_) => 1int,
                None => 0int,
            },
    {
        match score {
            Some(v) => {
                self.sum = self.sum + v as i128;
                self.count = self.count + 1;
            },
            None => {},
        }
    }

    /// The mean of the scores counted, cut off to a whole number; `None`
    /// where none was counted.
    pub fn mean(&self) -> (mean: Option<i64>)
        requires
            self.wf(),
        ensures
            match mean {
                Some(m) => self.mean_value() == Some(m as int),
                None => self.mean_value() is None,
            },
    {
        if self.count == 0 {
            None
        } else {
            let count = self.count as i128;
            let sum = self.sum;
            if sum >= 0 {
                assert(0 <= sum / count <= 0x7fff_ffff_ffff_ffff) by (nonlinear_arith)
                    requires
                        0 <= sum <= 0x7fff_ffff_ffff_ffff * count,
                        count > 0,
                ;
                Some((sum / count) as i64)
            } else {
                let size = -sum;
                assert(0 <= size / count <= 0x8000_0000_0000_0000) by (nonlinear_arith)
                    requires
                        0 <= size <= 0x8000_0000_0000_0000 * count,
                        count > 0,
                ;
                Some((-(size / count)) as i64)
            }
        }
    }
}

/// The rows of a trend with the tallies of their three columns.
#[derive(Clone, Debug, PartialEq, Eq)]
pub struct Trend {
    pub rows: Vec<JoinedTrendRow>,
    pub sleep: Tally,
    pub readiness: Tally,
    pub activity: Tally,
}

impl Trend {
    /// The tallies are those of the columns.
    pub open spec fn wf(self) -> bool {
        &&& self.sleep.wf()
        &&& self.readiness.wf()
        &&& self.activity.wf()
        &&& self.sleep.counts(sleep_column(row_views(self.rows@)))
        &&& self.readiness.counts(readiness_column(row_views(self.rows@)))
        &&& self.activity.counts(activity_column(row_views(self.rows@)))
    }
}

/// The tally of a column grows with each row by that row's score.
proof fn lemma_column_step(before: Seq<Option<i64>>, after: Seq<Option<i64>>)
    requires
        after.len() == before.len() + 1,
        after.drop_last() =~= before,
    ensures
        present_sum(after) == present_sum(before) + match after.last() {
            Some(v) => v as int,
            None => 0,
        },
        present_count(after) == present_count(before) + match after.last() {
            Some(_) => 1nat,
            None => 0nat,
        },
{
    assert(after.drop_last() == before);
}

/// Joins the three series by day: one row for each of the days, in their
/// order, with the score that each series holds for that day, and with it the
/// sum and the number of the scores found in each series.
pub fn join_series(
    days: &[String],
    sleep: &[DailySleep],
    readiness: &[DailyReadiness],
    activity: &[DailyActivity],
) -> (trend: Trend)
    ensures
        trend.wf(),
        row_views(trend.rows@) == joined_rows(day_texts(days@), sleep@, readiness@, activity@),
{
    let mut trend = Trend {
        rows: Vec::new(),
        sleep: Tally::new(),
        readiness: Tally::new(),
        activity: Tally::new(),
    };
    let mut i: usize = 0;
    assert(sleep_column(row_views(trend.rows@)) =~= Seq::empty());
    assert(readiness_column(row_views(trend.rows@)) =~= Seq::empty());
    assert(activity_column(row_views(trend.rows@)) =~= Seq::empty());
    while i < days.len()
        invariant
            i <= days.len(),
            trend.rows.len() == i,
            trend.wf(),
            trend.sleep.count <= i,
            trend.readiness.count <= i,
            trend.activity.count <= i,
            forall|j: int|
                0 <= j < i ==> (#[trigger] trend.rows[j])@ == joined_row(
                    days[j]@,
                    sleep@,
                    readiness@,
                    activity@,
                ),
        decreases days.len() - i,
    {
        let day = &days[i];
        let row = JoinedTrendRow {
            day: day.clone(),
            sleep: lookup_score(sleep, day.as_str()),
            readiness: lookup_score(readiness, day.as_str()),
            activity: lookup_score(activity, day.as_str()),
        };
        let ghost before = row_views(trend.rows@);
        trend.sleep.add(row.sleep);
        trend.readiness.add(row.readiness);
        trend.activity.add(row.activity);
        trend.rows.push(row);
        proof {
            let after = row_views(trend.rows@);
            lemma_column_step(sleep_column(before), sleep_column(after));
            lemma_column_step(readiness_column(before), readiness_column(after));
            lemma_column_step(activity_column(before), activity_column(after));
        }
        i = i + 1;
    }
    assert(row_views(trend.rows@) =~= joined_rows(
        day_texts(days@),
        sleep@,
        readiness@,
        activity@,
    ));
    trend
}

} // verus!
