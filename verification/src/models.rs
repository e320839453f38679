//! The records that the remote collections hold, as the reports read them.
//! Every measurement is optional: a day may be known before its values are.

use vstd::prelude::*;

verus! {

/// A measurement with a fractional part, held in thousandths of its unit:
/// 36.6 degrees are 36600, a deviation of -0.25 degrees is -250.
#[derive(Clone, Copy, Debug, PartialEq, Eq, Structural)]
pub struct Milli {
    pub thousandths: i64,
}

/// One named part of a score, in the order in which the payload gave it.
#[derive(Clone, Debug, PartialEq, Eq)]
pub struct Contributor {
    pub key: String,
    pub value: Option<i64>,
}

/// The envelope of every collection answer.
#[derive(Clone, Debug, PartialEq, Eq)]
pub struct ApiResponse<T> {
    pub data: Vec<T>,
}

impl<T> ApiResponse<T> {
    /// The records of the answer, in the order received.
    pub fn into_data(self) -> (data: Vec<T>)
        ensures
            data == self.data,
    {
        self.data
    }
}

/// The sleep summary of one day.
#[derive(Clone, Debug, PartialEq, Eq)]
pub struct DailySleep {
    pub day: String,
    pub score: Option<i64>,
    pub contributors: Option<Vec<Contributor>>,
}

/// The readiness summary of one day. Temperatures are deviations in degrees
/// Celsius.
#[derive(Clone, Debug, PartialEq, Eq)]
pub struct DailyReadiness {
    pub day: String,
    pub score: Option<i64>,
    pub temperature_deviation: Option<Milli>,
    pub temperature_trend_deviation: Option<Milli>,
    pub contributors: Option<Vec<Contributor>>,
}

/// The activity summary of one day. Times are in seconds, the distance in
/// meters.
#[derive(Clone, Debug, PartialEq, Eq)]
pub struct DailyActivity {
    pub day: String,
    pub score: Option<i64>,
    pub active_calories: Option<i64>,
    pub steps: Option<i64>,
    pub equivalent_walking_distance: Option<i64>,
    pub high_activity_time: Option<i64>,
    pub medium_activity_time: Option<i64>,
    pub low_activity_time: Option<i64>,
    pub sedentary_time: Option<i64>,
    pub total_calories: Option<i64>,
    pub target_calories: Option<i64>,
    pub contributors: Option<Vec<Contributor>>,
}

/// One period of sleep; a day may have none, one or several. Durations are
/// in seconds, heart rates in beats per minute, the breath in breaths per
/// minute.
#[derive(Clone, Debug, PartialEq, Eq)]
pub struct Sleep {
    pub day: String,
    pub sleep_type: Option<String>,
    pub bedtime_start: Option<String>,
    pub bedtime_end: Option<String>,
    pub total_sleep_duration: Option<i64>,
    pub time_in_bed: Option<i64>,
    pub efficiency: Option<i64>,
    pub latency: Option<i64>,
    pub deep_sleep_duration: Option<i64>,
    pub light_sleep_duration: Option<i64>,
    pub rem_sleep_duration: Option<i64>,
    pub awake_time: Option<i64>,
    pub restless_periods: Option<i64>,
    pub average_breath: Option<Milli>,
    pub average_heart_rate: Option<Milli>,
    pub average_hrv: Option<i64>,
    pub lowest_heart_rate: Option<i64>,
}

/// The stress summary of one day. Times are in seconds.
#[derive(Clone, Debug, PartialEq, Eq)]
pub struct DailyStress {
    pub day: String,
    pub day_summary: Option<String>,
    pub stress_high: Option<i64>,
    pub recovery_high: Option<i64>,
}

} // verus!
