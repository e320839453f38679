use oura::calendar::CalendarDate;
use oura::client::{Family, OuraClient, Request};
use oura::command::{plan, report, Command, Fetch, Fetched, Plan};
use oura::display::{display_scores, display_sleep, display_trend};
use oura::error::OuraError;
use oura::models::{DailyActivity, DailyReadiness, DailySleep, DailyStress, Sleep};

fn client() -> OuraClient {
    OuraClient::new(Some("SECRET".to_string())).unwrap()
}

fn today() -> CalendarDate {
    CalendarDate::new(2024, 3, 1).unwrap()
}

fn fetch(family: Option<Family>, endpoint: &str, start: &str, end_date: &str) -> Fetch {
    Fetch {
        family,
        request: Request {
            url: format!("https://api.ouraring.com/v2/usercollection/{endpoint}"),
            token: "SECRET".to_string(),
            start_date: start.to_string(),
            end_date: end_date.to_string(),
        },
    }
}

fn token(text: &str) -> Option<String> {
    Some(text.to_string())
}

fn sleep(day: &str, score: Option<i64>) -> DailySleep {
    DailySleep { day: day.to_string(), score, contributors: None }
}

fn readiness(day: &str, score: Option<i64>) -> DailyReadiness {
    DailyReadiness {
        day: day.to_string(),
        score,
        temperature_deviation: None,
        temperature_trend_deviation: None,
        contributors: None,
    }
}

fn activity(day: &str, score: Option<i64>) -> DailyActivity {
    DailyActivity {
        day: day.to_string(),
        score,
        active_calories: None,
        steps: None,
        equivalent_walking_distance: None,
        high_activity_time: None,
        medium_activity_time: None,
        low_activity_time: None,
        sedentary_time: None,
        total_calories: None,
        target_calories: None,
        contributors: None,
    }
}

fn period(day: &str, kind: &str, total: i64) -> Sleep {
    Sleep {
        day: day.to_string(),
        sleep_type: Some(kind.to_string()),
        bedtime_start: None,
        bedtime_end: None,
        total_sleep_duration: Some(total),
        time_in_bed: None,
        efficiency: None,
        latency: None,
        deep_sleep_duration: None,
        light_sleep_duration: None,
        rem_sleep_duration: None,
        awake_time: None,
        restless_periods: None,
        average_breath: None,
        average_heart_rate: None,
        average_hrv: None,
        lowest_heart_rate: None,
    }
}

fn nothing() -> Fetched {
    Fetched {
        daily_sleep: vec![],
        daily_readiness: vec![],
        daily_activity: vec![],
        sleep: vec![],
        daily_stress: vec![],
    }
}

#[test]
fn the_scores_command_asks_three_collections() {
    let planned = plan(&client(), &Command::Scores { date: None }, today());
    assert_eq!(
        planned,
        Ok(Plan {
            days: vec!["2024-03-01".to_string()],
            fetches: vec![
                fetch(Some(Family::DailySleep), "daily_sleep", "2024-03-01", "2024-03-02"),
                fetch(Some(Family::DailyReadiness), "daily_readiness", "2024-03-01", "2024-03-02"),
                fetch(Some(Family::DailyActivity), "daily_activity", "2024-03-01", "2024-03-02"),
            ],
        })
    );
}

#[test]
fn day_commands_resolve_their_token() {
    let planned = plan(&client(), &Command::Sleep { date: token("yesterday") }, today()).unwrap();
    assert_eq!(planned.days, vec!["2024-02-29".to_string()]);
    assert_eq!(
        planned.fetches,
        vec![
            fetch(Some(Family::Sleep), "sleep", "2024-02-29", "2024-03-01"),
            fetch(Some(Family::DailySleep), "daily_sleep", "2024-02-29", "2024-03-01"),
        ]
    );
    let planned = plan(&client(), &Command::Hrv { date: token("TODAY") }, today()).unwrap();
    assert_eq!(
        planned.fetches,
        vec![
            fetch(Some(Family::Sleep), "sleep", "2024-03-01", "2024-03-02"),
            fetch(Some(Family::DailySleep), "daily_sleep", "2024-03-01", "2024-03-02"),
        ]
    );
    let planned = plan(&client(), &Command::Readiness { date: token("2023-12-31") }, today()).unwrap();
    assert_eq!(planned.days, vec!["2023-12-31".to_string()]);
    assert_eq!(
        planned.fetches,
        vec![fetch(Some(Family::DailyReadiness), "daily_readiness", "2023-12-31", "2024-01-01")]
    );
    let planned = plan(&client(), &Command::Activity { date: None }, today()).unwrap();
    assert_eq!(
        planned.fetches,
        vec![fetch(Some(Family::DailyActivity), "daily_activity", "2024-03-01", "2024-03-02")]
    );
    let planned = plan(&client(), &Command::Stress { date: None }, today()).unwrap();
    assert_eq!(
        planned.fetches,
        vec![fetch(Some(Family::DailyStress), "daily_stress", "2024-03-01", "2024-03-02")]
    );
}

#[test]
fn the_raw_command_asks_the_collection_it_names() {
    let command = Command::Json { endpoint: "daily_spo2".to_string(), date: token("2024-02-10") };
    let planned = plan(&client(), &command, today()).unwrap();
    assert_eq!(planned.days, vec!["2024-02-10".to_string()]);
    assert_eq!(planned.fetches, vec![fetch(None, "daily_spo2", "2024-02-10", "2024-02-11")]);
    assert_eq!(report(&command, &planned.days, &nothing()), None);
}

#[test]
fn a_trend_asks_for_its_whole_window() {
    let planned = plan(&client(), &Command::Trend { days: 7 }, today()).unwrap();
    assert_eq!(
        planned.days,
        vec![
            "2024-02-24".to_string(),
            "2024-02-25".to_string(),
            "2024-02-26".to_string(),
            "2024-02-27".to_string(),
            "2024-02-28".to_string(),
            "2024-02-29".to_string(),
            "2024-03-01".to_string(),
        ]
    );
    assert_eq!(
        planned.fetches,
        vec![
            fetch(Some(Family::DailySleep), "daily_sleep", "2024-02-24", "2024-03-02"),
            fetch(Some(Family::DailyReadiness), "daily_readiness", "2024-02-24", "2024-03-02"),
            fetch(Some(Family::DailyActivity), "daily_activity", "2024-02-24", "2024-03-02"),
        ]
    );
}

#[test]
fn a_trend_of_no_days_asks_nothing() {
    let command = Command::Trend { days: 0 };
    let planned = plan(&client(), &command, today()).unwrap();
    assert_eq!(planned, Plan { days: vec![], fetches: vec![] });
    let text = report(&command, &planned.days, &nothing()).unwrap();
    assert_eq!(text, display_trend(&[], &[], &[], &[]));
    assert_eq!(text.lines().count(), 2);
}

#[test]
fn a_command_without_a_day_is_refused() {
    let client = client();
    assert_eq!(
        plan(&client, &Command::Scores { date: token("tomorrow") }, today()),
        Err(OuraError::InvalidDate)
    );
    assert_eq!(
        plan(&client, &Command::Stress { date: token("2024-02-30") }, today()),
        Err(OuraError::InvalidDate)
    );
    assert_eq!(
        plan(&client, &Command::Json { endpoint: "sleep".to_string(), date: token("") }, today()),
        Err(OuraError::InvalidDate)
    );
    assert_eq!(plan(&client, &Command::Trend { days: u32::MAX }, today()), Err(OuraError::InvalidDate));
    let far = CalendarDate::new(12000, 1, 1).unwrap();
    assert_eq!(plan(&client, &Command::Scores { date: None }, far), Err(OuraError::InvalidDate));
    assert_eq!(plan(&client, &Command::Trend { days: 3 }, far), Err(OuraError::InvalidDate));
    assert_eq!(
        plan(&client, &Command::Scores { date: token("2024-02-10") }, far).map(|p| p.days),
        Ok(vec!["2024-02-10".to_string()])
    );
}

#[test]
fn reports_find_their_records_by_day() {
    let days = vec!["2024-02-10".to_string()];
    let mut fetched = nothing();
    fetched.daily_sleep = vec![sleep("2024-02-10", Some(82)), sleep("2024-02-11", Some(5))];
    fetched.daily_readiness = vec![readiness("2024-02-09", Some(1)), readiness("2024-02-10", Some(91))];
    fetched.daily_activity = vec![activity("2024-02-11", Some(99))];
    let text = report(&Command::Scores { date: None }, &days, &fetched).unwrap();
    assert_eq!(
        text,
        display_scores(
            Some(&sleep("2024-02-10", Some(82))),
            Some(&readiness("2024-02-10", Some(91))),
            None
        )
    );
    assert_eq!(
        text,
        "  Sleep \u{1b}[33m82\u{1b}[39m  Readiness \u{1b}[32m91\u{1b}[39m  Activity \u{1b}[2m--\u{1b}[0m\n"
    );
}

#[test]
fn reports_of_each_command() {
    let days = vec!["2024-02-10".to_string()];
    let mut fetched = nothing();
    fetched.daily_sleep = vec![sleep("2024-02-10", Some(82))];
    fetched.sleep = vec![period("2024-02-10", "nap", 1200), period("2024-02-10", "long_sleep", 25200)];
    fetched.daily_stress = vec![DailyStress {
        day: "2024-02-10".to_string(),
        day_summary: Some("normal".to_string()),
        stress_high: Some(60),
        recovery_high: None,
    }];
    assert_eq!(
        report(&Command::Sleep { date: None }, &days, &fetched).unwrap(),
        display_sleep(Some(&fetched.daily_sleep[0]), &fetched.sleep)
    );
    assert_eq!(
        report(&Command::Sleep { date: None }, &days, &fetched).unwrap(),
        "  Sleep Score: \u{1b}[33m82\u{1b}[39m\n  Total Sleep: 7h 00m\n"
    );
    assert_eq!(
        report(&Command::Hrv { date: None }, &days, &fetched).unwrap(),
        "  \u{1b}[2mHRV (from sleep)\u{1b}[0m\n  Avg HRV:     --\n"
    );
    assert_eq!(
        report(&Command::Readiness { date: None }, &days, &fetched).unwrap(),
        "  No readiness data\n"
    );
    assert_eq!(
        report(&Command::Activity { date: None }, &days, &fetched).unwrap(),
        "  No activity data\n"
    );
    assert_eq!(
        report(&Command::Stress { date: None }, &days, &fetched).unwrap(),
        "  Stress Summary: \u{1b}[33mnormal\u{1b}[39m\n  Stress High:    1m\n"
    );
    assert_eq!(
        report(&Command::Trend { days: 1 }, &days, &fetched).unwrap(),
        display_trend(&days, &fetched.daily_sleep, &[], &[])
    );
    assert_eq!(report(&Command::Stress { date: None }, &[], &fetched).unwrap(), "  No stress data\n");
}
