use oura::display::{display_trend, render_trend};
use oura::models::{DailyActivity, DailyReadiness, DailySleep};
use oura::trend::{join_series, lookup_score, JoinedTrendRow, Tally};

fn green(text: &str) -> String {
    format!("\u{1b}[32m{text}\u{1b}[39m")
}

fn yellow(text: &str) -> String {
    format!("\u{1b}[33m{text}\u{1b}[39m")
}

fn red(text: &str) -> String {
    format!("\u{1b}[31m{text}\u{1b}[39m")
}

fn dimmed(text: &str) -> String {
    format!("\u{1b}[2m{text}\u{1b}[0m")
}

fn sleep(day: &str, score: Option<i64>) -> DailySleep {
    DailySleep { day: day.to_string(), score, contributors: None }
}

fn readiness(day: &str, score: Option<i64>) -> DailyReadiness {
    DailyReadiness {
        day: day.to_string(),
        score,
        temperature_deviation: None,
        temperature_trend_deviation: None,
        contributors: None,
    }
}

fn activity(day: &str, score: Option<i64>) -> DailyActivity {
    DailyActivity {
        day: day.to_string(),
        score,
        active_calories: None,
        steps: None,
        equivalent_walking_distance: None,
        high_activity_time: None,
        medium_activity_time: None,
        low_activity_time: None,
        sedentary_time: None,
        total_calories: None,
        target_calories: None,
        contributors: None,
    }
}

fn days(list: &[&str]) -> Vec<String> {
    list.iter().map(|d| d.to_string()).collect()
}

fn row(day: &str, s: Option<i64>, r: Option<i64>, a: Option<i64>) -> JoinedTrendRow {
    JoinedTrendRow { day: day.to_string(), sleep: s, readiness: r, activity: a }
}

#[test]
fn joining_a_sparse_series() {
    let trend = join_series(
        &days(&["2024-02-09", "2024-02-10"]),
        &[sleep("2024-02-10", Some(80))],
        &[],
        &[],
    );
    assert_eq!(
        trend.rows,
        vec![row("2024-02-09", None, None, None), row("2024-02-10", Some(80), None, None)]
    );
    assert_eq!(trend.sleep, Tally { sum: 80, count: 1 });
    assert_eq!(trend.readiness, Tally { sum: 0, count: 0 });
    assert_eq!(trend.activity, Tally { sum: 0, count: 0 });
    assert_eq!(trend.sleep.mean(), Some(80));
    assert_eq!(trend.readiness.mean(), None);
    assert_eq!(trend.activity.mean(), None);
}

#[test]
fn joining_keeps_the_order_of_the_days() {
    let trend = join_series(
        &days(&["2024-02-11", "2024-02-09", "2024-02-10", "2024-02-09"]),
        &[sleep("2024-02-09", Some(70)), sleep("2024-02-10", Some(81)), sleep("2024-02-12", Some(1))],
        &[readiness("2024-02-11", Some(90)), readiness("2024-02-10", None)],
        &[activity("2024-02-09", Some(55)), activity("2024-02-11", Some(66))],
    );
    assert_eq!(
        trend.rows,
        vec![
            row("2024-02-11", None, Some(90), Some(66)),
            row("2024-02-09", Some(70), None, Some(55)),
            row("2024-02-10", Some(81), None, None),
            row("2024-02-09", Some(70), None, Some(55)),
        ]
    );
    assert_eq!(trend.sleep, Tally { sum: 221, count: 3 });
    assert_eq!(trend.readiness, Tally { sum: 90, count: 1 });
    assert_eq!(trend.activity, Tally { sum: 176, count: 3 });
    assert_eq!(trend.sleep.mean(), Some(73));
    assert_eq!(trend.activity.mean(), Some(58));
}

#[test]
fn joining_no_days_gives_no_rows() {
    let trend = join_series(&[], &[sleep("2024-02-10", Some(80))], &[], &[]);
    assert!(trend.rows.is_empty());
    assert_eq!(trend.sleep.mean(), None);
}

#[test]
fn a_day_given_twice_counts_its_last_record() {
    let series = [sleep("2024-02-10", Some(60)), sleep("2024-02-09", Some(1)), sleep("2024-02-10", Some(90))];
    assert_eq!(lookup_score(&series, "2024-02-10"), Some(90));
    assert_eq!(lookup_score(&series, "2024-02-09"), Some(1));
    assert_eq!(lookup_score(&series, "2024-02-08"), None);
    let unscored = [sleep("2024-02-10", Some(60)), sleep("2024-02-10", None)];
    assert_eq!(lookup_score(&unscored, "2024-02-10"), None);
    assert_eq!(lookup_score(&series, "2024-2-10"), None);
}

#[test]
fn means_are_cut_off_towards_zero() {
    assert_eq!(Tally { sum: 0, count: 0 }.mean(), None);
    assert_eq!(Tally { sum: 7, count: 2 }.mean(), Some(3));
    assert_eq!(Tally { sum: -7, count: 2 }.mean(), Some(-3));
    assert_eq!(Tally { sum: 254, count: 3 }.mean(), Some(84));
    assert_eq!(Tally { sum: 255, count: 3 }.mean(), Some(85));
    assert_eq!(Tally { sum: 0, count: 4 }.mean(), Some(0));
    let mut tally = Tally::new();
    tally.add(Some(i64::MAX));
    tally.add(None);
    tally.add(Some(i64::MAX));
    assert_eq!(tally, Tally { sum: 2 * (i64::MAX as i128), count: 2 });
    assert_eq!(tally.mean(), Some(i64::MAX));
    let mut tally = Tally::new();
    tally.add(Some(i64::MIN));
    tally.add(Some(i64::MIN));
    tally.add(Some(i64::MIN));
    assert_eq!(tally.mean(), Some(i64::MIN));
}

fn heading() -> String {
    format!("  {}\n", dimmed("Date          Sleep  Readiness  Activity"))
}

#[test]
fn trend_report_of_two_days() {
    let text = display_trend(
        &days(&["2024-02-09", "2024-02-10"]),
        &[sleep("2024-02-10", Some(80))],
        &[],
        &[],
    );
    let gap = dimmed("  --");
    let expected = format!(
        "{}  Fri Feb 09     {gap}      {gap}     {gap}\n  Sat Feb 10     {}      {gap}     {gap}\n  {}   {}      {gap}     {gap}\n",
        heading(),
        yellow("80"),
        dimmed("Average     "),
        yellow("80"),
    );
    assert_eq!(text, expected);
}

#[test]
fn trend_report_averages_each_family_over_its_own_days() {
    let text = display_trend(
        &days(&["2024-02-08", "2024-02-09", "2024-02-10"]),
        &[sleep("2024-02-08", Some(90)), sleep("2024-02-09", Some(85)), sleep("2024-02-10", Some(81))],
        &[readiness("2024-02-09", Some(100)), readiness("2024-02-10", Some(39))],
        &[activity("2024-02-08", None), activity("2024-02-10", Some(7))],
    );
    let gap = dimmed("  --");
    let expected = format!(
        "{}  Thu Feb 08     {}      {gap}     {gap}\n  Fri Feb 09     {}      {}     {gap}\n  Sat Feb 10     {}      {}     {}\n  {}   {}      {}     {}\n",
        heading(),
        green("90"),
        green("85"),
        green("100"),
        yellow("81"),
        red("39"),
        red("7"),
        dimmed("Average     "),
        green("85"),
        red("69"),
        red("7"),
    );
    assert_eq!(text, expected);
}

#[test]
fn trend_report_of_no_days() {
    let text = display_trend(&[], &[sleep("2024-02-10", Some(80))], &[], &[]);
    let gap = dimmed("  --");
    assert_eq!(
        text,
        format!("{}  {}   {gap}      {gap}     {gap}\n", heading(), dimmed("Average     "))
    );
}

#[test]
fn trend_report_keeps_a_day_that_is_no_date() {
    let text = display_trend(&days(&["someday", "2024-02-30"]), &[sleep("someday", Some(99))], &[], &[]);
    let gap = dimmed("  --");
    assert_eq!(
        text,
        format!(
            "{}  someday        {}      {gap}     {gap}\n  2024-02-30     {gap}      {gap}     {gap}\n  {}   {}      {gap}     {gap}\n",
            heading(),
            green("99"),
            dimmed("Average     "),
            green("99"),
        )
    );
}

#[test]
fn rendering_joined_rows_is_the_trend_report() {
    let list = days(&["2024-02-09", "2024-02-10"]);
    let series = [sleep("2024-02-10", Some(80)), sleep("2024-02-09", Some(71))];
    let trend = join_series(&list, &series, &[], &[]);
    assert_eq!(render_trend(&trend), display_trend(&list, &series, &[], &[]));
}
