use oura::display::{
    colored_score, format_contributor_key, format_duration, format_number, format_percent,
    format_time, push_one_decimal, round_to_unit,
};
use oura::models::Milli;

#[test]
fn duration_of_nothing_is_zero_minutes() {
    assert_eq!(format_duration(0), "0m");
    assert_eq!(format_duration(-5), "0m");
    assert_eq!(format_duration(-7200), "0m");
}

#[test]
fn duration_below_a_minute_is_zero_minutes() {
    assert_eq!(format_duration(59), "0m");
    assert_eq!(format_duration(60), "1m");
    assert_eq!(format_duration(90), "1m");
}

#[test]
fn duration_from_an_hour_on_pads_the_minutes() {
    assert_eq!(format_duration(3600), "1h 00m");
    assert_eq!(format_duration(3661), "1h 01m");
    assert_eq!(format_duration(3599), "59m");
    assert_eq!(format_duration(27000), "7h 30m");
    assert_eq!(format_duration(360000), "100h 00m");
}

#[test]
fn percent_rounds_to_the_nearest() {
    assert_eq!(format_percent(0, 0), "0%");
    assert_eq!(format_percent(5, 0), "0%");
    assert_eq!(format_percent(1800, 3600), "50%");
    assert_eq!(format_percent(2, 3), "67%");
    assert_eq!(format_percent(1, 3), "33%");
    assert_eq!(format_percent(1, 8), "13%");
    assert_eq!(format_percent(1, 200), "1%");
    assert_eq!(format_percent(-1, 3), "-33%");
    assert_eq!(format_percent(2, -3), "-67%");
    assert_eq!(format_percent(-2, -3), "67%");
}

#[test]
fn percent_of_the_largest_values_is_exact() {
    assert_eq!(format_percent(i64::MAX, 1), "922337203685477580700%");
    assert_eq!(format_percent(i64::MIN, 1), "-922337203685477580800%");
    assert_eq!(format_percent(i64::MIN, i64::MIN), "100%");
}

#[test]
fn numbers_are_grouped_by_thousands() {
    assert_eq!(format_number(0), "0");
    assert_eq!(format_number(999), "999");
    assert_eq!(format_number(1000), "1,000");
    assert_eq!(format_number(8042), "8,042");
    assert_eq!(format_number(12345), "12,345");
    assert_eq!(format_number(999999), "999,999");
    assert_eq!(format_number(1000000), "1,000,000");
    assert_eq!(format_number(1234567), "1,234,567");
    assert_eq!(format_number(1002003004), "1,002,003,004");
    assert_eq!(format_number(i64::MAX), "9,223,372,036,854,775,807");
    assert_eq!(format_number(-5), "-5");
    assert_eq!(format_number(-1500), "-1500");
}

#[test]
fn time_is_cut_out_of_a_timestamp() {
    assert_eq!(format_time("2024-02-13T23:15:00+08:00"), "23:15");
    assert_eq!(format_time("T12:34"), "12:34");
    assert_eq!(format_time("2024-02-13"), "2024-02-13");
    assert_eq!(format_time("2024-02-13T23:1"), "2024-02-13T23:1");
    assert_eq!(format_time(""), "");
    assert_eq!(format_time("aTbTcdefgh"), "bTcde");
}

#[test]
fn contributor_keys_are_title_cased() {
    assert_eq!(format_contributor_key("total_sleep_time"), "Total Sleep Time");
    assert_eq!(format_contributor_key("hrv_balance"), "HRV Balance");
    assert_eq!(format_contributor_key("resting_heart_rate"), "Resting Heart Rate");
}

#[test]
fn contributor_keys_keep_their_special_words_anywhere() {
    assert_eq!(format_contributor_key("average_spo2"), "Average SPO2");
    assert_eq!(format_contributor_key("hr"), "HR");
    assert_eq!(format_contributor_key("resting_hr_trend"), "Resting HR Trend");
    assert_eq!(format_contributor_key("hrv"), "HRV");
    assert_eq!(format_contributor_key("Hrv"), "Hrv");
    assert_eq!(format_contributor_key("hrvs"), "Hrvs");
}

#[test]
fn contributor_keys_with_empty_words_keep_their_spaces() {
    assert_eq!(format_contributor_key(""), "");
    assert_eq!(format_contributor_key("_"), " ");
    assert_eq!(format_contributor_key("a__b"), "A  B");
    assert_eq!(format_contributor_key("sleep_"), "Sleep ");
    assert_eq!(format_contributor_key("_sleep"), " Sleep");
}

#[test]
fn contributor_keys_outside_ascii_use_the_uppercase_mapping() {
    assert_eq!(format_contributor_key("émile_zola"), "Émile Zola");
    assert_eq!(format_contributor_key("ßtark"), "SStark");
    assert_eq!(format_contributor_key("9lives_2go"), "9lives 2go");
}

#[test]
fn scores_are_coloured_by_tier() {
    assert_eq!(colored_score(85), "\u{1b}[32m85\u{1b}[39m");
    assert_eq!(colored_score(100), "\u{1b}[32m100\u{1b}[39m");
    assert_eq!(colored_score(84), "\u{1b}[33m84\u{1b}[39m");
    assert_eq!(colored_score(70), "\u{1b}[33m70\u{1b}[39m");
    assert_eq!(colored_score(69), "\u{1b}[31m69\u{1b}[39m");
    assert_eq!(colored_score(0), "\u{1b}[31m0\u{1b}[39m");
    assert_eq!(colored_score(-3), "\u{1b}[31m-3\u{1b}[39m");
}

fn one_decimal(thousandths: i64, signed: bool) -> String {
    let mut out = String::from(">");
    push_one_decimal(&mut out, Milli { thousandths }, signed);
    out
}

#[test]
fn one_decimal_place_rounds_to_the_nearest_tenth() {
    assert_eq!(one_decimal(0, false), ">0.0");
    assert_eq!(one_decimal(0, true), ">+0.0");
    assert_eq!(one_decimal(8042, false), ">8.0");
    assert_eq!(one_decimal(8050, false), ">8.1");
    assert_eq!(one_decimal(8049, false), ">8.0");
    assert_eq!(one_decimal(-250, true), ">-0.3");
    assert_eq!(one_decimal(-40, true), ">-0.0");
    assert_eq!(one_decimal(520, true), ">+0.5");
    assert_eq!(one_decimal(14960, false), ">15.0");
    assert_eq!(one_decimal(i64::MIN, false), ">-9223372036854775.8");
}

#[test]
fn whole_units_round_halves_away_from_zero() {
    assert_eq!(round_to_unit(Milli { thousandths: 58499 }), 58);
    assert_eq!(round_to_unit(Milli { thousandths: 58500 }), 59);
    assert_eq!(round_to_unit(Milli { thousandths: -58500 }), -59);
    assert_eq!(round_to_unit(Milli { thousandths: -58499 }), -58);
    assert_eq!(round_to_unit(Milli { thousandths: 0 }), 0);
    assert_eq!(round_to_unit(Milli { thousandths: i64::MAX }), 9223372036854776);
    assert_eq!(round_to_unit(Milli { thousandths: i64::MIN }), -9223372036854776);
}
