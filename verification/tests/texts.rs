use oura::display::push_capitalized;
use oura::rounding::round_div;
use oura::text::{
    find_from, push_integer, push_left_aligned, push_natural, push_right_aligned, push_run,
    push_zero_padded, same_text,
};

fn written(write: impl Fn(&mut String)) -> String {
    let mut out = String::from("[");
    write(&mut out);
    out.push(']');
    out
}

#[test]
fn numerals_are_appended_in_decimal() {
    assert_eq!(written(|out| push_natural(out, 0)), "[0]");
    assert_eq!(written(|out| push_natural(out, 7)), "[7]");
    assert_eq!(written(|out| push_natural(out, 10)), "[10]");
    assert_eq!(written(|out| push_natural(out, 9007199254740993)), "[9007199254740993]");
    assert_eq!(
        written(|out| push_natural(out, u128::MAX)),
        "[340282366920938463463374607431768211455]"
    );
    assert_eq!(written(|out| push_integer(out, 0)), "[0]");
    assert_eq!(written(|out| push_integer(out, -1)), "[-1]");
    assert_eq!(written(|out| push_integer(out, 1234567890)), "[1234567890]");
    assert_eq!(
        written(|out| push_integer(out, i128::MIN)),
        "[-170141183460469231731687303715884105728]"
    );
    assert_eq!(
        written(|out| push_integer(out, i128::MAX)),
        "[170141183460469231731687303715884105727]"
    );
}

#[test]
fn numerals_are_padded_with_zeros() {
    assert_eq!(written(|out| push_zero_padded(out, 5, 2)), "[05]");
    assert_eq!(written(|out| push_zero_padded(out, 15, 2)), "[15]");
    assert_eq!(written(|out| push_zero_padded(out, 115, 2)), "[115]");
    assert_eq!(written(|out| push_zero_padded(out, 0, 3)), "[000]");
    assert_eq!(written(|out| push_zero_padded(out, 42, 0)), "[42]");
    assert_eq!(written(|out| push_zero_padded(out, 42, 6)), "[000042]");
}

#[test]
fn cells_are_padded_with_spaces() {
    assert_eq!(written(|out| push_left_aligned(out, "Date", 12)), "[Date        ]");
    assert_eq!(written(|out| push_right_aligned(out, "Sleep", 7)), "[  Sleep]");
    assert_eq!(written(|out| push_left_aligned(out, "Readiness", 4)), "[Readiness]");
    assert_eq!(written(|out| push_right_aligned(out, "Readiness", 9)), "[Readiness]");
    assert_eq!(written(|out| push_left_aligned(out, "", 3)), "[   ]");
    assert_eq!(written(|out| push_right_aligned(out, "", 0)), "[]");
    assert_eq!(written(|out| push_left_aligned(out, "déjà", 6)), "[déjà  ]");
    assert_eq!(written(|out| push_right_aligned(out, "→", 3)), "[  →]");
    assert_eq!(written(|out| push_run(out, '-', 5)), "[-----]");
    assert_eq!(written(|out| push_run(out, '-', 0)), "[]");
}

#[test]
fn texts_are_the_same_character_by_character() {
    assert!(same_text("", ""));
    assert!(same_text("long_sleep", "long_sleep"));
    assert!(!same_text("long_sleep", "long_sleeps"));
    assert!(!same_text("long_sleep", "long-sleep"));
    assert!(!same_text("Long_sleep", "long_sleep"));
    assert!(same_text("naïve", "naïve"));
    assert!(!same_text("naïve", "naive"));
}

#[test]
fn characters_are_found_from_a_place_on() {
    assert_eq!(find_from("a_b_c", '_', 0), 1);
    assert_eq!(find_from("a_b_c", '_', 1), 1);
    assert_eq!(find_from("a_b_c", '_', 2), 3);
    assert_eq!(find_from("a_b_c", '_', 4), 5);
    assert_eq!(find_from("a_b_c", '_', 5), 5);
    assert_eq!(find_from("", '_', 0), 0);
    assert_eq!(find_from("é_é", '_', 0), 1);
}

#[test]
fn capitals_replace_the_first_character() {
    assert_eq!(written(|out| push_capitalized(out, "S", "sleep")), "[Sleep]");
    assert_eq!(written(|out| push_capitalized(out, "SS", "ßtark")), "[SStark]");
    assert_eq!(written(|out| push_capitalized(out, "", "sleep")), "[leep]");
    assert_eq!(written(|out| push_capitalized(out, "X", "")), "[X]");
    assert_eq!(written(|out| push_capitalized(out, "É", "é")), "[É]");
}

#[test]
fn quotients_round_to_the_nearest() {
    assert_eq!(round_div(7, 2), 4);
    assert_eq!(round_div(-7, 2), -4);
    assert_eq!(round_div(7, -2), -4);
    assert_eq!(round_div(-7, -2), 4);
    assert_eq!(round_div(200, 3), 67);
    assert_eq!(round_div(100, 3), 33);
    assert_eq!(round_div(1, 3), 0);
    assert_eq!(round_div(-1, 3), 0);
    assert_eq!(round_div(0, 5), 0);
    assert_eq!(round_div(5, 10), 1);
    assert_eq!(round_div(4, 10), 0);
    assert_eq!(round_div(15, 10), 2);
    assert_eq!(round_div(25, 10), 3);
    for a in -60i128..=60 {
        for b in [-7i128, -2, -1, 1, 2, 3, 7, 50] {
            let q = round_div(a, b);
            assert!(2 * (q * b - a).abs() <= b.abs());
            if 2 * (q * b - a).abs() == b.abs() {
                assert!((q * b).abs() > a.abs());
            }
        }
    }
}
