//! The text of the terminal reports: how single values are written, and what
//! each report shows of the records it is given.

use vstd::prelude::*;
use vstd::string::*;
use crate::models::{
    Contributor, DailyActivity, DailyReadiness, DailySleep, DailyStress, Milli, Sleep,
};
use crate::dates::{parse_date, parsed_date};
use crate::rounding::{magnitude, round_div, rounded_quotient};
use crate::style::{dim, dim_text, paint, score_tier, tier_of, tier_text, Tier};
use crate::text::{
    digit_char, find_from, integer_text, left_aligned, natural_text, position_of, push_integer,
    push_left_aligned, push_natural, push_right_aligned, push_zero_padded, right_aligned,
    same_text, zero_padded,
};
use crate::trend::{
    activity_column, day_texts, join_series, joined_rows, present_mean, readiness_column,
    row_views, sleep_column, JoinedTrendRow, Trend, TrendRowView,
};

verus! {

/// A score as a report shows it: its numeral in the colour of its tier.
pub open spec fn score_text(score: int) -> Seq<char> {
    tier_text(tier_of(score), integer_text(score))
}

/// A score in the colour of its tier: green from 85, yellow from 70, red
/// below.
pub fn colored_score(score: i64) -> (text: String)
    ensures
        text@ == score_text(score as int),
{
    let mut numeral = String::new();
    push_integer(&mut numeral, score as i128);
    paint(score_tier(score), numeral.as_str())
}

/// A duration in whole seconds as hours and minutes: `1h 05m` from one hour
/// on, `42m` below; nothing and less than nothing is `0m`.
pub open spec fn duration_text(seconds: int) -> Seq<char> {
    let hours = seconds / 3600;
    let minutes = (seconds % 3600) / 60;
    if seconds <= 0 {
        "0m"@
    } else if hours >= 1 {
        natural_text(hours as nat) + "h "@ + zero_padded(minutes as nat, 2) + "m"@
    } else {
        natural_text(minutes as nat) + "m"@
    }
}

/// A duration in whole seconds as hours and minutes.
pub fn format_duration(seconds: i64) -> (text: String)
    ensures
        text@ == duration_text(seconds as int),
{
    let mut out = String::new();
    if seconds <= 0 {
        out.append("0m");
        return out;
    }
    let hours: i64 = seconds / 3600;
    let minutes: i64 = (seconds % 3600) / 60;
    if hours >= 1 {
        push_natural(&mut out, hours as u128);
        out.append("h ");
        push_zero_padded(&mut out, minutes as u128, 2);
    } else {
        push_natural(&mut out, minutes as u128);
    }
    out.append("m");
    assert(out@ =~= duration_text(seconds as int));
    out
}

/// The share of `part` in `total` as a whole percentage, rounded to the
/// nearest; a total of zero gives `0%`.
pub open spec fn percent_text(part: int, total: int) -> Seq<char> {
    if total == 0 {
        "0%"@
    } else {
        integer_text(rounded_quotient(100 * part, total)) + "%"@
    }
}

/// The share of `part` in `total` as a whole percentage.
pub fn format_percent(part: i64, total: i64) -> (text: String)
    ensures
        text@ == percent_text(part as int, total as int),
{
    let mut out = String::new();
    if total == 0 {
        out.append("0%");
        return out;
    }
    let percent = round_div(100 * (part as i128), total as i128);
    push_integer(&mut out, percent);
    out.append("%");
    out
}

/// A count with its digits in groups of three, counted from the right, and
/// commas between the groups. Counts below one thousand, the negative ones
/// among them, are written as they are.
pub open spec fn number_text(n: int) -> Seq<char>
    decreases n,
{
    if n >= 1000 {
        number_text(n / 1000) + ","@ + zero_padded((n % 1000) as nat, 3)
    } else {
        integer_text(n)
    }
}

/// Appends a count with commas between its groups of three digits.
pub fn push_number(out: &mut String, n: i64)
    ensures
        final(out)@ == old(out)@ + number_text(n as int),
    decreases n,
{
    if n >= 1000 {
        push_number(out, n / 1000);
        out.append(",");
        push_zero_padded(out, (n % 1000) as u128, 3);
        assert(final(out)@ =~= old(out)@ + number_text(n as int));
    } else {
        push_integer(out, n as i128);
    }
}

/// A count with commas between its groups of three digits, as `12,345`.
pub fn format_number(n: i64) -> (text: String)
    ensures
        text@ == number_text(n as int),
{
    let mut out = String::new();
    push_number(&mut out, n);
    assert(out@ =~= number_text(n as int));
    out
}

/// A measurement held in thousandths, written with one decimal place and
/// rounded to the nearest tenth. Negative values carry a minus sign; with
/// `signed`, all others carry a plus sign.
pub open spec fn one_decimal_text(thousandths: int, signed: bool) -> Seq<char> {
    let tenths = rounded_quotient(magnitude(thousandths), 100);
    let sign = if thousandths < 0 {
        "-"@
    } else if signed {
        "+"@
    } else {
        Seq::<char>::empty()
    };
    sign + natural_text((tenths / 10) as nat) + "."@ + seq![digit_char(tenths % 10)]
}

/// Appends a measurement with one decimal place.
pub fn push_one_decimal(out: &mut String, value: Milli, signed: bool)
    ensures
        final(out)@ == old(out)@ + one_decimal_text(value.thousandths as int, signed),
{
    let size: i128 = if value.thousandths < 0 {
        -(value.thousandths as i128)
    } else {
        value.thousandths as i128
    };
    let tenths = round_div(size, 100);
    if value.thousandths < 0 {
        out.append("-");
    } else if signed {
        out.append("+");
    }
    push_natural(out, (tenths / 10) as u128);
    out.append(".");
    out.push((48u8 + (tenths % 10) as u8) as char);
    assert(final(out)@ =~= old(out)@ + one_decimal_text(value.thousandths as int, signed));
}

/// A measurement held in thousandths, rounded to the nearest whole unit.
pub open spec fn nearest_unit(thousandths: int) -> int {
    rounded_quotient(thousandths, 1000)
}

/// A measurement rounded to the nearest whole unit.
pub fn round_to_unit(value: Milli) -> (units: i64)
    ensures
        units == nearest_unit(value.thousandths as int),
{
    let units = round_div(value.thousandths as i128, 1000);
    assert(-0x8000_0000_0000_0000 <= units <= 0x7fff_ffff_ffff_ffff) by {
        let t = value.thousandths as int;
        assert((2 * magnitude(t) + 1000) / 2000 <= 0x7fff_ffff_ffff_ffff);
    }
    units as i64
}

/// The time of day of a timestamp: the five characters after its first `T`,
/// as `23:15` in `2024-02-13T23:15:00+08:00`. A text without a `T`, or with
/// fewer than five characters after it, stays as it is.
pub open spec fn clock_text(iso: Seq<char>) -> Seq<char> {
    let at = position_of(iso, 'T');
    if at + 6 <= iso.len() {
        iso.subrange(at + 1, at + 6)
    } else {
        iso
    }
}

/// The time of day of a timestamp, as hours and minutes.
pub fn format_time(iso: &str) -> (text: &str)
    ensures
        text@ == clock_text(iso@),
{
    let len = iso.unicode_len();
    let at = find_from(iso, 'T', 0);
    assert(iso@.subrange(0, len as int) =~= iso@);
    if at < len && len - at >= 6 {
        iso.substring_char(at + 1, at + 6)
    } else {
        iso
    }
}

/// What `char::to_uppercase` yields for a character.
pub uninterp spec fn unicode_upper(c: char) -> Seq<char>;

/// `char::to_uppercase` yields the uppercase mapping of a character, which
/// may be several characters long.
#[verifier::external_body]
fn upper_of(c: char) -> (text: String)
    ensures
        text@ == unicode_upper(c),
{
    c.to_uppercase().collect()
}

/// A character as a capital: the letters `a` to `z` as `A` to `Z`, every
/// other character of the first 128 unchanged, and any further character by
/// its uppercase mapping.
pub open spec fn capital_text(c: char) -> Seq<char> {
    if 'a' <= c && c <= 'z' {
        seq![((c as u8) - 32) as char]
    } else if (c as u32) < 128 {
        seq![c]
    } else {
        unicode_upper(c)
    }
}

/// One word of a contributor key as a report shows it: `hrv`, `hr` and `spo2`
/// in capitals throughout, any other word with a capital first character.
pub open spec fn word_text(word: Seq<char>) -> Seq<char> {
    if word == "hrv"@ {
        "HRV"@
    } else if word == "hr"@ {
        "HR"@
    } else if word == "spo2"@ {
        "SPO2"@
    } else if word.len() == 0 {
        word
    } else {
        capitalized_text(capital_text(word[0]), word)
    }
}

/// A contributor key as a report shows it: its words, which underscores
/// separate, each written by `word_text`, with one space between them.
pub open spec fn key_text(key: Seq<char>) -> Seq<char>
    decreases key.len(),
{
    let at = position_of(key, '_');
    if 0 <= at < key.len() {
        word_text(key.subrange(0, at)) + " "@ + key_text(key.subrange(at + 1, key.len() as int))
    } else {
        word_text(key)
    }
}

/// A word with its first character replaced by `capital`, which may be
/// several characters long.
pub open spec fn capitalized_text(capital: Seq<char>, word: Seq<char>) -> Seq<char> {
    if word.len() == 0 {
        capital
    } else {
        capital + word.subrange(1, word.len() as int)
    }
}

/// Appends `capital`, then `word` without its first character.
pub fn push_capitalized(out: &mut String, capital: &str, word: &str)
    ensures
        final(out)@ == old(out)@ + capitalized_text(capital@, word@),
{
    out.append(capital);
    let len = word.unicode_len();
    if len > 0 {
        out.append(word.substring_char(1, len));
    }
    assert(final(out)@ =~= old(out)@ + capitalized_text(capital@, word@));
}

/// The capital of a character of the first 128.
fn ascii_capital(c: char) -> (capital: char)
    requires
        (c as u32) < 128,
    ensures
        seq![capital] == capital_text(c),
{
    if 'a' <= c && c <= 'z' {
        ((c as u8) - 32) as char
    } else {
        c
    }
}

/// Appends one word of a contributor key.
fn push_word(out: &mut String, word: &str)
    ensures
        final(out)@ == old(out)@ + word_text(word@),
{
    if same_text(word, "hrv") {
        out.append("HRV");
    } else if same_text(word, "hr") {
        out.append("HR");
    } else if same_text(word, "spo2") {
        out.append("SPO2");
    } else if word.unicode_len() > 0 {
        let first = word.get_char(0);
        let mut capital = String::new();
        if (first as u32) < 128 {
            capital.push(ascii_capital(first));
            assert(capital@ =~= capital_text(first));
        } else {
            capital = upper_of(first);
        }
        push_capitalized(out, capital.as_str(), word);
    } else {
        assert(final(out)@ =~= old(out)@ + word_text(word@));
    }
}

/// A contributor key as a report shows it: `hrv_balance` as `HRV Balance`.
pub fn format_contributor_key(key: &str) -> (text: String)
    ensures
        text@ == key_text(key@),
{
    let len = key.unicode_len();
    let mut out = String::new();
    let mut start: usize = 0;
    let mut at: usize = find_from(key, '_', 0);
    assert(key@.subrange(0, len as int) =~= key@);
    assert(out@ + key_text(key@) =~= key_text(key@));
    while at < len
        invariant
            start <= at <= len,
            len == key@.len(),
            at == start + position_of(key@.subrange(start as int, len as int), '_'),
            key_text(key@) == out@ + key_text(key@.subrange(start as int, len as int)),
        decreases len - start,
    {
        let ghost rest = key@.subrange(start as int, len as int);
        let ghost done = out@;
        push_word(&mut out, key.substring_char(start, at));
        out.append(" ");
        proof {
            assert(rest.subrange(0, at - start) =~= key@.subrange(start as int, at as int));
            assert(rest.subrange(at - start + 1, rest.len() as int) =~= key@.subrange(
                at + 1,
                len as int,
            ));
            assert(out@ + key_text(key@.subrange(at + 1, len as int)) =~= done + key_text(rest));
        }
        start = at + 1;
        at = find_from(key, '_', start);
    }
    push_word(&mut out, key.substring_char(start, len));
    out
}

/// One line of a report: a caption, a value and what follows the value.
pub open spec fn field_text(caption: Seq<char>, value: Seq<char>, unit: Seq<char>) -> Seq<char> {
    caption + value + unit + "\n"@
}

/// One line of a report.
fn field_line(caption: &str, value: &str, unit: &str) -> (line: String)
    ensures
        line@ == field_text(caption@, value@, unit@),
{
    let mut line = String::new();
    line.append(caption);
    line.append(value);
    line.append(unit);
    line.append("\n");
    assert(line@ =~= field_text(caption@, value@, unit@));
    line
}

/// One line of a report with nothing after the value.
fn plain_line(caption: &str, value: &str) -> (line: String)
    ensures
        line@ == field_text(caption@, value@, Seq::empty()),
{
    proof {
        reveal_strlit("");
        assert(""@ =~= Seq::<char>::empty());
    }
    field_line(caption, value, "")
}

/// The line of a score, where there is one.
pub open spec fn score_field(caption: Seq<char>, score: Option<i64>) -> Seq<char> {
    match score {
        Some(v) => field_text(caption, score_text(v as int), Seq::empty()),
        None => Seq::empty(),
    }
}

fn score_line(caption: &str, score: Option<i64>) -> (line: String)
    ensures
        line@ == score_field(caption@, score),
{
    match score {
        Some(v) => {
            let value = colored_score(v);
            plain_line(caption, value.as_str())
        },
        None => String::new(),
    }
}

/// The line of a whole number with its unit, where there is one.
pub open spec fn integer_field(caption: Seq<char>, value: Option<i64>, unit: Seq<char>) -> Seq<
    char,
> {
    match value {
        Some(v) => field_text(caption, integer_text(v as int), unit),
        None => Seq::empty(),
    }
}

fn integer_line(caption: &str, value: Option<i64>, unit: &str) -> (line: String)
    ensures
        line@ == integer_field(caption@, value, unit@),
{
    match value {
        Some(v) => {
            let mut numeral = String::new();
            push_integer(&mut numeral, v as i128);
            field_line(caption, numeral.as_str(), unit)
        },
        None => String::new(),
    }
}

/// The line of a duration, where there is one.
pub open spec fn duration_field(caption: Seq<char>, seconds: Option<i64>) -> Seq<char> {
    match seconds {
        Some(v) => field_text(caption, duration_text(v as int), Seq::empty()),
        None => Seq::empty(),
    }
}

fn duration_line(caption: &str, seconds: Option<i64>) -> (line: String)
    ensures
        line@ == duration_field(caption@, seconds),
{
    match seconds {
        Some(v) => {
            let value = format_duration(v);
            plain_line(caption, value.as_str())
        },
        None => String::new(),
    }
}

/// The line of one stage of sleep, where its duration is known: the
/// duration, and in brackets its share of the whole sleep.
pub open spec fn stage_field(caption: Seq<char>, seconds: Option<i64>, total: int) -> Seq<char> {
    match seconds {
        Some(v) => field_text(
            caption,
            duration_text(v as int) + " ("@ + percent_text(v as int, total),
            ")"@,
        ),
        None => Seq::empty(),
    }
}

fn stage_line(caption: &str, seconds: Option<i64>, total: i64) -> (line: String)
    ensures
        line@ == stage_field(caption@, seconds, total as int),
{
    match seconds {
        Some(v) => {
            let mut value = format_duration(v);
            value.append(" (");
            let share = format_percent(v, total);
            value.append(share.as_str());
            field_line(caption, value.as_str(), ")")
        },
        None => String::new(),
    }
}

/// The line of a measurement shown as the nearest whole number, where there
/// is one.
pub open spec fn rounded_field(caption: Seq<char>, value: Option<Milli>, unit: Seq<char>) -> Seq<
    char,
> {
    match value {
        Some(v) => field_text(caption, integer_text(nearest_unit(v.thousandths as int)), unit),
        None => Seq::empty(),
    }
}

fn rounded_line(caption: &str, value: Option<Milli>, unit: &str) -> (line: String)
    ensures
        line@ == rounded_field(caption@, value, unit@),
{
    match value {
        Some(v) => integer_line(caption, Some(round_to_unit(v)), unit),
        None => String::new(),
    }
}

/// The line of a measurement shown with one decimal place, where there is
/// one.
pub open spec fn decimal_field(
    caption: Seq<char>,
    value: Option<Milli>,
    signed: bool,
    unit: Seq<char>,
) -> Seq<char> {
    match value {
        Some(v) => field_text(caption, one_decimal_text(v.thousandths as int, signed), unit),
        None => Seq::empty(),
    }
}

fn decimal_line(caption: &str, value: Option<Milli>, signed: bool, unit: &str) -> (line: String)
    ensures
        line@ == decimal_field(caption@, value, signed, unit@),
{
    match value {
        Some(v) => {
            let mut numeral = String::new();
            push_one_decimal(&mut numeral, v, signed);
            assert(numeral@ =~= one_decimal_text(v.thousandths as int, signed));
            field_line(caption, numeral.as_str(), unit)
        },
        None => String::new(),
    }
}

/// A caption or a remark, dimmed, on a line of its own.
pub open spec fn remark_text(remark: Seq<char>) -> Seq<char> {
    field_text("  "@, dim_text(remark), Seq::empty())
}

fn remark_line(remark: &str) -> (line: String)
    ensures
        line@ == remark_text(remark@),
{
    let styled = dim(remark);
    plain_line("  ", styled.as_str())
}

/// The line of one contributor: its key in a column of 24 characters, then
/// its score. A contributor without a whole number as its value has no line.
pub open spec fn contributor_text(entry: Contributor) -> Seq<char> {
    match entry.value {
        Some(v) => field_text(
            "  "@,
            left_aligned(key_text(entry.key@), 24) + score_text(v as int),
            Seq::empty(),
        ),
        None => Seq::empty(),
    }
}

/// The lines of the contributors of a score, in the order given.
pub open spec fn contributors_text(entries: Seq<Contributor>) -> Seq<char>
    decreases entries.len(),
{
    if entries.len() == 0 {
        Seq::empty()
    } else {
        contributors_text(entries.drop_last()) + contributor_text(entries.last())
    }
}

fn contributor_line(entry: &Contributor) -> (line: String)
    ensures
        line@ == contributor_text(*entry),
{
    match entry.value {
        Some(v) => {
            let key = format_contributor_key(entry.key.as_str());
            let mut value = String::new();
            push_left_aligned(&mut value, key.as_str(), 24);
            let score = colored_score(v);
            value.append(score.as_str());
            assert(value@ =~= left_aligned(key_text(entry.key@), 24) + score_text(v as int));
            plain_line("  ", value.as_str())
        },
        None => String::new(),
    }
}

/// The lines of the contributors of a score: one for each contributor that
/// has a value, in the order given.
pub fn display_contributors(contributors: &Vec<Contributor>) -> (text: String)
    ensures
        text@ == contributors_text(contributors@),
{
    let mut out = String::new();
    let mut i: usize = 0;
    while i < contributors.len()
        invariant
            i <= contributors.len(),
            out@ == contributors_text(contributors@.subrange(0, i as int)),
        decreases contributors.len() - i,
    {
        let line = contributor_line(&contributors[i]);
        out.append(line.as_str());
        proof {
            let done = contributors@.subrange(0, i + 1);
            assert(done.drop_last() =~= contributors@.subrange(0, i as int));
            assert(done.last() == contributors@[i as int]);
        }
        i = i + 1;
    }
    assert(contributors@.subrange(0, i as int) =~= contributors@);
    out
}

/// The lines of the contributors, where the record has any.
pub open spec fn contributors_field(contributors: Option<Vec<Contributor>>) -> Seq<char> {
    match contributors {
        Some(entries) => contributors_text(entries@),
        None => Seq::empty(),
    }
}

fn contributors_lines(contributors: &Option<Vec<Contributor>>) -> (text: String)
    ensures
        text@ == contributors_field(*contributors),
{
    match contributors {
        Some(entries) => display_contributors(entries),
        None => String::new(),
    }
}

/// A score in a line of several: in the colour of its tier, or two dimmed
/// hyphens where there is none.
pub open spec fn score_cell(score: Option<i64>) -> Seq<char> {
    match score {
        Some(v) => score_text(v as int),
        None => dim_text("--"@),
    }
}

fn score_cell_text(score: Option<i64>) -> (cell: String)
    ensures
        cell@ == score_cell(score),
{
    match score {
        Some(v) => colored_score(v),
        None => dim("--"),
    }
}

/// The sleep score of a day, where the day and its score are known.
pub open spec fn sleep_score(daily: Option<&DailySleep>) -> Option<i64> {
    match daily {
        Some(d) => d.score,
        None => None,
    }
}

/// The readiness score of a day, where the day and its score are known.
pub open spec fn readiness_score(daily: Option<&DailyReadiness>) -> Option<i64> {
    match daily {
        Some(d) => d.score,
        None => None,
    }
}

/// The activity score of a day, where the day and its score are known.
pub open spec fn activity_score(daily: Option<&DailyActivity>) -> Option<i64> {
    match daily {
        Some(d) => d.score,
        None => None,
    }
}

/// The temperature deviation of a day where it is at least half a degree
/// either way.
pub open spec fn notable_deviation(daily: Option<&DailyReadiness>) -> Option<Milli> {
    match daily {
        Some(d) => match d.temperature_deviation {
            Some(t) => if magnitude(t.thousandths as int) >= 500 {
                Some(t)
            } else {
                None
            },
            None => None,
        },
        None => None,
    }
}

/// The readiness contributors under their caption, after an empty line,
/// where the day has any.
pub open spec fn breakdown_text(daily: Option<&DailyReadiness>) -> Seq<char> {
    match daily {
        Some(d) => match d.contributors {
            Some(entries) => "\n"@ + remark_text("Readiness contributors:"@) + contributors_text(
                entries@,
            ),
            None => Seq::empty(),
        },
        None => Seq::empty(),
    }
}

/// The three scores of a day in one line, then the readiness contributors,
/// then the temperature deviation where it is notable.
pub open spec fn scores_text(
    daily_sleep: Option<&DailySleep>,
    daily_readiness: Option<&DailyReadiness>,
    daily_activity: Option<&DailyActivity>,
) -> Seq<char> {
    "  Sleep "@ + score_cell(sleep_score(daily_sleep)) + "  Readiness "@ + score_cell(
        readiness_score(daily_readiness),
    ) + "  Activity "@ + score_cell(activity_score(daily_activity)) + "\n"@ + breakdown_text(
        daily_readiness,
    ) + decimal_field("  Temp Deviation:  "@, notable_deviation(daily_readiness), true, "°C"@)
}

/// The report of a day's three scores. A score that is not known yet shows
/// as a placeholder.
pub fn display_scores(
    daily_sleep: Option<&DailySleep>,
    daily_readiness: Option<&DailyReadiness>,
    daily_activity: Option<&DailyActivity>,
) -> (text: String)
    ensures
        text@ == scores_text(daily_sleep, daily_readiness, daily_activity),
{
    let sleep = score_cell_text(
        match daily_sleep {
            Some(d) => d.score,
            None => None,
        },
    );
    let readiness = score_cell_text(
        match daily_readiness {
            Some(d) => d.score,
            None => None,
        },
    );
    let activity = score_cell_text(
        match daily_activity {
            Some(d) => d.score,
            None => None,
        },
    );
    let mut out = String::new();
    out.append("  Sleep ");
    out.append(sleep.as_str());
    out.append("  Readiness ");
    out.append(readiness.as_str());
    out.append("  Activity ");
    out.append(activity.as_str());
    out.append("\n");
    let mut notable: Option<Milli> = None;
    match daily_readiness {
        Some(d) => {
            match &d.contributors {
                Some(entries) => {
                    out.append("\n");
                    let caption = remark_line("Readiness contributors:");
                    out.append(caption.as_str());
                    let lines = display_contributors(entries);
                    out.append(lines.as_str());
                },
                None => {},
            }
            match d.temperature_deviation {
                Some(t) => {
                    if t.thousandths >= 500 || t.thousandths <= -500 {
                        notable = Some(t);
                    }
                },
                None => {},
            }
        },
        None => {},
    }
    let deviation = decimal_line("  Temp Deviation:  ", notable, true, "°C");
    out.append(deviation.as_str());
    assert(out@ =~= scores_text(daily_sleep, daily_readiness, daily_activity));
    out
}

/// Whether a period is the main sleep of its day.
pub open spec fn is_long_sleep(period: Sleep) -> bool {
    match period.sleep_type {
        Some(t) => t@ == "long_sleep"@,
        None => false,
    }
}

/// The place of the first main sleep among the periods; their number if
/// there is none.
pub open spec fn first_long_sleep(records: Seq<Sleep>) -> int
    decreases records.len(),
{
    if records.len() == 0 || is_long_sleep(records[0]) {
        0
    } else {
        1 + first_long_sleep(records.drop_first())
    }
}

/// The place of the period that the detailed reports show: the first main
/// sleep, or the first period where none is a main sleep.
pub open spec fn main_period_index(records: Seq<Sleep>) -> Option<int> {
    if records.len() == 0 {
        None
    } else if first_long_sleep(records) < records.len() {
        Some(first_long_sleep(records))
    } else {
        Some(0)
    }
}

/// The period that the detailed reports show.
pub open spec fn main_period(records: Seq<Sleep>) -> Option<Sleep> {
    match main_period_index(records) {
        Some(i) => Some(records[i]),
        None => None,
    }
}

/// `first_long_sleep` is the one place before which no main sleep stands and
/// at which one does, or the periods end.
pub proof fn lemma_first_long_sleep(records: Seq<Sleep>, at: int)
    requires
        0 <= at <= records.len(),
        forall|j: int| 0 <= j < at ==> !is_long_sleep(records[j]),
        at < records.len() ==> is_long_sleep(records[at]),
    ensures
        first_long_sleep(records) == at,
    decreases at,
{
    if at > 0 {
        let rest = records.drop_first();
        assert forall|j: int| 0 <= j < at - 1 implies !is_long_sleep(rest[j]) by {
            assert(rest[j] == records[j + 1]);
        }
        lemma_first_long_sleep(rest, at - 1);
    }
}

/// Of a nap and a main sleep, the main sleep is shown, whichever of the two
/// comes first.
pub proof fn lemma_main_sleep_wins(nap: Sleep, night: Sleep)
    requires
        !is_long_sleep(nap),
        is_long_sleep(night),
    ensures
        main_period(seq![nap, night]) == Some(night),
        main_period(seq![night, nap]) == Some(night),
{
    lemma_first_long_sleep(seq![nap, night], 1);
    lemma_first_long_sleep(seq![night, nap], 0);
}

/// Whether a period is the main sleep of its day.
fn long_sleep(period: &Sleep) -> (long: bool)
    ensures
        long == is_long_sleep(*period),
{
    match &period.sleep_type {
        Some(t) => same_text(t.as_str(), "long_sleep"),
        None => false,
    }
}

/// The period that the detailed reports show: the first that is a main
/// sleep, else the first of all, and none where there are no periods.
pub fn select_period(records: &[Sleep]) -> (chosen: Option<usize>)
    ensures
        match chosen {
            Some(i) => main_period_index(records@) == Some(i as int) && i < records.len(),
            None => main_period_index(records@) is None,
        },
        records.len() > 0 ==> chosen is Some,
        chosen matches Some(i) ==> is_long_sleep(records[i as int]) || (i == 0 && forall|j: int|
            0 <= j < records.len() ==> !is_long_sleep(#[trigger] records[j])),
{
    let len = records.len();
    let mut at: usize = 0;
    while at < len && !long_sleep(&records[at])
        invariant
            at <= len,
            len == records.len(),
            forall|j: int| 0 <= j < at ==> !is_long_sleep(records[j]),
        decreases len - at,
    {
        at = at + 1;
    }
    proof {
        lemma_first_long_sleep(records@, at as int);
    }
    if len == 0 {
        None
    } else if at < len {
        Some(at)
    } else {
        Some(0)
    }
}

/// A value where it is known, and zero where it is not.
pub open spec fn known_or_zero(value: Option<i64>) -> int {
    match value {
        Some(v) => v as int,
        None => 0,
    }
}

/// The line of the times of going to bed and getting up, where both are
/// known.
pub open spec fn bedtime_field(start: Option<String>, end: Option<String>) -> Seq<char> {
    match (start, end) {
        (Some(a), Some(b)) => field_text(
            "  Bedtime:     "@,
            clock_text(a@) + " → "@ + clock_text(b@),
            Seq::empty(),
        ),
        _ => Seq::empty(),
    }
}

fn bedtime_line(start: &Option<String>, end: &Option<String>) -> (line: String)
    ensures
        line@ == bedtime_field(*start, *end),
{
    match (start, end) {
        (Some(a), Some(b)) => {
            let mut value = String::new();
            value.append(format_time(a.as_str()));
            value.append(" → ");
            value.append(format_time(b.as_str()));
            assert(value@ =~= clock_text(a@) + " → "@ + clock_text(b@));
            plain_line("  Bedtime:     ", value.as_str())
        },
        _ => String::new(),
    }
}

/// What the sleep report shows of a period: the day's score, the whole sleep
/// and its efficiency, the three stages with their shares, heart rate and its
/// variability, and the times of going to bed and getting up. A line whose
/// value is not known is left out, but for the whole sleep, which then shows
/// as no time at all.
pub open spec fn period_text(score: Option<i64>, period: Sleep) -> Seq<char> {
    let total = known_or_zero(period.total_sleep_duration);
    score_field("  Sleep Score: "@, score) + field_text(
        "  Total Sleep: "@,
        duration_text(total),
        Seq::empty(),
    ) + integer_field("  Efficiency:  "@, period.efficiency, "%"@) + stage_field(
        "  Deep:        "@,
        period.deep_sleep_duration,
        total,
    ) + stage_field("  REM:         "@, period.rem_sleep_duration, total) + stage_field(
        "  Light:       "@,
        period.light_sleep_duration,
        total,
    ) + integer_field("  Avg HRV:     "@, period.average_hrv, " ms"@) + rounded_field(
        "  Avg HR:      "@,
        period.average_heart_rate,
        " bpm"@,
    ) + integer_field("  Lowest HR:   "@, period.lowest_heart_rate, " bpm"@) + bedtime_field(
        period.bedtime_start,
        period.bedtime_end,
    )
}

fn period_lines(score: Option<i64>, period: &Sleep) -> (text: String)
    ensures
        text@ == period_text(score, *period),
{
    let total: i64 = match period.total_sleep_duration {
        Some(v) => v,
        None => 0,
    };
    let mut out = score_line("  Sleep Score: ", score);
    let whole = duration_line("  Total Sleep: ", Some(total));
    out.append(whole.as_str());
    let efficiency = integer_line("  Efficiency:  ", period.efficiency, "%");
    out.append(efficiency.as_str());
    let deep = stage_line("  Deep:        ", period.deep_sleep_duration, total);
    out.append(deep.as_str());
    let rem = stage_line("  REM:         ", period.rem_sleep_duration, total);
    out.append(rem.as_str());
    let light = stage_line("  Light:       ", period.light_sleep_duration, total);
    out.append(light.as_str());
    let variability = integer_line("  Avg HRV:     ", period.average_hrv, " ms");
    out.append(variability.as_str());
    let rate = rounded_line("  Avg HR:      ", period.average_heart_rate, " bpm");
    out.append(rate.as_str());
    let lowest = integer_line("  Lowest HR:   ", period.lowest_heart_rate, " bpm");
    out.append(lowest.as_str());
    let bedtime = bedtime_line(&period.bedtime_start, &period.bedtime_end);
    out.append(bedtime.as_str());
    out
}

/// What the sleep report shows of a day without any period: score and
/// contributors as far as they are known, and the remark that the details
/// are still to come; or that there is nothing at all.
pub open spec fn unsynced_sleep_text(daily: Option<&DailySleep>) -> Seq<char> {
    match daily {
        Some(d) => score_field("  Sleep Score: "@, d.score) + contributors_field(d.contributors)
            + remark_text("(detailed breakdown not yet synced)"@),
        None => "  No sleep data\n"@,
    }
}

/// The detailed sleep report: the main period of the day where there is
/// one, and else what the day's summary holds.
pub open spec fn sleep_text(daily: Option<&DailySleep>, records: Seq<Sleep>) -> Seq<char> {
    match main_period(records) {
        Some(period) => period_text(sleep_score(daily), period),
        None => unsynced_sleep_text(daily),
    }
}

/// The detailed sleep report of a day, from its summary and its periods.
pub fn display_sleep(daily: Option<&DailySleep>, records: &[Sleep]) -> (text: String)
    ensures
        text@ == sleep_text(daily, records@),
{
    match select_period(records) {
        Some(i) => {
            let score = match daily {
                Some(d) => d.score,
                None => None,
            };
            period_lines(score, &records[i])
        },
        None => match daily {
            Some(d) => {
                let mut out = score_line("  Sleep Score: ", d.score);
                let lines = contributors_lines(&d.contributors);
                out.append(lines.as_str());
                let remark = remark_line("(detailed breakdown not yet synced)");
                out.append(remark.as_str());
                out
            },
            None => {
                let mut out = String::new();
                out.append("  No sleep data\n");
                assert(out@ =~= "  No sleep data\n"@);
                out
            },
        },
    }
}

/// The readiness report: score, temperature deviation and contributors, as
/// far as each is known.
pub open spec fn readiness_text(record: Option<&DailyReadiness>) -> Seq<char> {
    match record {
        Some(r) => score_field("  Readiness Score: "@, r.score) + decimal_field(
            "  Temp Deviation:  "@,
            r.temperature_deviation,
            true,
            "°C"@,
        ) + contributors_field(r.contributors),
        None => "  No readiness data\n"@,
    }
}

/// The readiness report of a day.
pub fn display_readiness(record: Option<&DailyReadiness>) -> (text: String)
    ensures
        text@ == readiness_text(record),
{
    match record {
        Some(r) => {
            let mut out = score_line("  Readiness Score: ", r.score);
            let deviation = decimal_line("  Temp Deviation:  ", r.temperature_deviation, true, "°C");
            out.append(deviation.as_str());
            let lines = contributors_lines(&r.contributors);
            out.append(lines.as_str());
            out
        },
        None => {
            let mut out = String::new();
            out.append("  No readiness data\n");
            assert(out@ =~= "  No readiness data\n"@);
            out
        },
    }
}

/// The line of the calories burnt, where their total is known: the total,
/// and in brackets the active part, which counts as nothing where it is not
/// known.
pub open spec fn calories_field(total: Option<i64>, active: Option<i64>) -> Seq<char> {
    match total {
        Some(t) => field_text(
            "  Calories:       "@,
            number_text(t as int) + " (active: "@ + number_text(known_or_zero(active)),
            ")"@,
        ),
        None => Seq::empty(),
    }
}

fn calories_line(total: Option<i64>, active: Option<i64>) -> (line: String)
    ensures
        line@ == calories_field(total, active),
{
    match total {
        Some(t) => {
            let mut value = format_number(t);
            value.append(" (active: ");
            let part = format_number(
                match active {
                    Some(v) => v,
                    None => 0,
                },
            );
            value.append(part.as_str());
            field_line("  Calories:       ", value.as_str(), ")")
        },
        None => String::new(),
    }
}

/// The line of a count, where there is one.
pub open spec fn count_field(caption: Seq<char>, count: Option<i64>) -> Seq<char> {
    match count {
        Some(v) => field_text(caption, number_text(v as int), Seq::empty()),
        None => Seq::empty(),
    }
}

fn count_line(caption: &str, count: Option<i64>) -> (line: String)
    ensures
        line@ == count_field(caption@, count),
{
    match count {
        Some(v) => {
            let value = format_number(v);
            plain_line(caption, value.as_str())
        },
        None => String::new(),
    }
}

/// A distance in meters as a measurement in kilometers.
pub open spec fn kilometers(meters: Option<i64>) -> Option<Milli> {
    match meters {
        Some(m) => Some(Milli { thousandths: m }),
        None => None,
    }
}

/// The activity report: score, steps, calories, the walking distance in
/// kilometers and the times spent at high, medium and low activity, as far
/// as each is known.
pub open spec fn activity_text(record: Option<&DailyActivity>) -> Seq<char> {
    match record {
        Some(a) => score_field("  Activity Score: "@, a.score) + count_field(
            "  Steps:          "@,
            a.steps,
        ) + calories_field(a.total_calories, a.active_calories) + decimal_field(
            "  Walking Dist:   "@,
            kilometers(a.equivalent_walking_distance),
            false,
            " km"@,
        ) + duration_field("  High Activity:  "@, a.high_activity_time) + duration_field(
            "  Med Activity:   "@,
            a.medium_activity_time,
        ) + duration_field("  Low Activity:   "@, a.low_activity_time),
        None => "  No activity data\n"@,
    }
}

/// The activity report of a day.
pub fn display_activity(record: Option<&DailyActivity>) -> (text: String)
    ensures
        text@ == activity_text(record),
{
    match record {
        Some(a) => {
            let mut out = score_line("  Activity Score: ", a.score);
            let steps = count_line("  Steps:          ", a.steps);
            out.append(steps.as_str());
            let calories = calories_line(a.total_calories, a.active_calories);
            out.append(calories.as_str());
            let distance = decimal_line(
                "  Walking Dist:   ",
                match a.equivalent_walking_distance {
                    Some(m) => Some(Milli { thousandths: m }),
                    None => None,
                },
                false,
                " km",
            );
            out.append(distance.as_str());
            let high = duration_line("  High Activity:  ", a.high_activity_time);
            out.append(high.as_str());
            let medium = duration_line("  Med Activity:   ", a.medium_activity_time);
            out.append(medium.as_str());
            let low = duration_line("  Low Activity:   ", a.low_activity_time);
            out.append(low.as_str());
            out
        },
        None => {
            let mut out = String::new();
            out.append("  No activity data\n");
            assert(out@ =~= "  No activity data\n"@);
            out
        },
    }
}

/// The line of the heart-rate variability: its value, or a placeholder.
pub open spec fn variability_field(value: Option<i64>) -> Seq<char> {
    match value {
        Some(v) => field_text("  Avg HRV:     "@, integer_text(v as int), " ms"@),
        None => "  Avg HRV:     --\n"@,
    }
}

fn variability_line(value: Option<i64>) -> (line: String)
    ensures
        line@ == variability_field(value),
{
    match value {
        Some(v) => integer_line("  Avg HRV:     ", Some(v), " ms"),
        None => {
            let mut out = String::new();
            out.append("  Avg HRV:     --\n");
            assert(out@ =~= "  Avg HRV:     --\n"@);
            out
        },
    }
}

/// What the variability report shows of a period: under its caption the
/// variability, then heart rates and breath as far as they are known.
pub open spec fn period_variability_text(period: Sleep) -> Seq<char> {
    remark_text("HRV (from sleep)"@) + variability_field(period.average_hrv) + rounded_field(
        "  Avg HR:      "@,
        period.average_heart_rate,
        " bpm"@,
    ) + integer_field("  Lowest HR:   "@, period.lowest_heart_rate, " bpm"@) + decimal_field(
        "  Avg Breath:  "@,
        period.average_breath,
        false,
        " rpm"@,
    )
}

/// What the variability report shows of a day without any period: the sleep
/// score with a remark, where it is known; or that there is nothing at all.
pub open spec fn unsynced_variability_text(daily: Option<&DailySleep>) -> Seq<char> {
    match daily {
        Some(d) => match d.score {
            Some(v) => field_text(
                "  Sleep Score: "@,
                score_text(v as int) + " "@ + dim_text("(HRV requires detailed sync)"@),
                Seq::empty(),
            ),
            None => Seq::empty(),
        },
        None => "  No sleep data for HRV\n"@,
    }
}

/// The heart-rate variability report: taken from the main period of the day
/// where there is one.
pub open spec fn hrv_text(daily: Option<&DailySleep>, records: Seq<Sleep>) -> Seq<char> {
    match main_period(records) {
        Some(period) => period_variability_text(period),
        None => unsynced_variability_text(daily),
    }
}

/// The heart-rate variability report of a day, from its summary and its
/// periods of sleep.
pub fn display_hrv(daily: Option<&DailySleep>, records: &[Sleep]) -> (text: String)
    ensures
        text@ == hrv_text(daily, records@),
{
    match select_period(records) {
        Some(i) => {
            let period = &records[i];
            let mut out = remark_line("HRV (from sleep)");
            let variability = variability_line(period.average_hrv);
            out.append(variability.as_str());
            let rate = rounded_line("  Avg HR:      ", period.average_heart_rate, " bpm");
            out.append(rate.as_str());
            let lowest = integer_line("  Lowest HR:   ", period.lowest_heart_rate, " bpm");
            out.append(lowest.as_str());
            let breath = decimal_line("  Avg Breath:  ", period.average_breath, false, " rpm");
            out.append(breath.as_str());
            out
        },
        None => match daily {
            Some(d) => match d.score {
                Some(v) => {
                    let mut value = colored_score(v);
                    value.append(" ");
                    let remark = dim("(HRV requires detailed sync)");
                    value.append(remark.as_str());
                    plain_line("  Sleep Score: ", value.as_str())
                },
                None => String::new(),
            },
            None => {
                let mut out = String::new();
                out.append("  No sleep data for HRV\n");
                assert(out@ =~= "  No sleep data for HRV\n"@);
                out
            },
        },
    }
}

/// The tier that a stress summary stands for, where it is one of the three
/// known words.
pub open spec fn summary_tier(summary: Seq<char>) -> Option<Tier> {
    if summary == "restored"@ {
        Some(Tier::Good)
    } else if summary == "normal"@ {
        Some(Tier::Borderline)
    } else if summary == "stressful"@ {
        Some(Tier::Attention)
    } else {
        None
    }
}

/// A stress summary as the report shows it: in the colour of its tier, or
/// as it is where it has none.
pub open spec fn summary_text(summary: Seq<char>) -> Seq<char> {
    match summary_tier(summary) {
        Some(tier) => tier_text(tier, summary),
        None => summary,
    }
}

/// The line of the stress summary, where there is one.
pub open spec fn summary_field(summary: Option<String>) -> Seq<char> {
    match summary {
        Some(text) => field_text("  Stress Summary: "@, summary_text(text@), Seq::empty()),
        None => Seq::empty(),
    }
}

/// The tier that a stress summary stands for: `restored` is good, `normal`
/// borderline, `stressful` needs attention, and any other word has none.
pub fn stress_tier(summary: &str) -> (tier: Option<Tier>)
    ensures
        tier == summary_tier(summary@),
{
    if same_text(summary, "restored") {
        Some(Tier::Good)
    } else if same_text(summary, "normal") {
        Some(Tier::Borderline)
    } else if same_text(summary, "stressful") {
        Some(Tier::Attention)
    } else {
        None
    }
}

fn summary_line(summary: &Option<String>) -> (line: String)
    ensures
        line@ == summary_field(*summary),
{
    match summary {
        Some(text) => {
            match stress_tier(text.as_str()) {
                Some(tier) => {
                    let styled = paint(tier, text.as_str());
                    plain_line("  Stress Summary: ", styled.as_str())
                },
                None => plain_line("  Stress Summary: ", text.as_str()),
            }
        },
        None => String::new(),
    }
}

/// The stress report: the summary of the day and the times spent in high
/// stress and in high recovery, as far as each is known.
pub open spec fn stress_text(record: Option<&DailyStress>) -> Seq<char> {
    match record {
        Some(s) => summary_field(s.day_summary) + duration_field(
            "  Stress High:    "@,
            s.stress_high,
        ) + duration_field("  Recovery High:  "@, s.recovery_high),
        None => "  No stress data\n"@,
    }
}

/// The stress report of a day.
pub fn display_stress(record: Option<&DailyStress>) -> (text: String)
    ensures
        text@ == stress_text(record),
{
    match record {
        Some(s) => {
            let mut out = summary_line(&s.day_summary);
            let stress = duration_line("  Stress High:    ", s.stress_high);
            out.append(stress.as_str());
            let recovery = duration_line("  Recovery High:  ", s.recovery_high);
            out.append(recovery.as_str());
            out
        },
        None => {
            let mut out = String::new();
            out.append("  No stress data\n");
            assert(out@ =~= "  No stress data\n"@);
            out
        },
    }
}

/// A score in a trend table: at least four characters wide, or two dimmed
/// hyphens behind two spaces where there is none.
pub open spec fn trend_cell(score: Option<int>) -> Seq<char> {
    match score {
        Some(v) => right_aligned(score_text(v), 4),
        None => dim_text("  --"@),
    }
}

/// A score as a number of the model.
pub open spec fn as_int(score: Option<i64>) -> Option<int> {
    match score {
        Some(v) => Some(v as int),
        None => None,
    }
}

fn trend_cell_text(score: Option<i64>) -> (cell: String)
    ensures
        cell@ == trend_cell(as_int(score)),
{
    match score {
        Some(v) => {
            let styled = colored_score(v);
            let mut cell = String::new();
            push_right_aligned(&mut cell, styled.as_str(), 4);
            assert(cell@ =~= right_aligned(score_text(v as int), 4));
            cell
        },
        None => dim("  --"),
    }
}

/// The label of a day in a trend table: weekday, month and day where the day
/// is written as `YYYY-MM-DD`, and else the day as it is written.
pub open spec fn day_label(day: Seq<char>) -> Seq<char> {
    match parsed_date(day) {
        Some(date) => date.label_text(),
        None => day,
    }
}

fn day_label_text(day: &str) -> (label: String)
    ensures
        label@ == day_label(day@),
{
    match parse_date(day) {
        Ok(date) => date.label(),
        Err(_) => {
            let mut label = String::new();
            label.append(day);
            assert(label@ =~= day@);
            label
        },
    }
}

/// One line of a trend table: a label and the three scores in their columns.
pub open spec fn trend_line(
    label: Seq<char>,
    sleep: Option<int>,
    readiness: Option<int>,
    activity: Option<int>,
) -> Seq<char> {
    "  "@ + label + "   "@ + trend_cell(sleep) + "      "@ + trend_cell(readiness) + "     "@
        + trend_cell(activity) + "\n"@
}

fn trend_line_text(
    label: &str,
    sleep: Option<i64>,
    readiness: Option<i64>,
    activity: Option<i64>,
) -> (line: String)
    ensures
        line@ == trend_line(label@, as_int(sleep), as_int(readiness), as_int(activity)),
{
    let mut line = String::new();
    line.append("  ");
    line.append(label);
    line.append("   ");
    let first = trend_cell_text(sleep);
    line.append(first.as_str());
    line.append("      ");
    let second = trend_cell_text(readiness);
    line.append(second.as_str());
    line.append("     ");
    let third = trend_cell_text(activity);
    line.append(third.as_str());
    line.append("\n");
    assert(line@ =~= trend_line(label@, as_int(sleep), as_int(readiness), as_int(activity)));
    line
}

/// The line of one day of a trend.
pub open spec fn row_text(row: TrendRowView) -> Seq<char> {
    trend_line(
        left_aligned(day_label(row.day), 12),
        as_int(row.sleep),
        as_int(row.readiness),
        as_int(row.activity),
    )
}

/// The lines of the days of a trend, in the order of the rows.
pub open spec fn rows_text(rows: Seq<TrendRowView>) -> Seq<char>
    decreases rows.len(),
{
    if rows.len() == 0 {
        Seq::empty()
    } else {
        rows_text(rows.drop_last()) + row_text(rows.last())
    }
}

/// The dimmed line of column titles above a trend.
pub open spec fn heading_text() -> Seq<char> {
    remark_text(
        left_aligned("Date"@, 12) + right_aligned("Sleep"@, 7) + right_aligned("Readiness"@, 11)
            + right_aligned("Activity"@, 10),
    )
}

/// The last line of a trend: for each family the mean of the scores that are
/// there, and a placeholder where none is.
pub open spec fn average_text(rows: Seq<TrendRowView>) -> Seq<char> {
    trend_line(
        dim_text(left_aligned("Average"@, 12)),
        present_mean(sleep_column(rows)),
        present_mean(readiness_column(rows)),
        present_mean(activity_column(rows)),
    )
}

/// The trend table: titles, one line for each day, and the averages.
pub open spec fn table_text(rows: Seq<TrendRowView>) -> Seq<char> {
    heading_text() + rows_text(rows) + average_text(rows)
}

fn heading_line() -> (line: String)
    ensures
        line@ == heading_text(),
{
    let mut titles = String::new();
    push_left_aligned(&mut titles, "Date", 12);
    push_right_aligned(&mut titles, "Sleep", 7);
    push_right_aligned(&mut titles, "Readiness", 11);
    push_right_aligned(&mut titles, "Activity", 10);
    assert(titles@ =~= left_aligned("Date"@, 12) + right_aligned("Sleep"@, 7) + right_aligned(
        "Readiness"@,
        11,
    ) + right_aligned("Activity"@, 10));
    remark_line(titles.as_str())
}

fn row_line(row: &JoinedTrendRow) -> (line: String)
    ensures
        line@ == row_text(row@),
{
    let label = day_label_text(row.day.as_str());
    let mut cell = String::new();
    push_left_aligned(&mut cell, label.as_str(), 12);
    assert(cell@ =~= left_aligned(day_label(row.day@), 12));
    trend_line_text(cell.as_str(), row.sleep, row.readiness, row.activity)
}

fn average_line(trend: &Trend) -> (line: String)
    requires
        trend.wf(),
    ensures
        line@ == average_text(row_views(trend.rows@)),
{
    let mut caption = String::new();
    push_left_aligned(&mut caption, "Average", 12);
    assert(caption@ =~= left_aligned("Average"@, 12));
    let label = dim(caption.as_str());
    trend_line_text(
        label.as_str(),
        trend.sleep.mean(),
        trend.readiness.mean(),
        trend.activity.mean(),
    )
}

/// The trend table of rows already joined.
pub fn render_trend(trend: &Trend) -> (text: String)
    requires
        trend.wf(),
    ensures
        text@ == table_text(row_views(trend.rows@)),
{
    let mut out = heading_line();
    let ghost heading = out@;
    let ghost rows = row_views(trend.rows@);
    let mut i: usize = 0;
    assert(rows.subrange(0, 0) =~= Seq::empty());
    assert(out@ =~= heading + rows_text(rows.subrange(0, 0)));
    while i < trend.rows.len()
        invariant
            i <= trend.rows.len(),
            rows == row_views(trend.rows@),
            heading == heading_text(),
            out@ == heading + rows_text(rows.subrange(0, i as int)),
        decreases trend.rows.len() - i,
    {
        let line = row_line(&trend.rows[i]);
        out.append(line.as_str());
        proof {
            let done = rows.subrange(0, i + 1);
            assert(done.drop_last() =~= rows.subrange(0, i as int));
            assert(done.last() == trend.rows[i as int]@);
            assert(out@ =~= heading + rows_text(done));
        }
        i = i + 1;
    }
    assert(rows.subrange(0, i as int) =~= rows);
    let averages = average_line(trend);
    out.append(averages.as_str());
    out
}

/// The trend report: the scores of the three families on each of the days,
/// joined by day, and their averages.
pub fn display_trend(
    days: &[String],
    sleep: &[DailySleep],
    readiness: &[DailyReadiness],
    activity: &[DailyActivity],
) -> (text: String)
    ensures
        text@ == table_text(joined_rows(day_texts(days@), sleep@, readiness@, activity@)),
{
    let trend = join_series(days, sleep, readiness, activity);
    render_trend(&trend)
}

} // verus!
