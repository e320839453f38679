//! Terminal styling: the three tiers of a score and the dimmed captions.

use vstd::prelude::*;
use vstd::string::*;
use owo_colors::OwoColorize;

verus! {

/// How a value is judged, and so how it is shown.
#[derive(Clone, Copy, Debug, PartialEq, Eq, Structural)]
pub enum Tier {
    /// Shown in green.
    Good,
    /// Shown in yellow.
    Borderline,
    /// Shown in red.
    Attention,
}

/// The tier of a score: good from 85, borderline from 70, attention below.
pub open spec fn tier_of(score: int) -> Tier {
    if score >= 85 {
        Tier::Good
    } else if score >= 70 {
        Tier::Borderline
    } else {
        Tier::Attention
    }
}

/// `text` between the codes that switch the foreground to green and back.
pub open spec fn green_text(text: Seq<char>) -> Seq<char> {
    "\u{1b}[32m"@ + text + "\u{1b}[39m"@
}

/// `text` between the codes that switch the foreground to yellow and back.
pub open spec fn yellow_text(text: Seq<char>) -> Seq<char> {
    "\u{1b}[33m"@ + text + "\u{1b}[39m"@
}

/// `text` between the codes that switch the foreground to red and back.
pub open spec fn red_text(text: Seq<char>) -> Seq<char> {
    "\u{1b}[31m"@ + text + "\u{1b}[39m"@
}

/// `text` between the code that dims and the code that resets all styling.
pub open spec fn dim_text(text: Seq<char>) -> Seq<char> {
    "\u{1b}[2m"@ + text + "\u{1b}[0m"@
}

/// `text` in the colour of its tier.
pub open spec fn tier_text(tier: Tier, text: Seq<char>) -> Seq<char> {
    match tier {
        Tier::Good => green_text(text),
        Tier::Borderline => yellow_text(text),
        Tier::Attention => red_text(text),
    }
}

/// `OwoColorize::green`, displayed: the text after `ESC[32m` and before
/// `ESC[39m`.
#[verifier::external_body]
fn owo_green(text: &str) -> (styled: String)
    ensures
        styled@ == green_text(text@),
{
    format!("{}", text.green())
}

/// `OwoColorize::yellow`, displayed: the text after `ESC[33m` and before
/// `ESC[39m`.
#[verifier::external_body]
fn owo_yellow(text: &str) -> (styled: String)
    ensures
        styled@ == yellow_text(text@),
{
    format!("{}", text.yellow())
}

/// `OwoColorize::red`, displayed: the text after `ESC[31m` and before
/// `ESC[39m`.
#[verifier::external_body]
fn owo_red(text: &str) -> (styled: String)
    ensures
        styled@ == red_text(text@),
{
    format!("{}", text.red())
}

/// `OwoColorize::dimmed`, displayed: the text after `ESC[2m` and before
/// `ESC[0m`.
#[verifier::external_body]
fn owo_dimmed(text: &str) -> (styled: String)
    ensures
        styled@ == dim_text(text@),
{
    format!("{}", text.dimmed())
}

/// The tier of a score. Both bounds belong to the upper tier: 85 is good and
/// 70 is borderline.
pub fn score_tier(score: i64) -> (tier: Tier)
    ensures
        tier == tier_of(score as int),
        tier == Tier::Good <==> score >= 85,
        tier == Tier::Borderline <==> 70 <= score < 85,
        tier == Tier::Attention <==> score < 70,
{
    if score >= 85 {
        Tier::Good
    } else if score >= 70 {
        Tier::Borderline
    } else {
        Tier::Attention
    }
}

/// `text` in the colour of `tier`.
pub fn paint(tier: Tier, text: &str) -> (styled: String)
    ensures
        styled@ == tier_text(tier, text@),
{
    match tier {
        Tier::Good => owo_green(text),
        Tier::Borderline => owo_yellow(text),
        Tier::Attention => owo_red(text),
    }
}

/// `text` dimmed.
pub fn dim(text: &str) -> (styled: String)
    ensures
        styled@ == dim_text(text@),
{
    owo_dimmed(text)
}

} // verus!
