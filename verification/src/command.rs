//! What each command asks of the remote collections, and what it shows of
//! the answers.

use vstd::prelude::*;
use vstd::string::*;
use crate::calendar::CalendarDate;
use crate::client::{
    collection_url, family_endpoint, Family, OuraClient, Request, RequestView,
};
use crate::dates::{
    lemma_written_date_reads_back, parsed_date, resolve_date_on, resolved_date, token_text,
};
use crate::display::{
    activity_text, display_activity, display_hrv, display_readiness, display_scores,
    display_sleep, display_stress, display_trend, hrv_text, readiness_text, scores_text,
    sleep_text, stress_text, table_text,
};
use crate::error::{OuraError, OuraErrorView};
use crate::models::{DailyActivity, DailyReadiness, DailySleep, DailyStress, Sleep};
use crate::trend::{day_texts, find_on, joined_rows, place_on, Dated};
use crate::window::{trailing_window, window_start, DateRange};

verus! {

/// A command as the user gave it. A date is a token still to be resolved:
/// a word, a date written as `YYYY-MM-DD`, or nothing.
#[derive(Clone, Debug, PartialEq, Eq)]
pub enum Command {
    /// The three scores of a day.
    Scores { date: Option<String> },
    /// The detailed sleep of a day.
    Sleep { date: Option<String> },
    /// Readiness score and contributors of a day.
    Readiness { date: Option<String> },
    /// The activity of a day.
    Activity { date: Option<String> },
    /// Heart-rate variability, from the sleep of a day.
    Hrv { date: Option<String> },
    /// The stress summary of a day.
    Stress { date: Option<String> },
    /// The scores of the last `days` days, today included.
    Trend { days: u32 },
    /// The answer of any collection for a day, as it came.
    Json { endpoint: String, date: Option<String> },
}

/// One request of a plan, with the collection that it asks; a request
/// without one asks for an answer to be passed on as it came.
#[derive(Clone, Debug, PartialEq, Eq)]
pub struct Fetch {
    pub family: Option<Family>,
    pub request: Request,
}

/// A `Fetch` with its request as a value of the model.
pub ghost struct FetchView {
    pub family: Option<Family>,
    pub request: RequestView,
}

impl View for Fetch {
    type V = FetchView;

    open spec fn view(&self) -> FetchView {
        FetchView { family: self.family, request: self.request@ }
    }
}

/// What a command needs: the days that it covers, written as `YYYY-MM-DD`,
/// and the requests to make, in their order.
#[derive(Clone, Debug, PartialEq, Eq)]
pub struct Plan {
    pub days: Vec<String>,
    pub fetches: Vec<Fetch>,
}

/// A `Plan` as a value of the model.
pub ghost struct PlanView {
    pub days: Seq<Seq<char>>,
    pub fetches: Seq<FetchView>,
}

impl View for Plan {
    type V = PlanView;

    open spec fn view(&self) -> PlanView {
        PlanView {
            days: day_texts(self.days@),
            fetches: Seq::new(self.fetches.len() as nat, |i: int| self.fetches[i]@),
        }
    }
}

/// The text of a date token, where there is one.
pub open spec fn token_of(date: Option<String>) -> Option<Seq<char>> {
    match date {
        Some(t) => Some(t@),
        None => None,
    }
}

impl Command {
    /// The collections that the command asks, in the order of its requests.
    pub open spec fn families(self) -> Seq<Option<Family>> {
        match self {
            Command::Scores { .. } => seq![
                Some(Family::DailySleep),
                Some(Family::DailyReadiness),
                Some(Family::DailyActivity),
            ],
            Command::Sleep { .. } => seq![Some(Family::Sleep), Some(Family::DailySleep)],
            Command::Readiness { .. } => seq![Some(Family::DailyReadiness)],
            Command::Activity { .. } => seq![Some(Family::DailyActivity)],
            Command::Hrv { .. } => seq![Some(Family::Sleep), Some(Family::DailySleep)],
            Command::Stress { .. } => seq![Some(Family::DailyStress)],
            Command::Trend { .. } => seq![
                Some(Family::DailySleep),
                Some(Family::DailyReadiness),
                Some(Family::DailyActivity),
            ],
            Command::Json { .. } => seq![None],
        }
    }

    /// The name in the address of a collection that the command asks.
    pub open spec fn endpoint_of(self, family: Option<Family>) -> Seq<char> {
        match family {
            Some(f) => family_endpoint(f),
            None => match self {
                Command::Json { endpoint, .. } => endpoint@,
                _ => Seq::empty(),
            },
        }
    }

    /// The days that the command covers on a given day: the window of a
    /// trend, or the one day that the date token names. `None` where the
    /// token names no day or the window does not start on a supported day.
    pub open spec fn range(self, today: CalendarDate) -> Option<DateRange> {
        match self {
            Command::Trend { days } => match window_start(today, days as nat) {
                Some(start) => Some(DateRange { start, end: today }),
                None => None,
            },
            Command::Scores { date }
            | Command::Sleep { date }
            | Command::Readiness { date }
            | Command::Activity { date }
            | Command::Hrv { date }
            | Command::Stress { date }
            | Command::Json { date, .. } => match resolved_date(today, token_of(date)) {
                Some(day) => Some(DateRange { start: day, end: day }),
                None => None,
            },
        }
    }
}

/// The request that a command makes of one collection for a range of days:
/// from the first day of the range to the day after its last.
pub open spec fn planned_fetch(
    token: Seq<char>,
    command: Command,
    range: DateRange,
    family: Option<Family>,
) -> FetchView {
    FetchView {
        family,
        request: RequestView {
            url: collection_url(command.endpoint_of(family)),
            token,
            start_date: range.start.iso_text(),
            end_date: range.end.next().iso_text(),
        },
    }
}

/// The plan of a command on a given day. A command that covers no day asks
/// nothing. `None` where the command has no range, or where its range ends
/// outside the years 0 to 9999, which the remote side cannot be asked for.
pub open spec fn planned(token: Seq<char>, command: Command, today: CalendarDate) -> Option<
    PlanView,
> {
    match command.range(today) {
        Some(range) => if range.len() == 0 {
            Some(PlanView { days: Seq::empty(), fetches: Seq::empty() })
        } else if 0 <= range.end.year <= 9999 {
            Some(
                PlanView {
                    days: Seq::new(range.len(), |i: int| range.day_list()[i].iso_text()),
                    fetches: Seq::new(
                        command.families().len(),
                        |i: int| planned_fetch(token, command, range, command.families()[i]),
                    ),
                },
            )
        } else {
            None
        },
        None => None,
    }
}

fn token_ref(date: &Option<String>) -> (token: Option<&str>)
    ensures
        token_text(token) == token_of(*date),
{
    match date {
        Some(t) => Some(t.as_str()),
        None => None,
    }
}

impl Command {
    /// The days that the command covers.
    fn covered(&self, today: CalendarDate) -> (range: Result<DateRange, OuraError>)
        requires
            today.wf(),
        ensures
            match range {
                Ok(r) => self.range(today) == Some(r) && r.wf(),
                Err(e) => self.range(today) is None && e@ == OuraErrorView::InvalidDate,
            },
    {
        let date = match self {
            Command::Trend { days } => {
                return match trailing_window(today, *days) {
                    Some(range) => Ok(range),
                    None => Err(OuraError::InvalidDate),
                };
            },
            Command::Scores { date } => date,
            Command::Sleep { date } => date,
            Command::Readiness { date } => date,
            Command::Activity { date } => date,
            Command::Hrv { date } => date,
            Command::Stress { date } => date,
            Command::Json { date, .. } => date,
        };
        match resolve_date_on(today, token_ref(date)) {
            Ok(day) => Ok(DateRange { start: day, end: day }),
            Err(e) => Err(e),
        }
    }

    /// The collections that the command asks, in the order of its requests.
    fn asked(&self) -> (families: Vec<Option<Family>>)
        ensures
            families@ == self.families(),
    {
        let mut families: Vec<Option<Family>> = Vec::new();
        match self {
            Command::Scores { .. } | Command::Trend { .. } => {
                families.push(Some(Family::DailySleep));
                families.push(Some(Family::DailyReadiness));
                families.push(Some(Family::DailyActivity));
            },
            Command::Sleep { .. } | Command::Hrv { .. } => {
                families.push(Some(Family::Sleep));
                families.push(Some(Family::DailySleep));
            },
            Command::Readiness { .. } => {
                families.push(Some(Family::DailyReadiness));
            },
            Command::Activity { .. } => {
                families.push(Some(Family::DailyActivity));
            },
            Command::Stress { .. } => {
                families.push(Some(Family::DailyStress));
            },
            Command::Json { .. } => {
                families.push(None);
            },
        }
        assert(families@ =~= self.families());
        families
    }

    /// The name in the address of a collection that the command asks.
    fn endpoint(&self, family: Option<Family>) -> (name: &str)
        ensures
            name@ == self.endpoint_of(family),
    {
        match family {
            Some(f) => f.endpoint(),
            None => match self {
                Command::Json { endpoint, .. } => endpoint.as_str(),
                _ => {
                    proof {
                        reveal_strlit("");
                        assert(""@ =~= Seq::<char>::empty());
                    }
                    ""
                },
            },
        }
    }
}

/// The plan of a command: the days that it covers and the requests that it
/// makes, each from the first of those days to the day after the last.
pub fn plan(client: &OuraClient, command: &Command, today: CalendarDate) -> (planned: Result<
    Plan,
    OuraError,
>)
    requires
        today.wf(),
    ensures
        match planned {
            Ok(p) => self::planned(client.token@, *command, today) == Some(p@),
            Err(e) => self::planned(client.token@, *command, today) is None && e@
                == OuraErrorView::InvalidDate,
        },
{
    let range = match command.covered(today) {
        Ok(range) => range,
        Err(e) => {
            return Err(e);
        },
    };
    let list = range.days();
    let mut plan = Plan { days: Vec::new(), fetches: Vec::new() };
    if list.len() == 0 {
        assert(plan@.days =~= Seq::empty());
        assert(plan@.fetches =~= Seq::empty());
        return Ok(plan);
    }
    if range.end.year < 0 || range.end.year > 9999 {
        return Err(OuraError::InvalidDate);
    }
    let mut i: usize = 0;
    while i < list.len()
        invariant
            i <= list.len(),
            range.wf(),
            list@ == range.day_list(),
            plan.days.len() == i,
            plan.fetches.len() == 0,
            forall|j: int| 0 <= j < i ==> (#[trigger] plan.days[j])@ == list[j].iso_text(),
            forall|j: int| 0 <= j < list.len() ==> (#[trigger] list[j]).wf(),
        decreases list.len() - i,
    {
        let text = list[i].to_iso();
        plan.days.push(text);
        i = i + 1;
    }
    let start = range.start.to_iso();
    let end = range.end.to_iso();
    let families = command.asked();
    let mut k: usize = 0;
    proof {
        lemma_written_date_reads_back(range.end);
    }
    while k < families.len()
        invariant
            k <= families.len(),
            families@ == command.families(),
            start@ == range.start.iso_text(),
            end@ == range.end.iso_text(),
            parsed_date(end@) == Some(range.end),
            plan.days.len() == list.len(),
            forall|j: int|
                0 <= j < list.len() ==> (#[trigger] plan.days[j])@ == list[j].iso_text(),
            plan.fetches.len() == k,
            forall|j: int|
                0 <= j < k ==> (#[trigger] plan.fetches[j])@ == planned_fetch(
                    client.token@,
                    *command,
                    range,
                    families[j],
                ),
        decreases families.len() - k,
    {
        let family = families[k];
        match client.fetch_range(command.endpoint(family), start.as_str(), end.as_str()) {
            Ok(request) => {
                plan.fetches.push(Fetch { family, request });
            },
            Err(e) => {
                return Err(e);
            },
        }
        k = k + 1;
    }
    proof {
        let model = self::planned(client.token@, *command, today);
        assert(model is Some);
        assert(plan@.days =~= model->Some_0.days);
        assert(plan@.fetches =~= model->Some_0.fetches);
    }
    Ok(plan)
}

/// The records that came back for the requests of a plan, by collection. A
/// collection that was not asked holds nothing.
#[derive(Clone, Debug, PartialEq, Eq)]
pub struct Fetched {
    pub daily_sleep: Vec<DailySleep>,
    pub daily_readiness: Vec<DailyReadiness>,
    pub daily_activity: Vec<DailyActivity>,
    pub sleep: Vec<Sleep>,
    pub daily_stress: Vec<DailyStress>,
}

/// The record of a series for the first of the days: found by its day, not
/// by its place, since an answer may hold more days than were asked for.
pub open spec fn record_for<'a, T: Dated>(series: Seq<T>, days: Seq<Seq<char>>) -> Option<&'a T> {
    if days.len() == 0 {
        None
    } else {
        match place_on(series, days[0]) {
            Some(at) => Some(&series[at]),
            None => None,
        }
    }
}

fn record_of<'a, T: Dated>(series: &'a [T], days: &[String]) -> (record: Option<&'a T>)
    ensures
        record == record_for(series@, day_texts(days@)),
{
    if days.len() == 0 {
        None
    } else {
        match find_on(series, days[0].as_str()) {
            Some(at) => Some(&series[at]),
            None => None,
        }
    }
}

/// The report of a command on the records that came back for its plan; a
/// command that passes an answer on has none.
pub open spec fn report_text(command: Command, days: Seq<Seq<char>>, fetched: Fetched) -> Option<
    Seq<char>,
> {
    match command {
        Command::Scores { .. } => Some(
            scores_text(
                record_for(fetched.daily_sleep@, days),
                record_for(fetched.daily_readiness@, days),
                record_for(fetched.daily_activity@, days),
            ),
        ),
        Command::Sleep { .. } => Some(
            sleep_text(record_for(fetched.daily_sleep@, days), fetched.sleep@),
        ),
        Command::Readiness { .. } => Some(
            readiness_text(record_for(fetched.daily_readiness@, days)),
        ),
        Command::Activity { .. } => Some(activity_text(record_for(fetched.daily_activity@, days))),
        Command::Hrv { .. } => Some(
            hrv_text(record_for(fetched.daily_sleep@, days), fetched.sleep@),
        ),
        Command::Stress { .. } => Some(stress_text(record_for(fetched.daily_stress@, days))),
        Command::Trend { .. } => Some(
            table_text(
                joined_rows(
                    days,
                    fetched.daily_sleep@,
                    fetched.daily_readiness@,
                    fetched.daily_activity@,
                ),
            ),
        ),
        Command::Json { .. } => None,
    }
}

/// The report of a command for the days of its plan, on the records that
/// came back. Missing records are no failure: the report says what is
/// missing.
pub fn report(command: &Command, days: &[String], fetched: &Fetched) -> (text: Option<String>)
    ensures
        match text {
            Some(t) => report_text(*command, day_texts(days@), *fetched) == Some(t@),
            None => report_text(*command, day_texts(days@), *fetched) is None,
        },
{
    match command {
        Command::Scores { .. } => Some(
            display_scores(
                record_of(fetched.daily_sleep.as_slice(), days),
                record_of(fetched.daily_readiness.as_slice(), days),
                record_of(fetched.daily_activity.as_slice(), days),
            ),
        ),
        Command::Sleep { .. } => Some(
            display_sleep(
                record_of(fetched.daily_sleep.as_slice(), days),
                fetched.sleep.as_slice(),
            ),
        ),
        Command::Readiness { .. } => Some(
            display_readiness(record_of(fetched.daily_readiness.as_slice(), days)),
        ),
        Command::Activity { .. } => Some(
            display_activity(record_of(fetched.daily_activity.as_slice(), days)),
        ),
        Command::Hrv { .. } => Some(
            display_hrv(record_of(fetched.daily_sleep.as_slice(), days), fetched.sleep.as_slice()),
        ),
        Command::Stress { .. } => Some(
            display_stress(record_of(fetched.daily_stress.as_slice(), days)),
        ),
        Command::Trend { .. } => Some(
            display_trend(
                days,
                fetched.daily_sleep.as_slice(),
                fetched.daily_readiness.as_slice(),
                fetched.daily_activity.as_slice(),
            ),
        ),
        Command::Json { .. } => None,
    }
}

} // verus!
