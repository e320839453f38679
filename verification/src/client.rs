//! Planning the requests to the remote collections, and judging what came
//! back. Sending a request and reading the answer is left to the caller.

use vstd::prelude::*;
use vstd::string::*;
use crate::calendar::{lemma_next, CalendarDate};
use crate::dates::{lemma_written_date_reads_back, parse_date, parsed_date};
use crate::error::{OuraError, OuraErrorView};

verus! {

/// One request for a collection: a `GET` of `url` with the query parameters
/// `start_date` and `end_date`, authorised by `token` as a bearer credential.
#[derive(Clone, Debug, PartialEq, Eq)]
pub struct Request {
    pub url: String,
    pub token: String,
    pub start_date: String,
    pub end_date: String,
}

/// A `Request` with its texts as sequences of characters.
pub ghost struct RequestView {
    pub url: Seq<char>,
    pub token: Seq<char>,
    pub start_date: Seq<char>,
    pub end_date: Seq<char>,
}

impl View for Request {
    type V = RequestView;

    open spec fn view(&self) -> RequestView {
        RequestView {
            url: self.url@,
            token: self.token@,
            start_date: self.start_date@,
            end_date: self.end_date@,
        }
    }
}

/// The collections of the remote system that the reports draw on.
#[derive(Clone, Copy, Debug, PartialEq, Eq, Structural)]
pub enum Family {
    DailySleep,
    DailyReadiness,
    DailyActivity,
    Sleep,
    DailyStress,
}

/// The name of a collection in its address.
pub open spec fn family_endpoint(family: Family) -> Seq<char> {
    match family {
        Family::DailySleep => "daily_sleep"@,
        Family::DailyReadiness => "daily_readiness"@,
        Family::DailyActivity => "daily_activity"@,
        Family::Sleep => "sleep"@,
        Family::DailyStress => "daily_stress"@,
    }
}

impl Family {
    /// The name of the collection in its address.
    pub fn endpoint(&self) -> (name: &'static str)
        ensures
            name@ == family_endpoint(*self),
    {
        match self {
            Family::DailySleep => "daily_sleep",
            Family::DailyReadiness => "daily_readiness",
            Family::DailyActivity => "daily_activity",
            Family::Sleep => "sleep",
            Family::DailyStress => "daily_stress",
        }
    }
}

/// The address of a collection.
pub open spec fn collection_url(endpoint: Seq<char>) -> Seq<char> {
    "https://api.ouraring.com/v2/usercollection/"@ + endpoint
}

/// The end date that a request submits for a range that ends on `end`: the
/// day after, so that the answer holds the last day whether the remote side
/// counts the end date in or not. `None` where `end` names no day.
pub open spec fn submitted_end(end: Seq<char>) -> Option<Seq<char>> {
    match parsed_date(end) {
        Some(date) => Some(date.next().iso_text()),
        None => None,
    }
}

/// The request for the records of a collection from `start` to `end`, both
/// included. `None` where `end` names no day.
pub open spec fn planned_request(
    token: Seq<char>,
    endpoint: Seq<char>,
    start: Seq<char>,
    end: Seq<char>,
) -> Option<RequestView> {
    match submitted_end(end) {
        Some(after) => Some(
            RequestView { url: collection_url(endpoint), token, start_date: start, end_date: after },
        ),
        None => None,
    }
}

/// The end date submitted for a range that ends on a day before the last of
/// the year 9999 is itself a date written as `YYYY-MM-DD`: the day after.
pub proof fn lemma_submitted_end_is_the_day_after(end: Seq<char>, date: CalendarDate)
    requires
        parsed_date(end) == Some(date),
        !(date.year == 9999 && date.month == 12 && date.day == 31),
    ensures
        submitted_end(end) matches Some(text) && parsed_date(text) == Some(date.next()),
        date.next().day_number() == date.day_number() + 1,
{
    lemma_next(date);
    lemma_written_date_reads_back(date.next());
}

/// The end date submitted does not depend on the collection asked.
pub proof fn lemma_end_date_whatever_the_family(
    token: Seq<char>,
    first: Seq<char>,
    second: Seq<char>,
    start: Seq<char>,
    end: Seq<char>,
)
    ensures
        match (
            planned_request(token, first, start, end),
            planned_request(token, second, start, end),
        ) {
            (Some(a), Some(b)) => a.end_date == b.end_date && a.start_date == b.start_date
                && submitted_end(end) == Some(a.end_date),
            (None, None) => parsed_date(end) is None,
            _ => false,
        },
{
}

/// The day after `date`, written as `YYYY-MM-DD`.
pub fn next_day(date: &str) -> (after: Result<String, OuraError>)
    ensures
        match after {
            Ok(text) => submitted_end(date@) == Some(text@),
            Err(e) => submitted_end(date@) is None && e@ == OuraErrorView::InvalidDate,
        },
{
    match parse_date(date) {
        Ok(day) => match day.succ() {
            Some(next) => Ok(next.to_iso()),
            None => Err(OuraError::InvalidDate),
        },
        Err(e) => Err(e),
    }
}

/// A copy of a text.
fn copy_of(text: &str) -> (copy: String)
    ensures
        copy@ == text@,
{
    let mut copy = String::new();
    copy.append(text);
    assert(copy@ =~= text@);
    copy
}

/// What came back for a request.
#[derive(Clone, Debug, PartialEq, Eq)]
pub enum Reply {
    /// The remote host could not be reached.
    Unreachable { detail: String },
    /// The remote host answered.
    Answer { status: u16, body: String },
}

/// Whether a status is one of the success codes, 200 to 299.
pub open spec fn is_success(status: int) -> bool {
    200 <= status < 300
}

/// The body of a reply, where the remote host was reached and answered with
/// a success code; the failure to report otherwise, with status and body as
/// received.
pub fn read_reply(reply: Reply) -> (body: Result<String, OuraError>)
    ensures
        match reply {
            Reply::Unreachable { detail } => body matches Err(e) && e@
                == (OuraErrorView::TransportFailure { detail: detail@ }),
            Reply::Answer { status, body: received } => if is_success(status as int) {
                body == Ok::<String, OuraError>(received)
            } else {
                body matches Err(e) && e@ == (OuraErrorView::UpstreamError {
                    status: status as int,
                    body: received@,
                })
            },
        },
{
    match reply {
        Reply::Unreachable { detail } => Err(OuraError::TransportFailure { detail }),
        Reply::Answer { status, body } => {
            if 200 <= status && status < 300 {
                Ok(body)
            } else {
                Err(OuraError::UpstreamError { status, body })
            }
        },
    }
}

/// The holder of the access token, which plans the requests.
#[derive(Clone, Debug, PartialEq, Eq)]
pub struct OuraClient {
    pub token: String,
}

impl OuraClient {
    /// A client for the given access token; without a token there is none.
    pub fn new(token: Option<String>) -> (client: Result<OuraClient, OuraError>)
        ensures
            match token {
                Some(t) => client matches Ok(c) && c.token == t,
                None => client matches Err(e) && e@ == OuraErrorView::MissingCredential,
            },
    {
        match token {
            Some(token) => Ok(OuraClient { token }),
            None => Err(OuraError::MissingCredential),
        }
    }

    /// What a planned request is, as a contract states it.
    pub open spec fn plans(
        self,
        request: Result<Request, OuraError>,
        endpoint: Seq<char>,
        start: Seq<char>,
        end: Seq<char>,
    ) -> bool {
        match request {
            Ok(r) => planned_request(self.token@, endpoint, start, end) == Some(r@),
            Err(e) => planned_request(self.token@, endpoint, start, end) is None && e@
                == OuraErrorView::InvalidDate,
        }
    }

    /// The request for the records of one day.
    pub fn fetch(&self, endpoint: &str, date: &str) -> (request: Result<Request, OuraError>)
        ensures
            self.plans(request, endpoint@, date@, date@),
    {
        self.fetch_range(endpoint, date, date)
    }

    /// The request for the records from `start` to `end`, both included. The
    /// end date submitted is the day after `end`.
    pub fn fetch_range(&self, endpoint: &str, start: &str, end: &str) -> (request: Result<
        Request,
        OuraError,
    >)
        ensures
            self.plans(request, endpoint@, start@, end@),
    {
        match next_day(end) {
            Ok(end_date) => {
                let mut url = String::new();
                url.append("https://api.ouraring.com/v2/usercollection/");
                url.append(endpoint);
                assert(url@ =~= collection_url(endpoint@));
                Ok(
                    Request {
                        url,
                        token: self.token.clone(),
                        start_date: copy_of(start),
                        end_date,
                    },
                )
            },
            Err(e) => Err(e),
        }
    }

    /// The request for the sleep summary of a day.
    pub fn daily_sleep(&self, date: &str) -> (request: Result<Request, OuraError>)
        ensures
            self.plans(request, "daily_sleep"@, date@, date@),
    {
        self.fetch("daily_sleep", date)
    }

    /// The request for the readiness summary of a day.
    pub fn daily_readiness(&self, date: &str) -> (request: Result<Request, OuraError>)
        ensures
            self.plans(request, "daily_readiness"@, date@, date@),
    {
        self.fetch("daily_readiness", date)
    }

    /// The request for the activity summary of a day.
    pub fn daily_activity(&self, date: &str) -> (request: Result<Request, OuraError>)
        ensures
            self.plans(request, "daily_activity"@, date@, date@),
    {
        self.fetch("daily_activity", date)
    }

    /// The request for the periods of sleep of a day.
    pub fn sleep(&self, date: &str) -> (request: Result<Request, OuraError>)
        ensures
            self.plans(request, "sleep"@, date@, date@),
    {
        self.fetch("sleep", date)
    }

    /// The request for the stress summary of a day.
    pub fn daily_stress(&self, date: &str) -> (request: Result<Request, OuraError>)
        ensures
            self.plans(request, "daily_stress"@, date@, date@),
    {
        self.fetch("daily_stress", date)
    }

    /// The request for the sleep summaries of a range of days.
    pub fn daily_sleep_range(&self, start: &str, end: &str) -> (request: Result<
        Request,
        OuraError,
    >)
        ensures
            self.plans(request, "daily_sleep"@, start@, end@),
    {
        self.fetch_range("daily_sleep", start, end)
    }

    /// The request for the readiness summaries of a range of days.
    pub fn daily_readiness_range(&self, start: &str, end: &str) -> (request: Result<
        Request,
        OuraError,
    >)
        ensures
            self.plans(request, "daily_readiness"@, start@, end@),
    {
        self.fetch_range("daily_readiness", start, end)
    }

    /// The request for the activity summaries of a range of days.
    pub fn daily_activity_range(&self, start: &str, end: &str) -> (request: Result<
        Request,
        OuraError,
    >)
        ensures
            self.plans(request, "daily_activity"@, start@, end@),
    {
        self.fetch_range("daily_activity", start, end)
    }

    /// The request for the records of one day of any collection, whose
    /// answer is passed on as it is.
    pub fn raw(&self, endpoint: &str, date: &str) -> (request: Result<Request, OuraError>)
        ensures
            self.plans(request, endpoint@, date@, date@),
    {
        self.fetch(endpoint, date)
    }
}

} // verus!
