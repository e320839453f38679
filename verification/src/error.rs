//! What can go wrong between a command and its report.

use vstd::prelude::*;
use vstd::string::*;
use crate::text::{integer_text, push_integer};

verus! {

/// The ways in which a command can fail.
#[derive(Clone, Debug, PartialEq, Eq)]
pub enum OuraError {
    /// A date token is neither a known word nor an existing day written as
    /// `YYYY-MM-DD`.
    InvalidDate,
    /// The remote host could not be reached.
    TransportFailure { detail: String },
    /// The remote host answered with a status outside the success codes.
    UpstreamError { status: u16, body: String },
    /// The answer's body is not a document of the expected shape.
    DecodeFailure { detail: String },
    /// No access token was supplied.
    MissingCredential,
}

/// An `OuraError` with its texts as sequences of characters.
pub ghost enum OuraErrorView {
    InvalidDate,
    TransportFailure { detail: Seq<char> },
    UpstreamError { status: int, body: Seq<char> },
    DecodeFailure { detail: Seq<char> },
    MissingCredential,
}

impl View for OuraError {
    type V = OuraErrorView;

    open spec fn view(&self) -> OuraErrorView {
        match self {
            OuraError::InvalidDate => OuraErrorView::InvalidDate,
            OuraError::TransportFailure { detail } => OuraErrorView::TransportFailure {
                detail: detail@,
            },
            OuraError::UpstreamError { status, body } => OuraErrorView::UpstreamError {
                status: *status as int,
                body: body@,
            },
            OuraError::DecodeFailure { detail } => OuraErrorView::DecodeFailure { detail: detail@ },
            OuraError::MissingCredential => OuraErrorView::MissingCredential,
        }
    }
}

/// The text shown to the user for each failure.
pub open spec fn message_text(error: OuraErrorView) -> Seq<char> {
    match error {
        OuraErrorView::InvalidDate => "Invalid date format"@,
        OuraErrorView::TransportFailure { detail } => "Failed to reach Oura API: "@ + detail,
        OuraErrorView::UpstreamError { status, body } => "Oura API returned "@ + integer_text(
            status,
        ) + ": "@ + body,
        OuraErrorView::DecodeFailure { detail } => "Failed to parse API response: "@ + detail,
        OuraErrorView::MissingCredential =>
            "OURA_TOKEN not set. Get your token at https://cloud.ouraring.com/personal-access-tokens"@,
    }
}

impl OuraError {
    /// The text shown to the user; for an upstream error it holds the status
    /// and the body as received.
    pub fn message(&self) -> (text: String)
        ensures
            text@ == message_text(self@),
    {
        let mut out = String::new();
        match self {
            OuraError::InvalidDate => {
                out.append("Invalid date format");
            },
            OuraError::TransportFailure { detail } => {
                out.append("Failed to reach Oura API: ");
                out.append(detail.as_str());
            },
            OuraError::UpstreamError { status, body } => {
                out.append("Oura API returned ");
                push_integer(&mut out, *status as i128);
                out.append(": ");
                out.append(body.as_str());
            },
            OuraError::DecodeFailure { detail } => {
                out.append("Failed to parse API response: ");
                out.append(detail.as_str());
            },
            OuraError::MissingCredential => {
                out.append(
                    "OURA_TOKEN not set. Get your token at https://cloud.ouraring.com/personal-access-tokens",
                );
            },
        }
        assert(out@ =~= message_text(self@));
        out
    }
}

} // verus!
