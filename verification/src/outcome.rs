//! What a probe hands back, and how it is classified.

use crate::status::{canonical_reason, lookup_reason};
use crate::target::{Target, TargetView};
use vstd::prelude::*;
use vstd::string::*;

verus! {

/// One response header.
#[derive(Debug, Clone, PartialEq, Eq)]
pub struct Header {
    pub name: String,
    pub value: String,
}

/// A header as two sequences of characters.
pub struct HeaderView {
    pub name: Seq<char>,
    pub value: Seq<char>,
}

impl View for Header {
    type V = HeaderView;

    open spec fn view(&self) -> HeaderView {
        HeaderView { name: self.name@, value: self.value@ }
    }
}

impl DeepView for Header {
    type V = HeaderView;

    open spec fn deep_view(&self) -> HeaderView {
        self@
    }
}

/// A response as the client received it: the URL it reports, the status
/// code, the headers in wire order with duplicates kept, and the body read
/// to its end.
#[derive(Debug, Clone, PartialEq, Eq)]
pub struct Response {
    pub final_url: String,
    pub status_code: u16,
    pub headers: Vec<Header>,
    pub body: Vec<u8>,
}

/// A received response as mathematical values.
pub struct ResponseView {
    pub final_url: Seq<char>,
    pub status_code: u16,
    pub headers: Seq<HeaderView>,
    pub body: Seq<u8>,
}

impl View for Response {
    type V = ResponseView;

    open spec fn view(&self) -> ResponseView {
        ResponseView {
            final_url: self.final_url@,
            status_code: self.status_code,
            headers: self.headers.deep_view(),
            body: self.body@,
        }
    }
}

/// A response that arrived, whatever its status code, with the reason
/// phrase of that code.
#[derive(Debug, Clone, PartialEq, Eq)]
pub struct Success {
    pub final_url: String,
    pub status_code: u16,
    pub status_reason: String,
    pub headers: Vec<Header>,
    pub body: Vec<u8>,
}

/// A success as mathematical values.
pub struct SuccessView {
    pub final_url: Seq<char>,
    pub status_code: u16,
    pub status_reason: Seq<char>,
    pub headers: Seq<HeaderView>,
    pub body: Seq<u8>,
}

impl View for Success {
    type V = SuccessView;

    open spec fn view(&self) -> SuccessView {
        SuccessView {
            final_url: self.final_url@,
            status_code: self.status_code,
            status_reason: self.status_reason@,
            headers: self.headers.deep_view(),
            body: self.body@,
        }
    }
}

/// A probe that brought no response: a timeout, a failed connection, a body
/// that could not be read.
#[derive(Debug, Clone, PartialEq, Eq)]
pub struct Failure {
    pub target: Target,
    pub error_description: String,
}

/// A failure as mathematical values.
pub struct FailureView {
    pub target: TargetView,
    pub error_description: Seq<char>,
}

impl View for Failure {
    type V = FailureView;

    open spec fn view(&self) -> FailureView {
        FailureView { target: self.target@, error_description: self.error_description@ }
    }
}

/// The classified result of one probe.
#[derive(Debug, Clone, PartialEq, Eq)]
pub enum ProbeOutcome {
    Success(Success),
    Failure(Failure),
}

/// An outcome as mathematical values.
pub enum ProbeOutcomeView {
    Success(SuccessView),
    Failure(FailureView),
}

impl View for ProbeOutcome {
    type V = ProbeOutcomeView;

    open spec fn view(&self) -> ProbeOutcomeView {
        match self {
            ProbeOutcome::Success(success) => ProbeOutcomeView::Success(success@),
            ProbeOutcome::Failure(failure) => ProbeOutcomeView::Failure(failure@),
        }
    }
}

/// The reason phrase written for a status code: the listed one, or nothing
/// where none is listed.
pub open spec fn reason_or_empty(reason: Option<Seq<char>>) -> Seq<char> {
    match reason {
        Some(phrase) => phrase,
        None => Seq::empty(),
    }
}

/// The success made of a received response and the reason phrase looked up
/// for its status code.
pub open spec fn received_spec(response: ResponseView, reason: Option<Seq<char>>) -> SuccessView {
    SuccessView {
        final_url: response.final_url,
        status_code: response.status_code,
        status_reason: reason_or_empty(reason),
        headers: response.headers,
        body: response.body,
    }
}

/// The outcome of a probe of `target`: a success for every response that
/// arrived, a failure that keeps the client's description otherwise.
pub open spec fn classify_spec(
    target: TargetView,
    reply: Result<ResponseView, Seq<char>>,
) -> ProbeOutcomeView {
    match reply {
        Ok(response) => ProbeOutcomeView::Success(
            received_spec(response, canonical_reason(response.status_code)),
        ),
        Err(description) => ProbeOutcomeView::Failure(
            FailureView { target, error_description: description },
        ),
    }
}

/// The view of what a client hands back.
pub open spec fn reply_view(reply: Result<Response, String>) -> Result<ResponseView, Seq<char>> {
    match reply {
        Ok(response) => Ok(response@),
        Err(description) => Err(description@),
    }
}

/// Turns a received response and the reason phrase found for its status
/// code into a success. A code without a phrase gets the empty phrase.
pub fn received(response: Response, reason: Option<String>) -> (success: Success)
    ensures
        success@ == received_spec(response@, reason.deep_view()),
{
    let status_reason = match reason {
        Some(phrase) => phrase,
        None => String::new(),
    };
    Success {
        final_url: response.final_url,
        status_code: response.status_code,
        status_reason,
        headers: response.headers,
        body: response.body,
    }
}

/// Classifies what the client handed back for `target`. Every response that
/// arrived is a success, 4xx and 5xx included; an error of the client is a
/// failure of this target alone.
pub fn classify(target: Target, reply: Result<Response, String>) -> (outcome: ProbeOutcome)
    ensures
        outcome@ == classify_spec(target@, reply_view(reply)),
        outcome is Success <==> reply is Ok,
{
    match reply {
        Ok(response) => {
            let reason = lookup_reason(response.status_code);
            ProbeOutcome::Success(received(response, reason))
        },
        Err(description) => ProbeOutcome::Failure(
            Failure { target, error_description: description },
        ),
    }
}

} // verus!
