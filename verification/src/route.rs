//! What becomes of a completed probe: a success goes to the writer, a
//! failure to the operator.

use crate::outcome::{Failure, FailureView, ProbeOutcome, ProbeOutcomeView};
use crate::target::{Target, TargetView};
use crate::transcript::{
    has_place, locate_spec, plan, plan_spec, transcript_spec, LocationError, TranscriptFile,
    TranscriptFileView,
};
use vstd::prelude::*;
use vstd::string::*;

verus! {

/// What the caller does with a completed probe.
#[derive(Debug, Clone, PartialEq, Eq)]
pub enum Action {
    /// Store the transcript.
    Write(TranscriptFile),
    /// Show the line to the operator; nothing is stored.
    Report(String),
}

/// An action as mathematical values.
pub enum ActionView {
    Write(TranscriptFileView),
    Report(Seq<char>),
}

impl View for Action {
    type V = ActionView;

    open spec fn view(&self) -> ActionView {
        match self {
            Action::Write(file) => ActionView::Write(file@),
            Action::Report(line) => ActionView::Report(line@),
        }
    }
}

/// What every diagnostic line starts with.
pub const DIAGNOSTIC_PREFIX: &'static str = "Got an error: ";

/// The diagnostic line of a failure: the prefix, the URL that was requested,
/// `: ` and the description of the error.
pub open spec fn diagnostic_spec(failure: FailureView) -> Seq<char> {
    DIAGNOSTIC_PREFIX@ + failure.target.full_url() + seq![':', ' '] + failure.error_description
}

/// Writes the diagnostic line of a failure.
pub fn diagnostic(failure: &Failure) -> (line: String)
    ensures
        line@ == diagnostic_spec(failure@),
{
    let mut line = DIAGNOSTIC_PREFIX.to_owned();
    line.append(failure.target.full_url().as_str());
    line.append(": ");
    line.append(failure.error_description.as_str());
    proof {
        reveal_strlit(": ");
        assert(line@ =~= diagnostic_spec(failure@));
    }
    line
}

/// The action for the outcome of the probe of `target`: a failure is
/// reported and never written; a success is written to the place that the
/// requested URL gives, if it gives one.
pub open spec fn settle_spec(root: Seq<char>, target: TargetView, outcome: ProbeOutcomeView) -> Result<
    ActionView,
    LocationError,
> {
    match outcome {
        ProbeOutcomeView::Failure(failure) => Ok(ActionView::Report(diagnostic_spec(failure))),
        ProbeOutcomeView::Success(success) => match plan_spec(root, target.full_url(), success) {
            Ok(file) => Ok(ActionView::Write(file)),
            Err(error) => Err(error),
        },
    }
}

/// The view of the result of `settle`.
pub open spec fn settled_view(settled: Result<Action, LocationError>) -> Result<
    ActionView,
    LocationError,
> {
    match settled {
        Ok(action) => Ok(action@),
        Err(error) => Err(error),
    }
}

/// Decides what to do with the outcome of the probe of `target`. The error
/// says that a success cannot be stored because its URL gives no place.
pub fn settle(output_root: &str, target: &Target, outcome: &ProbeOutcome) -> (settled: Result<
    Action,
    LocationError,
>)
    ensures
        settled_view(settled) == settle_spec(output_root@, target@, outcome@),
        outcome is Failure ==> settled matches Ok(Action::Report(_)),
        settled matches Ok(Action::Write(_)) ==> outcome is Success,
{
    match outcome {
        ProbeOutcome::Failure(failure) => Ok(Action::Report(diagnostic(failure))),
        ProbeOutcome::Success(success) => {
            let url = target.full_url();
            match plan(output_root, url.as_str(), success) {
                Ok(file) => Ok(Action::Write(file)),
                Err(error) => Err(error),
            }
        },
    }
}

/// A success is written: wherever the requested URL gives a place, the
/// outcome of a response is stored at that place, and what is stored is its
/// transcript.
pub proof fn lemma_success_is_written(root: Seq<char>, target: TargetView, outcome: ProbeOutcomeView)
    requires
        outcome is Success,
        has_place(target.full_url()),
    ensures
        settle_spec(root, target, outcome) == Ok::<ActionView, LocationError>(
            ActionView::Write(
                TranscriptFileView {
                    location: locate_spec(root, target.full_url())->Ok_0,
                    contents: transcript_spec(target.full_url(), outcome->Success_0),
                },
            ),
        ),
{
}

/// A failure is never written and stops nothing: its outcome is always a
/// diagnostic line, never a file and never an error.
pub proof fn lemma_failure_is_reported(root: Seq<char>, target: TargetView, outcome: ProbeOutcomeView)
    requires
        outcome is Failure,
    ensures
        settle_spec(root, target, outcome) == Ok::<ActionView, LocationError>(
            ActionView::Report(diagnostic_spec(outcome->Failure_0)),
        ),
{
}

/// Naming is idempotent: two targets that spell the same URL, split into
/// base and path in whatever way and probed in whatever batch, have their
/// successes stored at the same place.
pub proof fn lemma_same_url_same_place(
    root: Seq<char>,
    first: TargetView,
    second: TargetView,
    first_outcome: ProbeOutcomeView,
    second_outcome: ProbeOutcomeView,
)
    requires
        first.full_url() == second.full_url(),
        first_outcome is Success,
        second_outcome is Success,
    ensures
        settle_spec(root, first, first_outcome) is Ok <==> settle_spec(
            root,
            second,
            second_outcome,
        ) is Ok,
        settle_spec(root, first, first_outcome) matches Ok(ActionView::Write(a)) ==> settle_spec(
            root,
            second,
            second_outcome,
        ) matches Ok(ActionView::Write(b)) && a.location == b.location,
{
}

} // verus!
