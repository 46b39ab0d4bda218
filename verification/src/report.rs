use vstd::prelude::*;
use vstd::string::StringExecFns;

use crate::error::{ErrorModel, PipelineError};

verus! {

/// A phase of the run whose wall-clock duration is reported.
#[derive(Clone, Copy, Debug, PartialEq, Eq, Structural)]
pub enum Phase {
    Compile,
    Run,
}

/// How a run ended, as it is handed to the process boundary.
#[derive(Clone, Debug, PartialEq, Eq)]
pub enum RunOutcome {
    Success,
    /// The run failed; the text is the diagnostic message.
    Failure(String),
}

/// What a [`RunOutcome`] holds, as mathematical values.
pub enum OutcomeModel {
    Success,
    Failure(Seq<char>),
}

impl View for RunOutcome {
    type V = OutcomeModel;

    open spec fn view(&self) -> OutcomeModel {
        match self {
            RunOutcome::Success => OutcomeModel::Success,
            RunOutcome::Failure(message) => OutcomeModel::Failure(message@),
        }
    }
}

/// The text that `std` gives for a duration of `nanos` nanoseconds when it
/// is formatted for debugging.
pub uninterp spec fn duration_text(nanos: u64) -> Seq<char>;

/// The text that `std` gives for the string `message` when it is formatted
/// for debugging: the string between quotation marks, with escapes.
pub uninterp spec fn quoted_text(message: Seq<char>) -> Seq<char>;

/// Calls the `Debug` formatting of `std::time::Duration` on the duration of
/// `nanos` nanoseconds. Nothing is proved of the text: the contract only
/// gives it its name.
#[verifier::external_body]
fn render_duration(nanos: u64) -> (text: String)
    ensures
        text@ == duration_text(nanos),
{
    format!("{:?}", std::time::Duration::from_nanos(nanos))
}

/// Calls the `Debug` formatting of `str` on `message`. Nothing is proved of
/// the text: the contract only gives it its name.
#[verifier::external_body]
fn render_quoted(message: &str) -> (text: String)
    ensures
        text@ == quoted_text(message@),
{
    format!("{:?}", message)
}

/// The words before the duration in the line that reports `phase`.
pub open spec fn phase_label(phase: Phase) -> Seq<char> {
    match phase {
        Phase::Compile => "compile time: "@,
        Phase::Run => "run time: "@,
    }
}

/// The informational line that reports that `phase` took `nanos` nanoseconds.
pub open spec fn timing_text(phase: Phase, nanos: u64) -> Seq<char> {
    phase_label(phase) + duration_text(nanos)
}

/// The outcome of a run that ended with `result`.
pub open spec fn outcome_of(result: Result<(), ErrorModel>) -> OutcomeModel {
    match result {
        Ok(_) => OutcomeModel::Success,
        Err(error) => OutcomeModel::Failure(error.diagnostic()),
    }
}

/// The exit status of the process for `outcome`.
pub open spec fn status_of(outcome: OutcomeModel) -> int {
    match outcome {
        OutcomeModel::Success => 0,
        OutcomeModel::Failure(_) => 1,
    }
}

/// The lines that go to the diagnostic channel for `outcome`, as they are
/// written there.
pub open spec fn diagnostics_of(outcome: OutcomeModel) -> Seq<Seq<char>> {
    match outcome {
        OutcomeModel::Success => seq![],
        OutcomeModel::Failure(message) => seq![quoted_text(message)],
    }
}

/// A run's result with its error taken as mathematical values.
pub open spec fn result_model(result: Result<(), PipelineError>) -> Result<(), ErrorModel> {
    match result {
        Ok(_) => Ok(()),
        Err(error) => Err(error@),
    }
}

/// Puts the label of `phase` before a duration that is rendered already.
pub fn label_duration(phase: Phase, rendered: &str) -> (line: String)
    ensures
        line@ == phase_label(phase) + rendered@,
{
    match phase {
        Phase::Compile => String::from_str("compile time: ").concat(rendered),
        Phase::Run => String::from_str("run time: ").concat(rendered),
    }
}

/// The informational line that reports the duration of `phase`.
pub fn timing_line(phase: Phase, nanos: u64) -> (line: String)
    ensures
        line@ == timing_text(phase, nanos),
{
    let rendered = render_duration(nanos);
    label_duration(phase, rendered.as_str())
}

/// Turns the result of a run into its outcome: the first error, if there is
/// one, becomes the diagnostic message.
pub fn conclude(result: Result<(), PipelineError>) -> (outcome: RunOutcome)
    ensures
        outcome@ == outcome_of(result_model(result)),
{
    match result {
        Ok(_) => RunOutcome::Success,
        Err(error) => RunOutcome::Failure(error.diagnostic()),
    }
}

impl RunOutcome {
    /// The exit status to leave the process with: 0 after a success, 1 after
    /// any failure.
    pub fn exit_status(&self) -> (status: i32)
        ensures
            status == status_of(self@),
    {
        match self {
            RunOutcome::Success => 0,
            RunOutcome::Failure(_) => 1,
        }
    }

    /// The lines to write to the diagnostic channel: none after a success,
    /// exactly one after a failure.
    pub fn diagnostics(&self) -> (lines: Vec<String>)
        ensures
            lines.deep_view() == diagnostics_of(self@),
    {
        let mut lines: Vec<String> = Vec::new();
        match self {
            RunOutcome::Success => {
                assert(lines.deep_view() =~= diagnostics_of(self@));
            },
            RunOutcome::Failure(message) => {
                lines.push(render_quoted(message.as_str()));
                assert(lines.deep_view() =~= diagnostics_of(self@));
            },
        }
        lines
    }
}

/// A run writes one diagnostic line if it failed and none if it succeeded,
/// and its exit status is 0 exactly if it succeeded.
pub proof fn one_diagnostic_per_failure(result: Result<(), ErrorModel>)
    ensures
        result is Ok ==> diagnostics_of(outcome_of(result)).len() == 0 && status_of(
            outcome_of(result),
        ) == 0,
        result is Err ==> diagnostics_of(outcome_of(result)).len() == 1 && status_of(
            outcome_of(result),
        ) != 0,
{
}

} // verus!
