//! What became of one run of the external command, and the line that tells
//! the operator about a failure.

use vstd::prelude::*;
use vstd::string::StringExecFns;

verus! {

/// The result of applying the setting after one event.
#[derive(Clone, Debug, PartialEq, Eq)]
pub enum CommandOutcome {
    /// No edge was crossed, so no command was run.
    NotInvoked,
    /// The command ran and exited with code 0.
    Succeeded,
    /// The command ran and ended otherwise: with a non-zero code, or with
    /// no code at all where a signal ended it.
    Failed(Option<i32>),
    /// The command could not be launched or waited for; the text says why.
    Unavailable(String),
}

/// What a [`CommandOutcome`] is in specifications.
pub enum OutcomeView {
    NotInvoked,
    Succeeded,
    Failed(Option<i32>),
    Unavailable(Seq<char>),
}

impl View for CommandOutcome {
    type V = OutcomeView;

    open spec fn view(&self) -> OutcomeView {
        match self {
            CommandOutcome::NotInvoked => OutcomeView::NotInvoked,
            CommandOutcome::Succeeded => OutcomeView::Succeeded,
            CommandOutcome::Failed(code) => OutcomeView::Failed(*code),
            CommandOutcome::Unavailable(reason) => OutcomeView::Unavailable(reason@),
        }
    }
}

/// The outcome that stands for a run: `None` where nothing was run,
/// `Ok` with the exit code where the command was waited for, `Err` with
/// the reason where launching or waiting failed.
pub open spec fn spec_outcome(run: Option<Result<Option<i32>, Seq<char>>>) -> OutcomeView {
    match run {
        None => OutcomeView::NotInvoked,
        Some(Ok(Some(code))) => if code == 0 {
            OutcomeView::Succeeded
        } else {
            OutcomeView::Failed(Some(code))
        },
        Some(Ok(None)) => OutcomeView::Failed(None),
        Some(Err(reason)) => OutcomeView::Unavailable(reason),
    }
}

/// The view of what a run handed back.
pub open spec fn run_view(run: Option<Result<Option<i32>, String>>) -> Option<
    Result<Option<i32>, Seq<char>>,
> {
    match run {
        None => None,
        Some(Ok(code)) => Some(Ok(code)),
        Some(Err(reason)) => Some(Err(reason@)),
    }
}

/// The text that `{:?}` gives for an exit code.
pub uninterp spec fn exit_code_debug(code: Option<i32>) -> Seq<char>;

/// The line that tells the operator about an outcome, where there is
/// anything to tell: nothing for a command that was not run or succeeded.
pub open spec fn spec_diagnostic(outcome: OutcomeView) -> Option<Seq<char>> {
    match outcome {
        OutcomeView::NotInvoked => None,
        OutcomeView::Succeeded => None,
        OutcomeView::Failed(code) => Some("non-success exit: "@ + exit_code_debug(code)),
        OutcomeView::Unavailable(reason) => Some("error with dconf: "@ + reason),
    }
}

/// Renders an exit code with `format!("{:?}", ..)`, that is with the
/// `Debug` impl that std gives `Option<i32>`. The text depends on the code
/// alone; nothing more is claimed of it.
#[verifier::external_body]
fn exit_code_text(code: Option<i32>) -> (text: String)
    ensures
        text@ == exit_code_debug(code),
{
    format!("{:?}", code)
}

/// The line for a command that ended without success, given its exit code
/// as text.
pub fn failure_line(code_text: &str) -> (line: String)
    ensures
        line@ == "non-success exit: "@ + code_text@,
{
    String::from_str("non-success exit: ").concat(code_text)
}

/// The line for a command that could not be launched or waited for.
pub fn unavailable_line(reason: &str) -> (line: String)
    ensures
        line@ == "error with dconf: "@ + reason@,
{
    String::from_str("error with dconf: ").concat(reason)
}

impl CommandOutcome {
    /// Classifies what a run handed back. Exit code 0 is the only success.
    pub fn from_run(run: Option<Result<Option<i32>, String>>) -> (outcome: CommandOutcome)
        ensures
            outcome@ == spec_outcome(run_view(run)),
    {
        match run {
            None => CommandOutcome::NotInvoked,
            Some(Ok(Some(code))) => {
                if code == 0 {
                    CommandOutcome::Succeeded
                } else {
                    CommandOutcome::Failed(Some(code))
                }
            },
            Some(Ok(None)) => CommandOutcome::Failed(None),
            Some(Err(reason)) => CommandOutcome::Unavailable(reason),
        }
    }

    /// Whether the operator has to be told about this outcome.
    pub fn is_failure(&self) -> (failed: bool)
        ensures
            failed == (self@ is Failed || self@ is Unavailable),
    {
        match self {
            CommandOutcome::NotInvoked => false,
            CommandOutcome::Succeeded => false,
            CommandOutcome::Failed(_) => true,
            CommandOutcome::Unavailable(_) => true,
        }
    }

    /// The line to print for this outcome, if it is a failure.
    pub fn diagnostic(&self) -> (line: Option<String>)
        ensures
            match spec_diagnostic(self@) {
                Some(text) => line is Some && line->0@ == text,
                None => line is None,
            },
    {
        match self {
            CommandOutcome::NotInvoked => None,
            CommandOutcome::Succeeded => None,
            CommandOutcome::Failed(code) => {
                let text = exit_code_text(*code);
                Some(failure_line(text.as_str()))
            },
            CommandOutcome::Unavailable(reason) => Some(unavailable_line(reason.as_str())),
        }
    }
}

} // verus!
