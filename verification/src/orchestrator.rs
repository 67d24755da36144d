//! The orchestration state machine. It sequences the external steps —
//! tool check, repository check, diff retrieval, message generation, the
//! review loop, and the commit — and maps every failure into a
//! process-level outcome. The unverified driver performs the step that the
//! current state calls for and feeds the result back as an event.

use vstd::prelude::*;
use crate::errors::{ErrorKind, ErrorModel};
use crate::prompt::{build_prompt, prompt_of};
use crate::review::{
    review_step, review_step_of, ReviewEvent, ReviewEventModel, ReviewModel, ReviewState,
};

verus! {

/// The terminal result of a run.
#[derive(Debug, PartialEq, Eq, Clone)]
pub enum RunOutcome {
    /// The commit was created; `output` is the commit command's standard
    /// output, to be displayed verbatim.
    Committed { output: String },
    /// There were no staged changes; the run ends without an error.
    EmptyDiff,
    /// The operator discarded the generated message; no commit happened.
    Discarded,
    /// The run failed; `error` says how.
    Failed { error: ErrorKind },
}

/// The mathematical model of a [`RunOutcome`].
pub enum OutcomeModel {
    Committed { output: Seq<char> },
    EmptyDiff,
    Discarded,
    Failed { error: ErrorModel },
}

impl View for RunOutcome {
    type V = OutcomeModel;

    open spec fn view(&self) -> OutcomeModel {
        match self {
            RunOutcome::Committed { output } => OutcomeModel::Committed { output: output@ },
            RunOutcome::EmptyDiff => OutcomeModel::EmptyDiff,
            RunOutcome::Discarded => OutcomeModel::Discarded,
            RunOutcome::Failed { error } => OutcomeModel::Failed { error: error@ },
        }
    }
}

/// The process exit status an outcome maps to: zero for a successful
/// commit, an empty staged diff, or a discard; one for every failure.
pub open spec fn exit_code_of(o: OutcomeModel) -> int {
    match o {
        OutcomeModel::Failed { .. } => 1,
        _ => 0,
    }
}

/// Maps an outcome to the process exit status.
pub fn exit_code(o: &RunOutcome) -> (c: i32)
    ensures
        c == exit_code_of(o@),
{
    match o {
        RunOutcome::Failed { .. } => 1,
        _ => 0,
    }
}

/// The result of the staged-diff query, as the driver observed it.
#[derive(Debug, PartialEq, Eq, Clone)]
pub enum DiffResult {
    /// The query ran and its standard output decoded to this text. An
    /// empty text is a legitimate value, not an error.
    Text { text: String },
    /// The query process could not be spawned.
    SpawnFailure,
    /// The query's output was not valid text.
    DecodeFailure,
}

/// The result of the commit invocation, as the driver observed it.
#[derive(Debug, PartialEq, Eq, Clone)]
pub enum CommitResult {
    /// The commit command ran; `success` is its exit status and `output`
    /// its decoded standard output.
    Completed { success: bool, output: String },
    /// The commit process could not be spawned.
    SpawnFailure,
    /// The commit command's output was not valid text.
    DecodeFailure,
}

/// What the driver reports back to the orchestrator after performing the
/// step the current state called for.
#[derive(Debug, PartialEq, Eq, Clone)]
pub enum OrchEvent {
    /// Whether the version-control executable resolved on the path.
    ToolChecked { present: bool },
    /// Whether the status query succeeded, i.e. a repository is present.
    RepoChecked { present: bool },
    /// The outcome of the staged-diff query.
    DiffFetched { result: DiffResult },
    /// The generation service's reply: the generated text, or `None` if
    /// the call failed or returned no usable content.
    Generated { result: Option<String> },
    /// An event for the embedded review loop.
    Review { event: ReviewEvent },
    /// The outcome of the commit invocation.
    CommitFinished { result: CommitResult },
}

/// A state of the orchestrator. Each non-terminal state names the one
/// external step the driver must perform next.
#[derive(Debug, PartialEq, Eq, Clone)]
pub enum OrchState {
    /// Verify the version-control executable is available.
    CheckingTool,
    /// Verify the working directory is inside a repository.
    CheckingRepository,
    /// Retrieve the staged diff.
    FetchingDiff,
    /// Send this prompt to the generation service.
    Generating { prompt: String },
    /// Run the review loop over the generated message.
    Reviewing { review: ReviewState },
    /// Invoke the commit with this final message.
    Committing { message: String },
    /// The run is over; terminal and absorbing.
    Done { outcome: RunOutcome },
}

/// The mathematical model of a [`DiffResult`].
pub enum DiffResultModel {
    Text { text: Seq<char> },
    SpawnFailure,
    DecodeFailure,
}

/// The mathematical model of a [`CommitResult`].
pub enum CommitResultModel {
    Completed { success: bool, output: Seq<char> },
    SpawnFailure,
    DecodeFailure,
}

/// The mathematical model of an [`OrchEvent`].
pub enum EventModel {
    ToolChecked { present: bool },
    RepoChecked { present: bool },
    DiffFetched { result: DiffResultModel },
    Generated { result: Option<Seq<char>> },
    Review { event: ReviewEventModel },
    CommitFinished { result: CommitResultModel },
}

/// The mathematical model of an [`OrchState`].
pub enum StateModel {
    CheckingTool,
    CheckingRepository,
    FetchingDiff,
    Generating { prompt: Seq<char> },
    Reviewing { review: ReviewModel },
    Committing { message: Seq<char> },
    Done { outcome: OutcomeModel },
}

impl View for DiffResult {
    type V = DiffResultModel;

    open spec fn view(&self) -> DiffResultModel {
        match self {
            DiffResult::Text { text } => DiffResultModel::Text { text: text@ },
            DiffResult::SpawnFailure => DiffResultModel::SpawnFailure,
            DiffResult::DecodeFailure => DiffResultModel::DecodeFailure,
        }
    }
}

impl View for CommitResult {
    type V = CommitResultModel;

    open spec fn view(&self) -> CommitResultModel {
        match self {
            CommitResult::Completed { success, output } => CommitResultModel::Completed {
                success: *success,
                output: output@,
            },
            CommitResult::SpawnFailure => CommitResultModel::SpawnFailure,
            CommitResult::DecodeFailure => CommitResultModel::DecodeFailure,
        }
    }
}

impl View for OrchEvent {
    type V = EventModel;

    open spec fn view(&self) -> EventModel {
        match self {
            OrchEvent::ToolChecked { present } => EventModel::ToolChecked { present: *present },
            OrchEvent::RepoChecked { present } => EventModel::RepoChecked { present: *present },
            OrchEvent::DiffFetched { result } => EventModel::DiffFetched { result: result@ },
            OrchEvent::Generated { result } => EventModel::Generated {
                result: match result {
                    Some(text) => Some(text@),
                    None => None,
                },
            },
            OrchEvent::Review { event } => EventModel::Review { event: event@ },
            OrchEvent::CommitFinished { result } => EventModel::CommitFinished { result: result@ },
        }
    }
}

impl View for OrchState {
    type V = StateModel;

    open spec fn view(&self) -> StateModel {
        match self {
            OrchState::CheckingTool => StateModel::CheckingTool,
            OrchState::CheckingRepository => StateModel::CheckingRepository,
            OrchState::FetchingDiff => StateModel::FetchingDiff,
            OrchState::Generating { prompt } => StateModel::Generating { prompt: prompt@ },
            OrchState::Reviewing { review } => StateModel::Reviewing { review: review@ },
            OrchState::Committing { message } => StateModel::Committing { message: message@ },
            OrchState::Done { outcome } => StateModel::Done { outcome: outcome@ },
        }
    }
}

/// Diagnostic carried by a subprocess failure of the staged-diff query.
pub open spec fn diff_spawn_detail() -> Seq<char> {
    "could not run the staged-diff query"@
}

/// Diagnostic carried by a failure of the edit sub-flow.
pub open spec fn edit_failure_detail() -> Seq<char> {
    "could not carry out the edit step"@
}

/// Diagnostic carried by a subprocess failure of the commit invocation.
pub open spec fn commit_spawn_detail() -> Seq<char> {
    "could not run the commit command"@
}

/// A terminal state holding a failure.
pub open spec fn failed(e: ErrorModel) -> StateModel {
    StateModel::Done { outcome: OutcomeModel::Failed { error: e } }
}

/// The transition relation of the orchestrator, one external result at a
/// time. `Done` absorbs every event; an event that does not belong to the
/// current state leaves the state unchanged.
pub open spec fn step_of(s: StateModel, e: EventModel) -> StateModel {
    match (s, e) {
        (StateModel::CheckingTool, EventModel::ToolChecked { present }) => {
            if present {
                StateModel::CheckingRepository
            } else {
                failed(ErrorModel::ToolMissing)
            }
        },
        (StateModel::CheckingRepository, EventModel::RepoChecked { present }) => {
            if present {
                StateModel::FetchingDiff
            } else {
                failed(ErrorModel::NoRepository)
            }
        },
        (StateModel::FetchingDiff, EventModel::DiffFetched { result }) => {
            match result {
                DiffResultModel::Text { text } => {
                    if text.len() == 0 {
                        StateModel::Done { outcome: OutcomeModel::EmptyDiff }
                    } else {
                        StateModel::Generating { prompt: prompt_of(text) }
                    }
                },
                DiffResultModel::SpawnFailure => failed(
                    ErrorModel::SubprocessFailure { detail: diff_spawn_detail() },
                ),
                DiffResultModel::DecodeFailure => failed(ErrorModel::EncodingFailure),
            }
        },
        (StateModel::Generating { .. }, EventModel::Generated { result }) => {
            match result {
                Some(text) => StateModel::Reviewing {
                    review: ReviewModel::Presenting { message: text },
                },
                None => failed(ErrorModel::GenerationFailure),
            }
        },
        (StateModel::Reviewing { review }, EventModel::Review { event }) => {
            match review_step_of(review, event) {
                ReviewModel::ResolvedCommit { message } => StateModel::Committing { message },
                ReviewModel::ResolvedDiscard => StateModel::Done {
                    outcome: OutcomeModel::Discarded,
                },
                ReviewModel::FailedInvalidChoice => failed(ErrorModel::InvalidChoice),
                ReviewModel::FailedEdit => failed(
                    ErrorModel::SubprocessFailure { detail: edit_failure_detail() },
                ),
                r => StateModel::Reviewing { review: r },
            }
        },
        (StateModel::Committing { .. }, EventModel::CommitFinished { result }) => {
            match result {
                CommitResultModel::Completed { success, output } => {
                    if success {
                        StateModel::Done { outcome: OutcomeModel::Committed { output } }
                    } else {
                        failed(ErrorModel::SubprocessFailure { detail: output })
                    }
                },
                CommitResultModel::SpawnFailure => failed(
                    ErrorModel::SubprocessFailure { detail: commit_spawn_detail() },
                ),
                CommitResultModel::DecodeFailure => failed(ErrorModel::EncodingFailure),
            }
        },
        (s, _) => s,
    }
}

/// The state a run starts in: checking that the version-control
/// executable is available.
pub fn initial_state() -> (s: OrchState)
    ensures
        s@ == StateModel::CheckingTool,
{
    OrchState::CheckingTool
}

/// Advances the orchestrator by one external result.
pub fn advance(state: OrchState, event: OrchEvent) -> (next: OrchState)
    ensures
        next@ == step_of(state@, event@),
{
    match (state, event) {
        (OrchState::CheckingTool, OrchEvent::ToolChecked { present }) => {
            if present {
                OrchState::CheckingRepository
            } else {
                OrchState::Done {
                    outcome: RunOutcome::Failed { error: ErrorKind::ToolMissing },
                }
            }
        },
        (OrchState::CheckingRepository, OrchEvent::RepoChecked { present }) => {
            if present {
                OrchState::FetchingDiff
            } else {
                OrchState::Done {
                    outcome: RunOutcome::Failed { error: ErrorKind::NoRepository },
                }
            }
        },
        (OrchState::FetchingDiff, OrchEvent::DiffFetched { result }) => {
            match result {
                DiffResult::Text { text } => {
                    if text.as_str().unicode_len() == 0 {
                        OrchState::Done { outcome: RunOutcome::EmptyDiff }
                    } else {
                        OrchState::Generating { prompt: build_prompt(text.as_str()) }
                    }
                },
                DiffResult::SpawnFailure => OrchState::Done {
                    outcome: RunOutcome::Failed {
                        error: ErrorKind::SubprocessFailure {
                            detail: String::from_str("could not run the staged-diff query"),
                        },
                    },
                },
                DiffResult::DecodeFailure => OrchState::Done {
                    outcome: RunOutcome::Failed { error: ErrorKind::EncodingFailure },
                },
            }
        },
        (OrchState::Generating { .. }, OrchEvent::Generated { result }) => {
            match result {
                Some(text) => OrchState::Reviewing {
                    review: ReviewState::Presenting { message: text },
                },
                None => OrchState::Done {
                    outcome: RunOutcome::Failed { error: ErrorKind::GenerationFailure },
                },
            }
        },
        (OrchState::Reviewing { review }, OrchEvent::Review { event }) => {
            match review_step(review, event) {
                ReviewState::ResolvedCommit { message } => OrchState::Committing { message },
                ReviewState::ResolvedDiscard => OrchState::Done {
                    outcome: RunOutcome::Discarded,
                },
                ReviewState::FailedInvalidChoice => OrchState::Done {
                    outcome: RunOutcome::Failed { error: ErrorKind::InvalidChoice },
                },
                ReviewState::FailedEdit => OrchState::Done {
                    outcome: RunOutcome::Failed {
                        error: ErrorKind::SubprocessFailure {
                            detail: String::from_str("could not carry out the edit step"),
                        },
                    },
                },
                r => OrchState::Reviewing { review: r },
            }
        },
        (OrchState::Committing { .. }, OrchEvent::CommitFinished { result }) => {
            match result {
                CommitResult::Completed { success, output } => {
                    if success {
                        OrchState::Done { outcome: RunOutcome::Committed { output } }
                    } else {
                        OrchState::Done {
                            outcome: RunOutcome::Failed {
                                error: ErrorKind::SubprocessFailure { detail: output },
                            },
                        }
                    }
                },
                CommitResult::SpawnFailure => OrchState::Done {
                    outcome: RunOutcome::Failed {
                        error: ErrorKind::SubprocessFailure {
                            detail: String::from_str("could not run the commit command"),
                        },
                    },
                },
                CommitResult::DecodeFailure => OrchState::Done {
                    outcome: RunOutcome::Failed { error: ErrorKind::EncodingFailure },
                },
            }
        },
        (s, _) => s,
    }
}

} // verus!
