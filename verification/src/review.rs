//! The message review loop: one line of operator input decides whether the
//! generated message is committed as-is, edited once and then committed,
//! or discarded.

use vstd::prelude::*;

verus! {

/// The operator's decision, derived from a single line of input.
/// Created fresh on each invocation of the review loop; never persisted.
#[derive(Clone, Copy, Debug, PartialEq, Eq, Structural)]
pub enum OperatorDecision {
    Commit,
    Edit,
    Discard,
    Invalid,
}

/// Strips at most one trailing line terminator from the input: a final
/// `"\r\n"` if present, otherwise a final `"\n"` if present.
pub open spec fn strip_line_terminator(s: Seq<char>) -> Seq<char> {
    if s.len() >= 2 && s[s.len() - 2] == '\r' && s[s.len() - 1] == '\n' {
        s.subrange(0, s.len() - 2)
    } else if s.len() >= 1 && s[s.len() - 1] == '\n' {
        s.subrange(0, s.len() - 1)
    } else {
        s
    }
}

/// The decision a line of operator input resolves to, case-insensitively,
/// after normalization: `c` commits, `e` edits, `d` discards, anything
/// else is invalid.
pub open spec fn decision_of(line: Seq<char>) -> OperatorDecision {
    let n = strip_line_terminator(line);
    if n.len() == 1 && (n[0] == 'c' || n[0] == 'C') {
        OperatorDecision::Commit
    } else if n.len() == 1 && (n[0] == 'e' || n[0] == 'E') {
        OperatorDecision::Edit
    } else if n.len() == 1 && (n[0] == 'd' || n[0] == 'D') {
        OperatorDecision::Discard
    } else {
        OperatorDecision::Invalid
    }
}

/// Resolves one line of operator input into a decision.
pub fn decide(line: &str) -> (d: OperatorDecision)
    ensures
        d == decision_of(line@),
{
    let n = line.unicode_len();
    let stripped: &str = if n >= 2 && line.get_char(n - 2) == '\r' && line.get_char(n - 1) == '\n' {
        line.substring_char(0, n - 2)
    } else if n >= 1 && line.get_char(n - 1) == '\n' {
        line.substring_char(0, n - 1)
    } else {
        line
    };
    let m = stripped.unicode_len();
    if m == 1 {
        let c = stripped.get_char(0);
        if c == 'c' || c == 'C' {
            OperatorDecision::Commit
        } else if c == 'e' || c == 'E' {
            OperatorDecision::Edit
        } else if c == 'd' || c == 'D' {
            OperatorDecision::Discard
        } else {
            OperatorDecision::Invalid
        }
    } else {
        OperatorDecision::Invalid
    }
}

/// A state of the review loop. The loop starts in `Presenting`, reads one
/// decision in `AwaitingDecision`, and passes through `Editing` at most
/// once: a single edit pass is final, the edited text is committed without
/// a second round of review.
#[derive(Debug, PartialEq, Eq, Clone)]
pub enum ReviewState {
    /// The generated message is being displayed to the operator.
    Presenting { message: String },
    /// One line of operator input is awaited.
    AwaitingDecision { message: String },
    /// The external editor is running over the current message.
    Editing { message: String },
    /// The loop resolved to a commit with this final message.
    ResolvedCommit { message: String },
    /// The loop resolved to a discard; no commit will happen.
    ResolvedDiscard,
    /// The operator's input matched no recognized decision.
    FailedInvalidChoice,
    /// The edit sub-flow failed (temporary file, editor spawn, or re-read).
    FailedEdit,
}

/// What the driver reports back to the review loop.
#[derive(Debug, PartialEq, Eq, Clone)]
pub enum ReviewEvent {
    /// The message has been displayed, framed by delimiter lines.
    MessagePresented,
    /// One line of operator input was read.
    OperatorLine { line: String },
    /// The editor exited and the edited file was re-read as this text.
    EditCompleted { text: String },
    /// The edit sub-flow could not be carried out.
    EditFailed,
}

/// The mathematical model of a [`ReviewState`].
pub enum ReviewModel {
    Presenting { message: Seq<char> },
    AwaitingDecision { message: Seq<char> },
    Editing { message: Seq<char> },
    ResolvedCommit { message: Seq<char> },
    ResolvedDiscard,
    FailedInvalidChoice,
    FailedEdit,
}

/// The mathematical model of a [`ReviewEvent`].
pub enum ReviewEventModel {
    MessagePresented,
    OperatorLine { line: Seq<char> },
    EditCompleted { text: Seq<char> },
    EditFailed,
}

impl View for ReviewState {
    type V = ReviewModel;

    open spec fn view(&self) -> ReviewModel {
        match self {
            ReviewState::Presenting { message } => ReviewModel::Presenting { message: message@ },
            ReviewState::AwaitingDecision { message } => ReviewModel::AwaitingDecision {
                message: message@,
            },
            ReviewState::Editing { message } => ReviewModel::Editing { message: message@ },
            ReviewState::ResolvedCommit { message } => ReviewModel::ResolvedCommit {
                message: message@,
            },
            ReviewState::ResolvedDiscard => ReviewModel::ResolvedDiscard,
            ReviewState::FailedInvalidChoice => ReviewModel::FailedInvalidChoice,
            ReviewState::FailedEdit => ReviewModel::FailedEdit,
        }
    }
}

impl View for ReviewEvent {
    type V = ReviewEventModel;

    open spec fn view(&self) -> ReviewEventModel {
        match self {
            ReviewEvent::MessagePresented => ReviewEventModel::MessagePresented,
            ReviewEvent::OperatorLine { line } => ReviewEventModel::OperatorLine { line: line@ },
            ReviewEvent::EditCompleted { text } => ReviewEventModel::EditCompleted { text: text@ },
            ReviewEvent::EditFailed => ReviewEventModel::EditFailed,
        }
    }
}

/// Whether a review state is terminal: the loop has resolved or failed and
/// takes no further events.
pub open spec fn review_terminal(s: ReviewModel) -> bool {
    match s {
        ReviewModel::ResolvedCommit { .. } => true,
        ReviewModel::ResolvedDiscard => true,
        ReviewModel::FailedInvalidChoice => true,
        ReviewModel::FailedEdit => true,
        _ => false,
    }
}

/// The transition relation of the review loop. Terminal states absorb
/// every event; an event that does not belong to the current state leaves
/// the state unchanged.
pub open spec fn review_step_of(s: ReviewModel, e: ReviewEventModel) -> ReviewModel {
    match (s, e) {
        (ReviewModel::Presenting { message }, ReviewEventModel::MessagePresented) =>
            ReviewModel::AwaitingDecision { message },
        (ReviewModel::AwaitingDecision { message }, ReviewEventModel::OperatorLine { line }) => {
            match decision_of(line) {
                OperatorDecision::Commit => ReviewModel::ResolvedCommit { message },
                OperatorDecision::Edit => ReviewModel::Editing { message },
                OperatorDecision::Discard => ReviewModel::ResolvedDiscard,
                OperatorDecision::Invalid => ReviewModel::FailedInvalidChoice,
            }
        },
        (ReviewModel::Editing { .. }, ReviewEventModel::EditCompleted { text }) =>
            ReviewModel::ResolvedCommit { message: text },
        (ReviewModel::Editing { .. }, ReviewEventModel::EditFailed) => ReviewModel::FailedEdit,
        (s, _) => s,
    }
}

/// Advances the review loop by one event.
pub fn review_step(s: ReviewState, e: ReviewEvent) -> (next: ReviewState)
    ensures
        next@ == review_step_of(s@, e@),
{
    match (s, e) {
        (ReviewState::Presenting { message }, ReviewEvent::MessagePresented) =>
            ReviewState::AwaitingDecision { message },
        (ReviewState::AwaitingDecision { message }, ReviewEvent::OperatorLine { line }) => {
            match decide(line.as_str()) {
                OperatorDecision::Commit => ReviewState::ResolvedCommit { message },
                OperatorDecision::Edit => ReviewState::Editing { message },
                OperatorDecision::Discard => ReviewState::ResolvedDiscard,
                OperatorDecision::Invalid => ReviewState::FailedInvalidChoice,
            }
        },
        (ReviewState::Editing { .. }, ReviewEvent::EditCompleted { text }) =>
            ReviewState::ResolvedCommit { message: text },
        (ReviewState::Editing { .. }, ReviewEvent::EditFailed) => ReviewState::FailedEdit,
        (s, _) => s,
    }
}

/// The review loop never alters the message on its own: a commit
/// resolution reached without the edit step carries the presented message
/// unchanged, and one reached through the edit step carries exactly the
/// edited text.
pub proof fn lemma_review_preserves_message(message: Seq<char>, line: Seq<char>, edited: Seq<char>)
    ensures
        decision_of(line) == OperatorDecision::Commit ==> review_step_of(
            ReviewModel::AwaitingDecision { message },
            ReviewEventModel::OperatorLine { line },
        ) == (ReviewModel::ResolvedCommit { message }),
        review_step_of(
            ReviewModel::Editing { message },
            ReviewEventModel::EditCompleted { text: edited },
        ) == (ReviewModel::ResolvedCommit { message: edited }),
{
}

} // verus!
