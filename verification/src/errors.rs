//! The error taxonomy of a run and the process-level outcome it maps to.

use vstd::prelude::*;

verus! {

/// Every way a run can fail. Each failure is fatal: nothing is retried and
/// nothing falls back to a default.
#[derive(Debug, PartialEq, Eq, Clone)]
pub enum ErrorKind {
    /// The version-control executable is not resolvable on the path.
    ToolMissing,
    /// The working directory is not inside a valid repository.
    NoRepository,
    /// An invoked external program exited non-zero or could not be spawned;
    /// `detail` carries whatever diagnostic is available.
    SubprocessFailure { detail: String },
    /// The generation service call failed or returned no usable content.
    GenerationFailure,
    /// The operator's input matched none of the recognized decisions.
    InvalidChoice,
    /// Subprocess output could not be interpreted as text.
    EncodingFailure,
}

/// The mathematical model of an [`ErrorKind`]: the same variants over
/// sequences of characters.
pub enum ErrorModel {
    ToolMissing,
    NoRepository,
    SubprocessFailure { detail: Seq<char> },
    GenerationFailure,
    InvalidChoice,
    EncodingFailure,
}

impl View for ErrorKind {
    type V = ErrorModel;

    open spec fn view(&self) -> ErrorModel {
        match self {
            ErrorKind::ToolMissing => ErrorModel::ToolMissing,
            ErrorKind::NoRepository => ErrorModel::NoRepository,
            ErrorKind::SubprocessFailure { detail } => ErrorModel::SubprocessFailure {
                detail: detail@,
            },
            ErrorKind::GenerationFailure => ErrorModel::GenerationFailure,
            ErrorKind::InvalidChoice => ErrorModel::InvalidChoice,
            ErrorKind::EncodingFailure => ErrorModel::EncodingFailure,
        }
    }
}

/// The human-readable diagnostic for each failure.
pub open spec fn diagnostic_of(e: ErrorModel) -> Seq<char> {
    match e {
        ErrorModel::ToolMissing => "git is not installed"@,
        ErrorModel::NoRepository => "no git repository found"@,
        ErrorModel::SubprocessFailure { detail } => "subprocess failed: "@ + detail,
        ErrorModel::GenerationFailure => "failed to generate a commit message"@,
        ErrorModel::InvalidChoice => "Invalid option selected"@,
        ErrorModel::EncodingFailure => "subprocess output was not valid text"@,
    }
}

/// Renders the diagnostic text for an error.
pub fn diagnostic(e: &ErrorKind) -> (s: String)
    ensures
        s@ == diagnostic_of(e@),
{
    match e {
        ErrorKind::ToolMissing => String::from_str("git is not installed"),
        ErrorKind::NoRepository => String::from_str("no git repository found"),
        ErrorKind::SubprocessFailure { detail } => {
            let mut s = String::from_str("subprocess failed: ");
            s.append(detail.as_str());
            s
        },
        ErrorKind::GenerationFailure => String::from_str("failed to generate a commit message"),
        ErrorKind::InvalidChoice => String::from_str("Invalid option selected"),
        ErrorKind::EncodingFailure => String::from_str("subprocess output was not valid text"),
    }
}

} // verus!
