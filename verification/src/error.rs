//! The failures of the pipeline.

use vstd::prelude::*;

verus! {

/// What went wrong, without the detail text.
#[derive(Clone, Copy, Debug, PartialEq, Eq, Structural)]
pub enum ErrorKind {
    NoStagedChanges,
    GitOperationFailed,
    CompletionFailed,
    EmptyCompletion,
    TokenizationFailed,
    EnvVarNotSet,
    IoFailure,
}

/// A failure of one pipeline component, with its detail where it has one.
#[derive(Debug, PartialEq, Eq)]
pub enum CommitauraError {
    /// Nothing is staged: the user can stage something and run again.
    NoStagedChanges,
    /// A version-control command could not be started or ended with a non-zero status.
    GitOperationFailed(String),
    /// The model provider could not be reached or answered with something unusable.
    CompletionFailed(String),
    /// The model answered with nothing but whitespace.
    EmptyCompletion,
    /// The tokenizer could not be set up, or a text could not be encoded or decoded.
    TokenizationFailed(String),
    /// A required environment variable is missing.
    EnvVarNotSet(String),
    /// The README could not be read or written.
    IoFailure(String),
}

impl CommitauraError {
    /// The kind of this failure.
    pub open spec fn kind_of(self) -> ErrorKind {
        match self {
            CommitauraError::NoStagedChanges => ErrorKind::NoStagedChanges,
            CommitauraError::GitOperationFailed(_) => ErrorKind::GitOperationFailed,
            CommitauraError::CompletionFailed(_) => ErrorKind::CompletionFailed,
            CommitauraError::EmptyCompletion => ErrorKind::EmptyCompletion,
            CommitauraError::TokenizationFailed(_) => ErrorKind::TokenizationFailed,
            CommitauraError::EnvVarNotSet(_) => ErrorKind::EnvVarNotSet,
            CommitauraError::IoFailure(_) => ErrorKind::IoFailure,
        }
    }

    /// The detail text of this failure; empty where the kind carries none.
    pub open spec fn detail_of(self) -> Seq<char> {
        match self {
            CommitauraError::NoStagedChanges => Seq::empty(),
            CommitauraError::GitOperationFailed(d) => d@,
            CommitauraError::CompletionFailed(d) => d@,
            CommitauraError::EmptyCompletion => Seq::empty(),
            CommitauraError::TokenizationFailed(d) => d@,
            CommitauraError::EnvVarNotSet(d) => d@,
            CommitauraError::IoFailure(d) => d@,
        }
    }

    /// The text shown to the user for this failure.
    pub open spec fn message_of(self) -> Seq<char> {
        match self {
            CommitauraError::NoStagedChanges => "No staged changes detected"@,
            CommitauraError::GitOperationFailed(d) => "Git operation failed: "@ + d@,
            CommitauraError::CompletionFailed(d) => "Completion failed: "@ + d@,
            CommitauraError::EmptyCompletion => "The model returned an empty completion"@,
            CommitauraError::TokenizationFailed(d) => "Tokenizer error: "@ + d@,
            CommitauraError::EnvVarNotSet(d) => "Environment variable not set: "@ + d@,
            CommitauraError::IoFailure(d) => "I/O error: "@ + d@,
        }
    }

    /// The kind of this failure.
    pub fn kind(&self) -> (k: ErrorKind)
        ensures
            k == self.kind_of(),
    {
        match self {
            CommitauraError::NoStagedChanges => ErrorKind::NoStagedChanges,
            CommitauraError::GitOperationFailed(_) => ErrorKind::GitOperationFailed,
            CommitauraError::CompletionFailed(_) => ErrorKind::CompletionFailed,
            CommitauraError::EmptyCompletion => ErrorKind::EmptyCompletion,
            CommitauraError::TokenizationFailed(_) => ErrorKind::TokenizationFailed,
            CommitauraError::EnvVarNotSet(_) => ErrorKind::EnvVarNotSet,
            CommitauraError::IoFailure(_) => ErrorKind::IoFailure,
        }
    }

    /// The user-facing text: a fixed phrase for the kind, followed by the detail.
    pub fn message(&self) -> (m: String)
        ensures
            m@ == self.message_of(),
    {
        match self {
            CommitauraError::NoStagedChanges => "No staged changes detected".to_owned(),
            CommitauraError::GitOperationFailed(d) => {
                "Git operation failed: ".to_owned().concat(d.as_str())
            },
            CommitauraError::CompletionFailed(d) => {
                "Completion failed: ".to_owned().concat(d.as_str())
            },
            CommitauraError::EmptyCompletion => "The model returned an empty completion".to_owned(),
            CommitauraError::TokenizationFailed(d) => {
                "Tokenizer error: ".to_owned().concat(d.as_str())
            },
            CommitauraError::EnvVarNotSet(d) => {
                "Environment variable not set: ".to_owned().concat(d.as_str())
            },
            CommitauraError::IoFailure(d) => "I/O error: ".to_owned().concat(d.as_str()),
        }
    }
}

} // verus!
