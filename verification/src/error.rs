//! The ways in which one invocation can fail.

use vstd::prelude::*;

verus! {

/// Why a range fetch did not give an answer to work with.
#[derive(Debug, Clone, PartialEq, Eq)]
pub enum FetchCause {
    /// The request did not get through; `reason` is what the client said.
    Transport { reason: String },
    /// The endpoint answered with a status outside 200 to 299.
    Status { code: u16 },
}

/// A [`FetchCause`] as a mathematical value.
pub enum FetchCauseModel {
    Transport { reason: Seq<char> },
    Status { code: u16 },
}

impl View for FetchCause {
    type V = FetchCauseModel;

    open spec fn view(&self) -> FetchCauseModel {
        match self {
            FetchCause::Transport { reason } => FetchCauseModel::Transport { reason: reason@ },
            FetchCause::Status { code } => FetchCauseModel::Status { code: *code },
        }
    }
}

/// Why an invocation was aborted. Every kind is fatal to the invocation it
/// occurs in, and none is retried.
#[derive(Debug, Clone, PartialEq, Eq)]
pub enum HandlerError {
    /// The event carries no addressing metadata.
    MissingContext,
    /// The caller's request carries no `Range` header.
    MissingRangeHeader,
    /// The range fetch failed, in transport or by its status.
    Fetch { cause: FetchCause },
    /// The fetch answered without a `Content-Range` header.
    MissingContentRange,
    /// The fetched body is not valid UTF-8.
    Encoding,
    /// The write-back call failed; `cause` is what the client said.
    Submission { cause: String },
}

/// The kind of a failure, without its cause.
#[derive(Debug, Clone, Copy, PartialEq, Eq, Structural)]
pub enum ErrorKind {
    MissingContext,
    MissingRangeHeader,
    Fetch,
    MissingContentRange,
    Encoding,
    Submission,
}

/// A failure as a mathematical value.
pub enum ErrorModel {
    MissingContext,
    MissingRangeHeader,
    Fetch { cause: FetchCauseModel },
    MissingContentRange,
    Encoding,
    Submission { cause: Seq<char> },
}

impl ErrorModel {
    /// The kind of this failure.
    pub open spec fn kind(self) -> ErrorKind {
        match self {
            ErrorModel::MissingContext => ErrorKind::MissingContext,
            ErrorModel::MissingRangeHeader => ErrorKind::MissingRangeHeader,
            ErrorModel::Fetch { .. } => ErrorKind::Fetch,
            ErrorModel::MissingContentRange => ErrorKind::MissingContentRange,
            ErrorModel::Encoding => ErrorKind::Encoding,
            ErrorModel::Submission { .. } => ErrorKind::Submission,
        }
    }
}

impl View for HandlerError {
    type V = ErrorModel;

    open spec fn view(&self) -> ErrorModel {
        match self {
            HandlerError::MissingContext => ErrorModel::MissingContext,
            HandlerError::MissingRangeHeader => ErrorModel::MissingRangeHeader,
            HandlerError::Fetch { cause } => ErrorModel::Fetch { cause: cause@ },
            HandlerError::MissingContentRange => ErrorModel::MissingContentRange,
            HandlerError::Encoding => ErrorModel::Encoding,
            HandlerError::Submission { cause } => ErrorModel::Submission { cause: cause@ },
        }
    }
}

impl HandlerError {
    /// The kind of this failure.
    pub fn kind(&self) -> (kind: ErrorKind)
        ensures
            kind == self@.kind(),
    {
        match self {
            HandlerError::MissingContext => ErrorKind::MissingContext,
            HandlerError::MissingRangeHeader => ErrorKind::MissingRangeHeader,
            HandlerError::Fetch { .. } => ErrorKind::Fetch,
            HandlerError::MissingContentRange => ErrorKind::MissingContentRange,
            HandlerError::Encoding => ErrorKind::Encoding,
            HandlerError::Submission { .. } => ErrorKind::Submission,
        }
    }
}

} // verus!
