use vstd::prelude::*;

verus! {

/// The closed set of failure kinds that a message pipeline, the completion
/// handler or the run loop can report. The kinds raised by pluggable stages
/// carry that stage's own error text as their cause.
#[derive(Clone, Debug, PartialEq, Eq)]
pub enum ErrorKind {
    /// The message body is absent, not parseable, or names no object.
    MalformedNotification,
    /// The object fetch did not complete within its deadline.
    RetrievalTimeout,
    /// The object body could not be read in full.
    RetrievalIoError,
    /// The payload decoder rejected the fetched bytes, for this cause.
    DecodeError { cause: String },
    /// The event handler failed; `retryable` is its own verdict.
    HandlerError { retryable: bool, cause: String },
    /// The emitter could not confirm delivery of the output, for this cause.
    EmitError { cause: String },
    /// A deletion was rejected by the queue more often than allowed.
    CompletionAckError,
    /// The queue transport could not be reached.
    TransportUnavailable,
}

/// Whether a failure of this kind may succeed when the message is delivered
/// again. Malformed notifications and decode errors are deterministic in the
/// message body, so redelivery cannot help them.
pub open spec fn kind_is_retryable(kind: ErrorKind) -> bool {
    match kind {
        ErrorKind::MalformedNotification => false,
        ErrorKind::DecodeError { .. } => false,
        ErrorKind::HandlerError { retryable, .. } => retryable,
        _ => true,
    }
}

impl ErrorKind {
    /// Executable form of [`kind_is_retryable`].
    pub fn is_retryable(&self) -> (r: bool)
        ensures
            r == kind_is_retryable(*self),
    {
        match self {
            ErrorKind::MalformedNotification => false,
            ErrorKind::DecodeError { .. } => false,
            ErrorKind::HandlerError { retryable, .. } => *retryable,
            _ => true,
        }
    }

    /// A copy of this error, cause included.
    pub fn duplicate(&self) -> (r: ErrorKind)
        ensures
            r == *self,
    {
        match self {
            ErrorKind::MalformedNotification => ErrorKind::MalformedNotification,
            ErrorKind::RetrievalTimeout => ErrorKind::RetrievalTimeout,
            ErrorKind::RetrievalIoError => ErrorKind::RetrievalIoError,
            ErrorKind::DecodeError { cause } => ErrorKind::DecodeError { cause: cause.clone() },
            ErrorKind::HandlerError { retryable, cause } => ErrorKind::HandlerError {
                retryable: *retryable,
                cause: cause.clone(),
            },
            ErrorKind::EmitError { cause } => ErrorKind::EmitError { cause: cause.clone() },
            ErrorKind::CompletionAckError => ErrorKind::CompletionAckError,
            ErrorKind::TransportUnavailable => ErrorKind::TransportUnavailable,
        }
    }
}

} // verus!
