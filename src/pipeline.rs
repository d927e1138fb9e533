use vstd::prelude::*;
use crate::error::{ErrorKind, kind_is_retryable};

verus! {

/// How one message's pipeline ended.
#[derive(Clone, Debug, PartialEq, Eq)]
pub enum OutcomeStatus<O> {
    /// Every stage succeeded and the output was delivered.
    Success(O),
    /// A stage failed; `retryable` says whether redelivery may help.
    Failure { kind: ErrorKind, retryable: bool },
}

/// The terminal result of one message's pipeline, keyed by the message's
/// identity and carrying the token needed to acknowledge it.
#[derive(Clone, Debug, PartialEq, Eq)]
pub struct Outcome<O> {
    pub message_id: String,
    pub receipt_handle: String,
    pub status: OutcomeStatus<O>,
}

/// A failed handler's own verdict on whether the event may be retried, and
/// its account of what went wrong.
#[derive(Clone, Debug, PartialEq, Eq)]
pub struct HandlerFailure {
    pub retryable: bool,
    pub cause: String,
}

/// The failure status for an error kind, with its retry verdict.
pub open spec fn failure_of<O>(kind: ErrorKind) -> OutcomeStatus<O> {
    OutcomeStatus::Failure { kind, retryable: kind_is_retryable(kind) }
}

impl<O> Outcome<O> {
    pub open spec fn is_success(&self) -> bool {
        self.status is Success
    }

    /// Labels a pipeline's status with the message it belongs to.
    pub fn new(message_id: String, receipt_handle: String, status: OutcomeStatus<O>) -> (r: Self)
        ensures
            r.message_id == message_id,
            r.receipt_handle == receipt_handle,
            r.status == status,
    {
        Outcome { message_id, receipt_handle, status }
    }
}

/// Builds the failure status for an error kind.
pub fn failure<O>(kind: ErrorKind) -> (r: OutcomeStatus<O>)
    ensures
        r == failure_of::<O>(kind),
{
    let retryable = kind.is_retryable();
    OutcomeStatus::Failure { kind, retryable }
}

/// After retrieval and decoding: the event goes on to the handler (`Ok`), or
/// the pipeline ends with the retrieval's failure (`Err`). The handler is
/// only reached when retrieval succeeded.
pub fn after_retrieval<E, O>(retrieved: Result<E, ErrorKind>) -> (r: Result<E, OutcomeStatus<O>>)
    ensures
        match retrieved {
            Ok(e) => r == Ok::<E, OutcomeStatus<O>>(e),
            Err(kind) => r == Err::<E, OutcomeStatus<O>>(failure_of::<O>(kind)),
        },
{
    match retrieved {
        Ok(e) => Ok(e),
        Err(kind) => Err(failure(kind)),
    }
}

/// After the handler: its output goes on to the emitter (`Ok`), or the
/// pipeline ends (`Err`) with a handler failure that keeps the handler's
/// retry verdict and cause.
pub fn after_handling<O>(handled: Result<O, HandlerFailure>) -> (r: Result<O, OutcomeStatus<O>>)
    ensures
        match handled {
            Ok(o) => r == Ok::<O, OutcomeStatus<O>>(o),
            Err(f) => r == Err::<O, OutcomeStatus<O>>(
                OutcomeStatus::Failure {
                    kind: ErrorKind::HandlerError { retryable: f.retryable, cause: f.cause },
                    retryable: f.retryable,
                },
            ),
        },
{
    match handled {
        Ok(o) => Ok(o),
        Err(f) => Err(failure(ErrorKind::HandlerError { retryable: f.retryable, cause: f.cause })),
    }
}

/// After the emitter: the output counts as a success only once the emitter
/// confirmed delivery; otherwise the message fails with `EmitError` and the
/// emitter's cause.
pub fn after_emission<O>(output: O, emitted: Result<(), String>) -> (r: OutcomeStatus<O>)
    ensures
        match emitted {
            Ok(_) => r == OutcomeStatus::Success(output),
            Err(c) => r == failure_of::<O>(ErrorKind::EmitError { cause: c }),
        },
{
    match emitted {
        Ok(_) => OutcomeStatus::Success(output),
        Err(c) => failure(ErrorKind::EmitError { cause: c }),
    }
}

} // verus!
