//! Which failures of a transfer are worth another attempt.
//!
//! A socket with a timeout, or one in non-blocking mode, reports "nothing
//! could be done yet" as an error. Such an error asks for another attempt;
//! every other error is final.

use vstd::prelude::*;

verus! {

/// The kinds of failure that the retry rule tells apart.
#[derive(Debug, Copy, Clone, PartialEq, Eq, Structural)]
pub enum IoErrorKind {
    /// The operation would have had to wait.
    WouldBlock,
    /// Any other kind.
    Other,
}

/// A failed transfer, as far as the retry rule reads it.
#[derive(Debug, Copy, Clone, PartialEq, Eq, Structural)]
pub struct TransportError {
    pub kind: IoErrorKind,
    /// The error number of the operating system, where the failure came from
    /// there.
    pub raw_os_error: Option<i32>,
}

/// What to do after one attempt to write a frame.
#[derive(Debug, Copy, Clone, PartialEq, Eq, Structural)]
pub enum Retry {
    /// The frame was written.
    Done,
    /// The attempt failed for now: write again.
    Again,
    /// The attempt failed for good, with this error.
    Failed(TransportError),
}

/// The retry rule: a failure is worth another attempt if it is of the kind
/// `WouldBlock`, or if its error number is `in_progress`, the number by which
/// the operating system says that an operation is in progress.
pub open spec fn retryable(error: TransportError, in_progress: i32) -> bool {
    error.kind is WouldBlock || error.raw_os_error == Some(in_progress)
}

/// What follows from the outcome of one attempt to write: success ends the
/// writing, a failure worth another attempt asks for one, and any other
/// failure ends the writing with that failure.
pub open spec fn retry_step(outcome: Result<(), TransportError>, in_progress: i32) -> Retry {
    match outcome {
        Ok(_) => Retry::Done,
        Err(error) => if retryable(error, in_progress) {
            Retry::Again
        } else {
            Retry::Failed(error)
        },
    }
}

/// The writing goes on exactly while the attempts fail with an error worth
/// another attempt. An error that is not ends the writing at once, with that
/// error, and only a success ends it as done.
pub proof fn lemma_retry_rule(outcome: Result<(), TransportError>, in_progress: i32)
    ensures
        retry_step(outcome, in_progress) is Again <==> (outcome matches Err(e) && retryable(
            e,
            in_progress,
        )),
        outcome matches Err(e) ==> (!retryable(e, in_progress) ==> retry_step(
            outcome,
            in_progress,
        ) == Retry::Failed(e)),
        retry_step(outcome, in_progress) is Done <==> outcome is Ok,
{
}

/// `libc::EINPROGRESS`, the error number for an operation in progress. Its
/// value differs between targets, so nothing is stated of it.
#[verifier::external_body]
pub(crate) fn in_progress_code() -> (code: i32) {
    libc::EINPROGRESS
}

impl TransportError {
    /// Whether the failure is worth another attempt, where `in_progress` is
    /// the error number for an operation in progress.
    pub fn is_retryable(&self, in_progress: i32) -> (b: bool)
        ensures
            b == retryable(*self, in_progress),
    {
        match self.kind {
            IoErrorKind::WouldBlock => true,
            IoErrorKind::Other => match self.raw_os_error {
                Some(code) => code == in_progress,
                None => false,
            },
        }
    }
}

/// Check an error return value for timeouts.
///
/// Due to the fact that timeouts are reported as errors, reading from a
/// socket with a timeout that does not receive a frame in time will result
/// in an error being returned. This trait adds a `should_retry` method to
/// errors and results to check for this condition.
pub trait ShouldRetry {
    /// Check for timeout
    ///
    /// If `true`, the error is probably due to a timeout.
    fn should_retry(&self) -> bool;
}

impl ShouldRetry for TransportError {
    /// Whether the failure is worth another attempt, by the error number that
    /// this target has for an operation in progress.
    fn should_retry(&self) -> (b: bool)
        ensures
            self.kind is WouldBlock ==> b,
            self.kind is Other && self.raw_os_error is None ==> !b,
            exists|in_progress: i32| b == retryable(*self, in_progress),
    {
        let in_progress = in_progress_code();
        let b = self.is_retryable(in_progress);
        assert(b == retryable(*self, in_progress));
        b
    }
}

impl<T> ShouldRetry for Result<T, TransportError> {
    /// A success asks for no other attempt; a failure is asked.
    fn should_retry(&self) -> (b: bool)
        ensures
            self is Ok ==> !b,
            self matches Err(e) ==> {
                &&& e.kind is WouldBlock ==> b
                &&& e.kind is Other && e.raw_os_error is None ==> !b
                &&& exists|in_progress: i32| b == retryable(*e, in_progress)
            },
    {
        match self {
            Ok(_) => false,
            Err(e) => e.should_retry(),
        }
    }
}

/// What to do after one attempt to write a frame had the given outcome,
/// where `in_progress` is the error number for an operation in progress.
pub fn retry_after(outcome: Result<(), TransportError>, in_progress: i32) -> (step: Retry)
    ensures
        step == retry_step(outcome, in_progress),
{
    match outcome {
        Ok(_) => Retry::Done,
        Err(e) => if e.is_retryable(in_progress) {
            Retry::Again
        } else {
            Retry::Failed(e)
        },
    }
}

/// One step of writing a frame until it is sent: what to do after an attempt
/// had the given outcome. The caller writes again for as long as the answer
/// is `Again`. Nothing bounds the number of attempts: who needs a bound sets
/// a write timeout on the socket and so makes the transfer itself fail for
/// good in the end.
pub fn write_retry(outcome: Result<(), TransportError>) -> (step: Retry)
    ensures
        outcome is Ok <==> step is Done,
        step matches Retry::Failed(e) ==> outcome == Err::<(), TransportError>(e) && e.kind is Other,
        outcome matches Err(e) ==> {
            &&& e.kind is WouldBlock ==> step is Again
            &&& e.kind is Other && e.raw_os_error is None ==> step == Retry::Failed(e)
        },
        exists|in_progress: i32| step == retry_step(outcome, in_progress),
{
    let in_progress = in_progress_code();
    let step = retry_after(outcome, in_progress);
    assert(step == retry_step(outcome, in_progress));
    step
}

} // verus!
