//! The message dispatcher's side of the job: what is posted to the webhook
//! and how its answer is judged.

use vstd::prelude::*;
use vstd::string::StringExecFns;
use crate::error::{DispatchFailure, JobError, TransportFailure};

verus! {

/// Seconds after which the dispatch call is abandoned.
pub const DISPATCH_TIMEOUT_SECS: u64 = 10;

/// The body of the dispatch call: the text and nothing else.
#[derive(Clone, Debug, PartialEq, Eq)]
pub struct DispatchPayload {
    pub text: String,
}

/// Everything the caller needs to make the dispatch call: one POST of
/// `payload` to `url`, with no credential, given up after `timeout_secs`
/// seconds.
#[derive(Clone, Debug, PartialEq, Eq)]
pub struct DispatchCall {
    pub url: String,
    pub payload: DispatchPayload,
    pub timeout_secs: u64,
}

/// A dispatch call as contracts see it: the payload by its text.
pub struct DispatchCallView {
    pub url: Seq<char>,
    pub text: Seq<char>,
    pub timeout_secs: u64,
}

impl View for DispatchCall {
    type V = DispatchCallView;

    open spec fn view(&self) -> DispatchCallView {
        DispatchCallView {
            url: self.url@,
            text: self.payload.text@,
            timeout_secs: self.timeout_secs,
        }
    }
}

/// The dispatch call that delivers `text` to `url`: the text is carried as it
/// is, whatever its length or content.
pub open spec fn dispatch_call(url: Seq<char>, text: Seq<char>) -> DispatchCallView {
    DispatchCallView { url, text, timeout_secs: DISPATCH_TIMEOUT_SECS }
}

/// Prepares the dispatch call.
pub fn prepare_dispatch(url: &str, text: &str) -> (call: DispatchCall)
    ensures
        call@ == dispatch_call(url@, text@),
{
    DispatchCall {
        url: String::from_str(url),
        payload: DispatchPayload { text: String::from_str(text) },
        timeout_secs: DISPATCH_TIMEOUT_SECS,
    }
}

/// How the dispatch call ended.
#[derive(Clone, Copy, Debug, PartialEq, Eq, Structural)]
pub enum DispatchOutcome {
    /// The webhook answered with this status code.
    Status(u16),
    /// No answer was had.
    Failed(TransportFailure),
}

/// Whether an HTTP status code is in the success class, 200 to 299.
pub open spec fn is_success_status(status: u16) -> bool {
    200 <= status && status <= 299
}

/// Tells whether a status code is in the success class.
pub fn status_is_success(status: u16) -> (ok: bool)
    ensures
        ok == is_success_status(status),
{
    200 <= status && status <= 299
}

/// What the dispatch stage reports for each way its call can end: delivered
/// on a success status, and otherwise the error that ends the job.
pub open spec fn dispatch_verdict(outcome: DispatchOutcome) -> Result<(), JobError> {
    match outcome {
        DispatchOutcome::Status(status) => if is_success_status(status) {
            Ok(())
        } else {
            Err(JobError::DispatchTransport(DispatchFailure::Status(status)))
        },
        DispatchOutcome::Failed(TransportFailure::Network) => Err(
            JobError::DispatchTransport(DispatchFailure::Network),
        ),
        DispatchOutcome::Failed(TransportFailure::Timeout) => Err(
            JobError::DispatchTransport(DispatchFailure::Timeout),
        ),
    }
}

/// Judges how the dispatch call ended.
pub fn judge_dispatch(outcome: DispatchOutcome) -> (result: Result<(), JobError>)
    ensures
        result == dispatch_verdict(outcome),
{
    match outcome {
        DispatchOutcome::Status(status) => if status_is_success(status) {
            Ok(())
        } else {
            Err(JobError::DispatchTransport(DispatchFailure::Status(status)))
        },
        DispatchOutcome::Failed(TransportFailure::Network) => Err(
            JobError::DispatchTransport(DispatchFailure::Network),
        ),
        DispatchOutcome::Failed(TransportFailure::Timeout) => Err(
            JobError::DispatchTransport(DispatchFailure::Timeout),
        ),
    }
}

} // verus!
