//! The response normalizer: whatever a handler returns, the caller is answered
//! with success.

use vstd::prelude::*;
use crate::error::{AppError, AppErrorView};
use crate::lift::{option_view, result_view};
use crate::response::{acknowledgment, Response, ResponseView};

verus! {

/// The answer to the HTTP caller, and the line that goes to the operational
/// log with it where a failure was put aside.
#[derive(Debug, PartialEq, Eq)]
pub struct Reply {
    pub response: Response,
    pub log: Option<String>,
}

/// A [`Reply`] over mathematical values.
pub struct ReplyView {
    pub response: ResponseView,
    pub log: Option<Seq<char>>,
}

impl View for Reply {
    type V = ReplyView;

    open spec fn view(&self) -> ReplyView {
        ReplyView { response: self.response@, log: option_view(self.log) }
    }
}

/// What a handler's outcome becomes: a response passes as it is, with nothing
/// to log; a failure of any kind is logged by its description and answered with
/// the fixed acknowledgment.
pub open spec fn normalized(outcome: Result<ResponseView, AppErrorView>) -> ReplyView {
    match outcome {
        Ok(response) => ReplyView { response, log: None },
        Err(error) => ReplyView { response: acknowledgment(), log: Some(error.message()) },
    }
}

/// Turns a handler's outcome into the answer for the HTTP caller.
///
/// The caller retries a delivery that is not answered with success, and nothing
/// here would recognise the repeat. So a failure is never handed on: its
/// description is left for the log and the delivery is acknowledged.
pub fn convert_err(former: Result<Response, AppError>) -> (reply: Reply)
    ensures
        reply@ == normalized(result_view(former)),
{
    match former {
        Ok(response) => Reply { response, log: None },
        Err(error) => Reply { response: Response::acknowledgment(), log: Some(error.into_message()) },
    }
}

/// A failure is answered with the fixed acknowledgment, whatever its kind and
/// whatever its description.
pub proof fn lemma_failure_is_acknowledged(error: AppErrorView)
    ensures
        normalized(Err(error)).response == acknowledgment(),
        normalized(Err(error)).log == Some(error.message()),
{
}

/// A response passes unchanged and leaves nothing in the log.
pub proof fn lemma_response_passes(response: ResponseView)
    ensures
        normalized(Ok(response)).response == response,
        normalized(Ok(response)).log is None,
{
}

/// Normalizing is idempotent: the response that came out of it passes through
/// it again unchanged.
pub proof fn lemma_normalize_idempotent(outcome: Result<ResponseView, AppErrorView>)
    ensures
        normalized(Ok(normalized(outcome).response)).response == normalized(outcome).response,
{
}

} // verus!
