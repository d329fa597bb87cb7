//! Decisions of the outbound call to the completion API: which attempt is
//! retried and after what delay, and what an answer of the API means.
use vstd::prelude::*;
use crate::error::{FlowError, status_of, INTERNAL_SERVER_ERROR, BAD_GATEWAY};
use crate::models::{ApiError, CompletionResponse};

verus! {

/// Attempts made in all: the first one and three retries.
pub const MAX_ATTEMPTS: u32 = 4;

/// The time limit of each attempt, in seconds.
pub const REQUEST_TIMEOUT_SECS: u64 = 30;

/// What to do after an attempt failed at the transport level.
#[derive(PartialEq, Eq, Structural, Clone, Copy, Debug)]
pub enum RetryStep {
    /// Wait this many seconds, then send again.
    Retry { delay_secs: u64 },
    /// Stop and report that the request failed.
    GiveUp,
}

/// The delay after the failed attempt with index `attempt` (counted from
/// zero): one second, doubling with each retry.
pub open spec fn backoff_secs(attempt: nat) -> nat
    decreases attempt,
{
    if attempt == 0 { 1 } else { 2 * backoff_secs((attempt - 1) as nat) }
}

/// The step taken after the attempt with index `attempt` failed.
pub open spec fn retry_step_of(attempt: nat) -> RetryStep {
    if attempt + 1 < MAX_ATTEMPTS {
        RetryStep::Retry { delay_secs: backoff_secs(attempt) as u64 }
    } else {
        RetryStep::GiveUp
    }
}

/// The seconds waited before the attempt with index `n`: the sum of the
/// delays after attempts `0 .. n`.
pub open spec fn waited_before(n: nat) -> nat
    decreases n,
{
    if n == 0 { 0 } else { waited_before((n - 1) as nat) + backoff_secs((n - 1) as nat) }
}

/// Decides what follows a transport failure of the attempt with index
/// `attempt`: the last allowed attempt, or any later one, ends the request.
pub fn after_transport_failure(attempt: u32) -> (r: RetryStep)
    ensures
        r == retry_step_of(attempt as nat),
{
    if attempt < MAX_ATTEMPTS - 1 {
        let mut delay: u64 = 1;
        let mut i: u32 = 0;
        while i < attempt
            invariant
                i <= attempt,
                attempt + 1 < MAX_ATTEMPTS,
                delay == backoff_secs(i as nat),
                i == 0 ==> delay == 1,
                i == 1 ==> delay == 2,
                i == 2 ==> delay == 4,
            decreases attempt - i,
        {
            delay = delay * 2;
            i = i + 1;
        }
        RetryStep::Retry { delay_secs: delay }
    } else {
        RetryStep::GiveUp
    }
}

/// The transport failures of one request so far.
pub struct Attempts {
    pub failed: u32,
}

impl Attempts {
    /// No attempt has failed yet.
    pub fn new() -> (r: Attempts)
        ensures
            r.failed == 0,
    {
        Attempts { failed: 0 }
    }

    /// Records that the latest attempt failed at the transport level and
    /// decides what follows. Once the request gives up the count stays.
    pub fn record_failure(&mut self) -> (r: RetryStep)
        ensures
            r == retry_step_of(old(self).failed as nat),
            r is Retry ==> final(self).failed == old(self).failed + 1,
            r is GiveUp ==> final(self).failed == old(self).failed,
    {
        let step = after_transport_failure(self.failed);
        if let RetryStep::Retry { .. } = step {
            self.failed = self.failed + 1;
        }
        step
    }
}

/// When every attempt fails at the transport level, the first three failures
/// are retried after 1, 2 and 4 seconds, the fourth ends the request, and
/// seven seconds have been spent waiting before it gives up.
pub proof fn lemma_exhausted_retries()
    ensures
        retry_step_of(0) == (RetryStep::Retry { delay_secs: 1 }),
        retry_step_of(1) == (RetryStep::Retry { delay_secs: 2 }),
        retry_step_of(2) == (RetryStep::Retry { delay_secs: 4 }),
        retry_step_of((MAX_ATTEMPTS - 1) as nat) == RetryStep::GiveUp,
        forall|a: nat| a < MAX_ATTEMPTS - 1 ==> #[trigger] retry_step_of(a) is Retry,
        waited_before((MAX_ATTEMPTS - 1) as nat) == 7,
{
    reveal_with_fuel(backoff_secs, 4);
    reveal_with_fuel(waited_before, 4);
}

/// Whether an HTTP status is in the 2xx range.
pub open spec fn is_success_spec(status: u16) -> bool {
    200 <= status < 300
}

/// Whether an HTTP status is in the 2xx range.
pub fn is_success(status: u16) -> (r: bool)
    ensures
        r == is_success_spec(status),
{
    200 <= status && status < 300
}

/// The error message of a failed answer: the `error` field of the body where
/// the body has that shape, else the raw body.
pub open spec fn upstream_message_of(parsed: Option<ApiError>, body: Seq<char>) -> Seq<char> {
    match parsed {
        Some(e) => e.error@,
        None => body,
    }
}

/// The text of the first choice, or `fallback` where there is none.
pub open spec fn first_content_of(resp: CompletionResponse, fallback: Seq<char>) -> Seq<char> {
    if resp.choices@.len() > 0 {
        resp.choices@[0].message.content@
    } else {
        fallback
    }
}

/// The text of the first choice of a completion, or `fallback` where the
/// list of choices is empty.
pub fn first_content(resp: &CompletionResponse, fallback: &str) -> (r: String)
    ensures
        r@ == first_content_of(*resp, fallback@),
{
    if resp.choices.len() > 0 {
        resp.choices[0].message.content.clone()
    } else {
        String::from_str(fallback)
    }
}

/// `r` is what a completed exchange means: a status outside 2xx is a gateway
/// error carrying the status and the error message; otherwise a body that is
/// no completion is a server error carrying the parser's complaint, and a
/// completion yields its first choice's text, or `fallback` where it has none.
pub open spec fn interprets(
    r: Result<String, FlowError>,
    status: u16,
    body: Seq<char>,
    parsed_error: Option<ApiError>,
    parsed_reply: Result<CompletionResponse, String>,
    fallback: Seq<char>,
) -> bool {
    if !is_success_spec(status) {
        r matches Err(FlowError::Upstream { status: s, message: m }) && s == status && m@
            == upstream_message_of(parsed_error, body)
    } else {
        match parsed_reply {
            Err(d) => r matches Err(FlowError::ResponseParse { detail }) && detail == d,
            Ok(resp) => r matches Ok(text) && text@ == first_content_of(resp, fallback),
        }
    }
}

/// Interprets a completed exchange with the API. `parsed_error` is the body
/// read as an error record, where it has that shape; `parsed_reply` is the
/// body read as a completion, or the parser's complaint.
pub fn interpret_response(
    status: u16,
    body: String,
    parsed_error: Option<ApiError>,
    parsed_reply: Result<CompletionResponse, String>,
    fallback: &str,
) -> (r: Result<String, FlowError>)
    ensures
        interprets(r, status, body@, parsed_error, parsed_reply, fallback@),
        !is_success_spec(status) ==> (r is Err && status_of(r->Err_0) == BAD_GATEWAY),
        is_success_spec(status) && parsed_reply is Err ==> (r is Err && status_of(r->Err_0)
            == INTERNAL_SERVER_ERROR),
{
    if !is_success(status) {
        let message = match parsed_error {
            Some(e) => e.error,
            None => body,
        };
        return Err(FlowError::Upstream { status, message });
    }
    match parsed_reply {
        Ok(resp) => Ok(first_content(&resp, fallback)),
        Err(detail) => Err(FlowError::ResponseParse { detail }),
    }
}

} // verus!
