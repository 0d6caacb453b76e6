//! What the service does with the report a worker process posts back.

use vstd::prelude::*;
use crate::events::ServerEvent;
use crate::text::str_equals;

verus! {

/// The fields of a worker's result that the service reads. Each is absent
/// when the result does not hold it with the expected type.
pub struct RunTestFields {
    pub endpoint_id: Option<String>,
    pub request_number: Option<i64>,
    pub timed_out: Option<bool>,
    pub status_code: Option<i64>,
    pub response_time_ms: Option<i64>,
    pub response_file: Option<String>,
}

/// The report a worker posts back when its task is done.
pub struct IpcCallback {
    pub task: String,
    pub result: RunTestFields,
    pub elapsed_ms: u128,
    pub success: bool,
    pub error: Option<String>,
}

/// The status the service answers a report with.
#[derive(Debug, Clone, Copy, PartialEq, Eq)]
pub enum CallbackStatus {
    ErrorNoted,
    Received,
}

/// The event to broadcast for a report, if any, and the answer.
pub struct CallbackOutcome {
    pub event: Option<ServerEvent>,
    pub status: CallbackStatus,
}

/// The text of an optional string, `default` when absent.
pub open spec fn text_or(o: Option<String>, default: Seq<char>) -> Seq<char> {
    match o {
        Some(s) => s@,
        None => default,
    }
}

/// The message broadcast for a failed task.
pub open spec fn failure_message(task: Seq<char>, error: Option<String>) -> Seq<char> {
    "IPC task '"@ + task + "' failed: "@ + text_or(error, "unknown error"@)
}

/// An optional number, `0` when absent.
pub open spec fn or_zero(o: Option<i64>) -> i64 {
    match o {
        Some(n) => n,
        None => 0,
    }
}

fn number_or_zero(o: Option<i64>) -> (n: i64)
    ensures
        n == or_zero(o),
{
    match o {
        Some(n) => n,
        None => 0,
    }
}

fn string_or(o: &Option<String>, default: &str) -> (s: String)
    ensures
        s@ == text_or(*o, default@),
{
    match o {
        Some(v) => v.clone(),
        None => String::from_str(default),
    }
}

/// `ev` is the event a successful `run_test` report with the fields `r`
/// stands for: a timeout when the worker says so, otherwise the finished test,
/// with the numbers read with `as i32` and absent fields read as `0` or empty.
pub open spec fn is_run_test_event(r: RunTestFields, ev: ServerEvent) -> bool {
    if r.timed_out == Some(true) {
        &&& ev is TestTimeout
        &&& ev->TestTimeout_endpoint_id@ == text_or(r.endpoint_id, Seq::empty())
        &&& ev->TestTimeout_request_number == or_zero(r.request_number) as i32
    } else {
        &&& ev is TestFinished
        &&& ev->TestFinished_endpoint_id@ == text_or(r.endpoint_id, Seq::empty())
        &&& ev->TestFinished_request_number == or_zero(r.request_number) as i32
        &&& ev->status_code == or_zero(r.status_code) as i32
        &&& ev->response_time_ms == or_zero(r.response_time_ms) as i32
        &&& ev->response_file@ == text_or(r.response_file, Seq::empty())
    }
}

/// The event a successful `run_test` report stands for (see
/// [`is_run_test_event`]).
pub fn run_test_event(r: &RunTestFields) -> (ev: ServerEvent)
    ensures
        is_run_test_event(*r, ev),
{
    proof { reveal_strlit(""); }
    let endpoint_id = string_or(&r.endpoint_id, "");
    let request_number = #[verifier::truncate] (number_or_zero(r.request_number) as i32);
    let timed_out = match r.timed_out { Some(b) => b, None => false };
    assert(""@ == Seq::<char>::empty());
    if timed_out {
        let ev = ServerEvent::TestTimeout { endpoint_id, request_number };
        assert(ev->TestTimeout_endpoint_id@ == text_or(r.endpoint_id, Seq::empty()));
        assert(ev->TestTimeout_request_number == or_zero(r.request_number) as i32);
        return ev;
    }
    let status_code = #[verifier::truncate] (number_or_zero(r.status_code) as i32);
    let response_time_ms = #[verifier::truncate] (number_or_zero(r.response_time_ms) as i32);
    let response_file = string_or(&r.response_file, "");
    let ev = ServerEvent::TestFinished { endpoint_id, request_number, status_code, response_time_ms, response_file };
    assert(ev->TestFinished_endpoint_id@ == text_or(r.endpoint_id, Seq::empty()));
    assert(ev->response_file@ == text_or(r.response_file, Seq::empty()));
    ev
}

/// Handles a worker's report: a failed task is broadcast as an error and
/// noted; a successful `run_test` is broadcast as its outcome; any other
/// successful task is only received.
pub fn callback_outcome(cb: &IpcCallback) -> (o: CallbackOutcome)
    ensures
        !cb.success ==> o.status == CallbackStatus::ErrorNoted && o.event is Some
            && o.event->Some_0 is Error && o.event->Some_0->message@ == failure_message(cb.task@, cb.error),
        cb.success ==> o.status == CallbackStatus::Received,
        cb.success && cb.task@ == "run_test"@ ==> o.event is Some && is_run_test_event(cb.result, o.event->Some_0),
        cb.success && cb.task@ != "run_test"@ ==> o.event is None,
{
    if !cb.success {
        let mut message = String::from_str("IPC task '");
        message.append(cb.task.as_str());
        message.append("' failed: ");
        let err = string_or(&cb.error, "unknown error");
        message.append(err.as_str());
        return CallbackOutcome { event: Some(ServerEvent::Error { message }), status: CallbackStatus::ErrorNoted };
    }
    if str_equals(cb.task.as_str(), "run_test") {
        CallbackOutcome { event: Some(run_test_event(&cb.result)), status: CallbackStatus::Received }
    } else {
        CallbackOutcome { event: None, status: CallbackStatus::Received }
    }
}

} // verus!
