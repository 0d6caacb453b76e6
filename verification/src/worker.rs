//! The decisions of the worker process: which task it was given, how a test
//! request is read from its payload, and what it reports back.

use vstd::prelude::*;
use crate::paths::{endpoint_dir, numbered_file, response_file_path};
use crate::text::{decimal, push_decimal, spec_uppercase, to_uppercase, str_equals};

verus! {

/// The tasks a worker knows.
#[derive(Debug, Clone, Copy, PartialEq, Eq)]
pub enum ChildTask {
    RunTest,
    Export,
    DeleteFolder,
    MergeFolder,
    Unknown,
}

/// The task named `task`.
pub open spec fn task_of(task: Seq<char>) -> ChildTask {
    if task == "run_test"@ {
        ChildTask::RunTest
    } else if task == "export"@ {
        ChildTask::Export
    } else if task == "delete_folder"@ {
        ChildTask::DeleteFolder
    } else if task == "merge_folder"@ {
        ChildTask::MergeFolder
    } else {
        ChildTask::Unknown
    }
}

/// Which task a request names (see [`task_of`]).
pub fn classify_task(task: &str) -> (t: ChildTask)
    ensures
        t == task_of(task@),
{
    if str_equals(task, "run_test") {
        ChildTask::RunTest
    } else if str_equals(task, "export") {
        ChildTask::Export
    } else if str_equals(task, "delete_folder") {
        ChildTask::DeleteFolder
    } else if str_equals(task, "merge_folder") {
        ChildTask::MergeFolder
    } else {
        ChildTask::Unknown
    }
}

/// The error of a task the worker does not know: `Unknown task: {task}`.
pub fn unknown_task_error(task: &str) -> (s: String)
    ensures
        s@ == "Unknown task: "@ + task@,
{
    String::from_str("Unknown task: ").concat(task)
}

/// The fields of a `run_test` payload that the worker reads; each is absent
/// when the payload does not hold it with the expected type.
pub struct RunTestPayload {
    pub endpoint_id: Option<String>,
    pub url: Option<String>,
    pub method: Option<String>,
    pub request_number: Option<i64>,
    pub timeout_ms: Option<u64>,
}

/// The HTTP methods a test may use.
#[derive(Debug, Clone, Copy, PartialEq, Eq)]
pub enum HttpVerb {
    Get,
    Post,
    Put,
    Delete,
    Patch,
    Head,
}

/// The method for an upper-cased method name: any unknown name is a GET.
pub open spec fn verb_of(method: Seq<char>) -> HttpVerb {
    if method == "POST"@ {
        HttpVerb::Post
    } else if method == "PUT"@ {
        HttpVerb::Put
    } else if method == "DELETE"@ {
        HttpVerb::Delete
    } else if method == "PATCH"@ {
        HttpVerb::Patch
    } else if method == "HEAD"@ {
        HttpVerb::Head
    } else {
        HttpVerb::Get
    }
}

/// Whether a test with this method sends the request body as JSON.
pub open spec fn sends_body(v: HttpVerb) -> bool {
    v == HttpVerb::Post || v == HttpVerb::Put || v == HttpVerb::Patch
}

impl HttpVerb {
    /// Whether a request with this method carries the JSON body.
    pub fn sends_body(&self) -> (b: bool)
        ensures
            b == sends_body(*self),
            b <==> (*self == HttpVerb::Post || *self == HttpVerb::Put || *self == HttpVerb::Patch),
    {
        match self {
            HttpVerb::Post => true,
            HttpVerb::Put => true,
            HttpVerb::Patch => true,
            _ => false,
        }
    }
}

/// A test sends its JSON body exactly with the methods POST, PUT and PATCH;
/// GET, DELETE and HEAD requests go without a body.
pub proof fn law_body_methods(v: HttpVerb)
    ensures
        sends_body(v) <==> (v == HttpVerb::Post || v == HttpVerb::Put || v == HttpVerb::Patch),
        sends_body(HttpVerb::Post),
        sends_body(HttpVerb::Put),
        sends_body(HttpVerb::Patch),
        !sends_body(HttpVerb::Get),
        !sends_body(HttpVerb::Delete),
        !sends_body(HttpVerb::Head),
{
}

/// A test request ready to be sent.
pub struct RunTestPlan {
    pub endpoint_id: String,
    pub url: String,
    pub method: String,
    pub verb: HttpVerb,
    pub request_number: i32,
    pub timeout_ms: u64,
}

/// Reads a `run_test` payload. The endpoint id, the address and the request
/// number are required, in that order; the method defaults to `GET` and is
/// upper-cased, the request number is read with `as i32`, and the time limit
/// defaults to 30 seconds.
pub fn plan_run_test(p: &RunTestPayload) -> (r: Result<RunTestPlan, String>)
    ensures
        p.endpoint_id is None ==> r is Err && r->Err_0@ == "missing endpoint_id"@,
        p.endpoint_id is Some && p.url is None ==> r is Err && r->Err_0@ == "missing url"@,
        p.endpoint_id is Some && p.url is Some && p.request_number is None ==>
            r is Err && r->Err_0@ == "missing request_number"@,
        p.endpoint_id is Some && p.url is Some && p.request_number is Some ==> r is Ok && {
            let plan = r->Ok_0;
            &&& plan.endpoint_id == p.endpoint_id->Some_0
            &&& plan.url == p.url->Some_0
            &&& plan.method@ == (match p.method { Some(m) => spec_uppercase(m@), None => "GET"@ })
            &&& plan.verb == verb_of(plan.method@)
            &&& plan.request_number == p.request_number->Some_0 as i32
            &&& plan.timeout_ms == (match p.timeout_ms { Some(t) => t, None => 30_000u64 })
        },
{
    let endpoint_id = match &p.endpoint_id {
        Some(e) => e.clone(),
        None => return Err(String::from_str("missing endpoint_id")),
    };
    let url = match &p.url {
        Some(u) => u.clone(),
        None => return Err(String::from_str("missing url")),
    };
    let method = match &p.method {
        Some(m) => to_uppercase(m.as_str()),
        None => String::from_str("GET"),
    };
    let request_number = match p.request_number {
        Some(n) => #[verifier::truncate] (n as i32),
        None => return Err(String::from_str("missing request_number")),
    };
    let timeout_ms = match p.timeout_ms {
        Some(t) => t,
        None => 30_000,
    };
    let verb = if str_equals(method.as_str(), "POST") {
        HttpVerb::Post
    } else if str_equals(method.as_str(), "PUT") {
        HttpVerb::Put
    } else if str_equals(method.as_str(), "DELETE") {
        HttpVerb::Delete
    } else if str_equals(method.as_str(), "PATCH") {
        HttpVerb::Patch
    } else if str_equals(method.as_str(), "HEAD") {
        HttpVerb::Head
    } else {
        HttpVerb::Get
    };
    Ok(RunTestPlan { endpoint_id, url, method, verb, request_number, timeout_ms })
}

/// What became of the HTTP request of a test.
pub enum HttpOutcome {
    /// A response arrived with this status after `elapsed_ms`.
    Responded { status: u16, elapsed_ms: i64 },
    /// The time limit passed first.
    TimedOut,
    /// The request failed otherwise, with this message.
    Failed(String),
}

/// The result a worker reports for a test.
pub enum RunTestReport {
    Completed {
        endpoint_id: String,
        request_number: i32,
        status_code: i64,
        response_time_ms: i64,
        response_file: String,
    },
    TimedOut { endpoint_id: String, request_number: i32 },
}

/// The report for a test: a completed test names the file its response
/// body is stored in; a timeout is reported as such; any other failure is an
/// error `HTTP request failed: {message}`.
pub fn report_run_test(plan: &RunTestPlan, outcome: HttpOutcome) -> (r: Result<RunTestReport, String>)
    ensures
        outcome is Failed ==> r is Err && r->Err_0@ == "HTTP request failed: "@ + outcome->Failed_0@,
        outcome is TimedOut ==> r is Ok && r->Ok_0 is TimedOut
            && r->Ok_0->TimedOut_endpoint_id == plan.endpoint_id
            && r->Ok_0->TimedOut_request_number == plan.request_number,
        outcome is Responded ==> r is Ok && r->Ok_0 is Completed
            && r->Ok_0->Completed_endpoint_id == plan.endpoint_id
            && r->Ok_0->Completed_request_number == plan.request_number
            && r->Ok_0->status_code == outcome->status as i64
            && r->Ok_0->response_time_ms == outcome->elapsed_ms
            && r->Ok_0->response_file@ == numbered_file(endpoint_dir(plan.endpoint_id@), "response"@, plan.request_number),
{
    match outcome {
        HttpOutcome::Responded { status, elapsed_ms } => Ok(RunTestReport::Completed {
            endpoint_id: plan.endpoint_id.clone(),
            request_number: plan.request_number,
            status_code: status as i64,
            response_time_ms: elapsed_ms,
            response_file: response_file_path(plan.endpoint_id.as_str(), plan.request_number),
        }),
        HttpOutcome::TimedOut => Ok(RunTestReport::TimedOut {
            endpoint_id: plan.endpoint_id.clone(),
            request_number: plan.request_number,
        }),
        HttpOutcome::Failed(message) => Err(String::from_str("HTTP request failed: ").concat(message.as_str())),
    }
}

/// The result of a folder task (a placeholder): the folder and a status.
pub struct FolderTaskResult {
    pub folder: String,
    pub status: String,
}

/// The export task: the collection named in the payload (`unknown` when
/// absent) with the status `export_placeholder`.
pub fn export_task(collection: Option<&str>) -> (r: FolderTaskResult)
    ensures
        r.folder@ == (match collection { Some(c) => c@, None => "unknown"@ }),
        r.status@ == "export_placeholder"@,
{
    let folder = match collection {
        Some(c) => String::from_str(c),
        None => String::from_str("unknown"),
    };
    FolderTaskResult { folder, status: String::from_str("export_placeholder") }
}

/// The delete or merge task: the folder named in the payload, required, with
/// the status `delete_placeholder` or `merge_placeholder`.
pub fn folder_task(folder: Option<&str>, merge: bool) -> (r: Result<FolderTaskResult, String>)
    ensures
        folder is None ==> r is Err && r->Err_0@ == "missing folder"@,
        folder is Some ==> r is Ok && r->Ok_0.folder@ == folder->Some_0@
            && r->Ok_0.status@ == (if merge { "merge_placeholder"@ } else { "delete_placeholder"@ }),
{
    match folder {
        Some(f) => Ok(FolderTaskResult {
            folder: String::from_str(f),
            status: if merge { String::from_str("merge_placeholder") } else { String::from_str("delete_placeholder") },
        }),
        None => Err(String::from_str("missing folder")),
    }
}

/// Where a worker posts its report: the service on the local host at `port`.
pub fn callback_url(port: u16) -> (s: String)
    ensures
        s@ == "http://127.0.0.1:"@ + decimal(port as nat) + "/internal/callback"@,
{
    let mut s = String::from_str("http://127.0.0.1:");
    push_decimal(&mut s, port as u64);
    s.append("/internal/callback");
    s
}

} // verus!
