//! Starting a test of an endpoint: find the endpoint, allocate the request
//! number, record the request, then launch the timer and the worker. Each
//! database step is a command for the application; any failure ends the run
//! with `UnknownError`.

use vstd::prelude::*;
use crate::error::{EdmsError, error_debug_text};
use crate::events::ServerEvent;
use crate::paths::{endpoint_dir, numbered_file, request_file_path};
use crate::queries::{QueryMap, QueryConfig, query_text};
use crate::sql::{SqlStatement, SqlStatementView, SqlValueView};
use crate::statements::{EndpointDto, get_endpoint_statement, next_request_number_statement,
    insert_request_metadata_statement, next_number_after, next_number_from_rows};
use crate::text::{spec_uppercase, to_uppercase};
use crate::timer::TimerConfig;

verus! {

/// A database command of a test run.
pub enum RunCommand {
    /// Look the endpoint up; the rows are endpoints.
    FindEndpoint(SqlStatement),
    /// The highest request number so far; the rows are optional integers.
    LatestNumber(SqlStatement),
    /// Record the request; the reply is the number of rows changed.
    RecordRequest(SqlStatement),
}

pub enum RunCommandView {
    FindEndpoint(SqlStatementView),
    LatestNumber(SqlStatementView),
    RecordRequest(SqlStatementView),
}

impl View for RunCommand {
    type V = RunCommandView;

    open spec fn view(&self) -> RunCommandView {
        match self {
            RunCommand::FindEndpoint(s) => RunCommandView::FindEndpoint(s@),
            RunCommand::LatestNumber(s) => RunCommandView::LatestNumber(s@),
            RunCommand::RecordRequest(s) => RunCommandView::RecordRequest(s@),
        }
    }
}

/// The database's answer to a run command.
pub enum RunReply {
    Endpoints(Vec<EndpointDto>),
    Numbers(Vec<Option<i32>>),
    Affected(usize),
    Failed(EdmsError),
}

/// What to launch once the request is recorded: store the request body in
/// `request_file` (the path recorded with the request), announce the start,
/// start the timer for `request_number` with `timer`, and hand the worker the
/// request.
pub struct TestLaunch {
    pub endpoint_id: String,
    pub url: String,
    pub method: String,
    pub request_number: i32,
    pub request_file: String,
    pub timer: TimerConfig,
}

impl TestLaunch {
    /// The event that announces the start of the test.
    pub fn started_event(&self) -> (e: ServerEvent)
        ensures
            e == (ServerEvent::TestStarted { endpoint_id: self.endpoint_id, request_number: self.request_number }),
    {
        ServerEvent::TestStarted { endpoint_id: self.endpoint_id.clone(), request_number: self.request_number }
    }

    /// The time limit handed to the worker: the timer's limit.
    pub fn timeout_ms(&self) -> (t: u64)
        ensures
            t == self.timer.limit_ms,
    {
        self.timer.limit_ms
    }
}

pub struct TestLaunchView {
    pub endpoint_id: Seq<char>,
    pub url: Seq<char>,
    pub method: Seq<char>,
    pub request_number: i32,
    pub request_file: Seq<char>,
    pub timer: TimerConfig,
}

impl View for TestLaunch {
    type V = TestLaunchView;

    open spec fn view(&self) -> TestLaunchView {
        TestLaunchView {
            endpoint_id: self.endpoint_id@,
            url: self.url@,
            method: self.method@,
            request_number: self.request_number,
            request_file: self.request_file@,
            timer: self.timer,
        }
    }
}

/// The next move of a test run.
pub enum RunStep {
    Run(RunCommand),
    Launch(TestLaunch),
    Fail(EdmsError),
}

pub enum RunStepView {
    Run(RunCommandView),
    Launch(TestLaunchView),
    Fail(EdmsError),
}

impl View for RunStep {
    type V = RunStepView;

    open spec fn view(&self) -> RunStepView {
        match self {
            RunStep::Run(c) => RunStepView::Run(c@),
            RunStep::Launch(l) => RunStepView::Launch(l@),
            RunStep::Fail(e) => RunStepView::Fail(*e),
        }
    }
}

#[derive(Clone, Copy, PartialEq, Eq, Debug)]
pub enum RunPhase {
    Find,
    Number,
    Record,
    Finished,
}

/// A test run of `endpoint_id` with the request method `method`.
pub struct TestRun {
    pub endpoint_id: String,
    pub method: String,
    pub timer: TimerConfig,
    pub phase: RunPhase,
    pub url: String,
    pub request_number: i32,
}

pub open spec fn failed() -> RunStepView {
    RunStepView::Fail(EdmsError::UnknownError)
}

/// The replies a waiting run accepts.
pub open spec fn run_accepts(phase: RunPhase, r: &RunReply) -> bool {
    match phase {
        RunPhase::Find => r is Endpoints || r is Failed,
        RunPhase::Number => r is Numbers || r is Failed,
        RunPhase::Record => r is Affected || r is Failed,
        RunPhase::Finished => false,
    }
}

/// A waiting run takes the proper answer to each command it issues: every
/// endpoint list while it looks the endpoint up, every number list while it
/// allocates the request number, every row count while it records the
/// request, and a failure at any of these steps; a finished run takes
/// nothing.
pub proof fn law_run_accepts_proper_replies(phase: RunPhase, r: RunReply)
    ensures
        phase == RunPhase::Find ==> (run_accepts(phase, &r) <==> (r is Endpoints || r is Failed)),
        phase == RunPhase::Number ==> (run_accepts(phase, &r) <==> (r is Numbers || r is Failed)),
        phase == RunPhase::Record ==> (run_accepts(phase, &r) <==> (r is Affected || r is Failed)),
        phase == RunPhase::Finished ==> !run_accepts(phase, &r),
{
}

/// The statement that records request `n` of the run.
pub open spec fn record_view(requests: Map<Seq<char>, QueryConfig>, endpoint_id: Seq<char>, n: i32, method: Seq<char>) -> Option<SqlStatementView> {
    match query_text(requests, "R1"@) {
        Some(q) => Some(SqlStatementView {
            sql: q,
            params: seq![
                SqlValueView::Text(endpoint_id),
                SqlValueView::Integer(n as int),
                SqlValueView::Text(numbered_file(endpoint_dir(endpoint_id), "request"@, n)),
                SqlValueView::Text(method),
            ],
        }),
        None => None,
    }
}

impl TestRun {
    /// Starts a run: look the endpoint up with `E2`, or fail when the
    /// catalogue has no such query. The method is upper-cased.
    pub fn begin(queries: &QueryMap, endpoint_id: &str, method: &str, timer: TimerConfig) -> (r: (TestRun, RunStep))
        ensures
            r.0.endpoint_id@ == endpoint_id@,
            r.0.method@ == spec_uppercase(method@),
            r.0.timer == timer,
            match query_text(queries.endpoints@, "E2"@) {
                Some(q) => r.0.phase == RunPhase::Find && r.1@ == RunStepView::Run(RunCommandView::FindEndpoint(
                    SqlStatementView { sql: q, params: seq![SqlValueView::Text(endpoint_id@)] })),
                None => r.0.phase == RunPhase::Finished && r.1@ == failed(),
            },
    {
        let mut run = TestRun {
            endpoint_id: String::from_str(endpoint_id),
            method: to_uppercase(method),
            timer,
            phase: RunPhase::Find,
            url: String::new(),
            request_number: 0,
        };
        match get_endpoint_statement(queries, endpoint_id) {
            Ok(st) => (run, RunStep::Run(RunCommand::FindEndpoint(st))),
            Err(_) => {
                run.phase = RunPhase::Finished;
                (run, RunStep::Fail(EdmsError::UnknownError))
            },
        }
    }

    /// Whether the run is waiting for `reply`.
    pub fn accepts(&self, reply: &RunReply) -> (b: bool)
        ensures
            b == run_accepts(self.phase, reply),
    {
        match (self.phase, reply) {
            (RunPhase::Find, RunReply::Endpoints(_)) => true,
            (RunPhase::Number, RunReply::Numbers(_)) => true,
            (RunPhase::Record, RunReply::Affected(_)) => true,
            (RunPhase::Finished, _) => false,
            (_, RunReply::Failed(_)) => true,
            _ => false,
        }
    }

    fn fail(&mut self) -> (step: RunStep)
        ensures
            final(self).endpoint_id == old(self).endpoint_id,
            final(self).method == old(self).method,
            final(self).timer == old(self).timer,
            final(self).url == old(self).url,
            final(self).request_number == old(self).request_number,
            final(self).phase == RunPhase::Finished,
            step@ == failed(),
    {
        self.phase = RunPhase::Finished;
        RunStep::Fail(EdmsError::UnknownError)
    }

    /// Takes the reply to the last command and decides the next move.
    pub fn resume(&mut self, queries: &QueryMap, reply: RunReply) -> (step: RunStep)
        requires
            run_accepts(old(self).phase, &reply),
        ensures
            final(self).endpoint_id == old(self).endpoint_id,
            final(self).method == old(self).method,
            final(self).timer == old(self).timer,
            reply is Failed ==> step@ == failed(),
            step is Launch ==> old(self).phase == RunPhase::Record && reply is Affected,
            step is Fail ==> step@ == failed() && final(self).phase == RunPhase::Finished,
            old(self).phase == RunPhase::Find && reply is Endpoints ==> {
                let rows = reply->Endpoints_0@;
                if rows.len() == 0 {
                    step@ == failed()
                } else {
                    final(self).url == rows[0].endpoint_str
                    && match query_text(queries.requests@, "R6"@) {
                        Some(q) => final(self).phase == RunPhase::Number && step@ == RunStepView::Run(RunCommandView::LatestNumber(
                            SqlStatementView { sql: q, params: seq![SqlValueView::Text(old(self).endpoint_id@)] })),
                        None => step@ == failed(),
                    }
                }
            },
            old(self).phase == RunPhase::Number && reply is Numbers ==> {
                let rows = reply->Numbers_0@;
                if rows.len() > 0 && rows[0] == Some(i32::MAX) {
                    step@ == failed()
                } else {
                    final(self).request_number as int == next_number_after(rows)
                    && final(self).url == old(self).url
                    && match record_view(queries.requests@, old(self).endpoint_id@, final(self).request_number, old(self).method@) {
                        Some(st) => final(self).phase == RunPhase::Record && step@ == RunStepView::Run(RunCommandView::RecordRequest(st)),
                        None => step@ == failed(),
                    }
                }
            },
            old(self).phase == RunPhase::Record && reply is Affected ==>
                final(self).phase == RunPhase::Finished && step@ == RunStepView::Launch(TestLaunchView {
                    endpoint_id: old(self).endpoint_id@,
                    url: old(self).url@,
                    method: old(self).method@,
                    request_number: old(self).request_number,
                    request_file: numbered_file(endpoint_dir(old(self).endpoint_id@), "request"@, old(self).request_number),
                    timer: old(self).timer,
                }),
    {
        match reply {
            RunReply::Failed(_) => self.fail(),
            RunReply::Endpoints(rows) => {
                if rows.len() == 0 {
                    return self.fail();
                }
                self.url = rows[0].endpoint_str.clone();
                match next_request_number_statement(queries, self.endpoint_id.as_str()) {
                    Ok(st) => {
                        self.phase = RunPhase::Number;
                        RunStep::Run(RunCommand::LatestNumber(st))
                    },
                    Err(_) => self.fail(),
                }
            },
            RunReply::Numbers(rows) => {
                if rows.len() > 0 && rows[0] == Some(i32::MAX) {
                    return self.fail();
                }
                let n = next_number_from_rows(&rows);
                self.request_number = n;
                let file = request_file_path(self.endpoint_id.as_str(), n);
                match insert_request_metadata_statement(queries, self.endpoint_id.as_str(), n, file.as_str(), self.method.as_str()) {
                    Ok(st) => {
                        self.phase = RunPhase::Record;
                        RunStep::Run(RunCommand::RecordRequest(st))
                    },
                    Err(_) => self.fail(),
                }
            },
            RunReply::Affected(_) => {
                self.phase = RunPhase::Finished;
                RunStep::Launch(TestLaunch {
                    endpoint_id: self.endpoint_id.clone(),
                    url: self.url.clone(),
                    method: self.method.clone(),
                    request_number: self.request_number,
                    request_file: request_file_path(self.endpoint_id.as_str(), self.request_number),
                    timer: self.timer,
                })
            },
        }
    }
}

/// The error event that reports a failed test run: the error's `Debug` text.
pub fn run_failure_event(e: &EdmsError) -> (ev: ServerEvent)
    ensures
        ev is Error && ev->message@ == error_debug_text(*e),
{
    ServerEvent::Error { message: e.debug_text() }
}

} // verus!
