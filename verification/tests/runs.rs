use edms::callback::{callback_outcome, run_test_event, CallbackStatus, IpcCallback, RunTestFields};
use edms::error::EdmsError;
use edms::events::ServerEvent;
use edms::handlers::{bookmark_input, collection_load_events, count_or_zero, dashboard_counts, endpoint_id_from_message, endpoint_id_from_parsed, hello_message, history_input};
use edms::json::{check_json_file_format, check_json_format, is_valid_json, is_valid_json_file};
use edms::queries::{QueryConfig, QueryMap};
use edms::sql::SqlValue;
use edms::statements::EndpointDto;
use edms::test_run::{run_failure_event, RunCommand, RunReply, RunStep, TestRun};
use edms::timer::{TimerConfig, TimerRun, TimerSignal};
use edms::worker::{
    callback_url, classify_task, export_task, folder_task, plan_run_test, report_run_test, unknown_task_error, ChildTask,
    HttpOutcome, HttpVerb, RunTestPayload, RunTestReport,
};

fn fields() -> RunTestFields {
    RunTestFields {
        endpoint_id: Some("ep".into()),
        request_number: Some(4),
        timed_out: Some(false),
        status_code: Some(201),
        response_time_ms: Some(35),
        response_file: Some("edms_data/ep/response-004.json".into()),
    }
}

#[test]
fn timer_ticks_then_times_out() {
    let cfg = TimerConfig::default();
    assert_eq!((cfg.limit_ms, cfg.tick_interval_ms), (30_000, 500));
    let c = TimerConfig::from_request(0, 0);
    assert_eq!((c.limit_ms, c.tick_interval_ms), (30_000, 500));
    let c = TimerConfig::from_request(1000, 100);
    assert_eq!((c.limit_ms, c.tick_interval_ms), (1000, 100));
    let mut t = TimerRun::new("ep", 3, &c);
    let evs = t.on_tick(400);
    assert_eq!(
        evs,
        vec![ServerEvent::TimerTick { endpoint_id: "ep".into(), request_number: 3, elapsed_ms: 400, remaining_ms: 600, limit_ms: 1000 }]
    );
    assert!(!t.finished);
    let evs = t.on_tick(1200);
    assert_eq!(
        evs,
        vec![
            ServerEvent::TimerTick { endpoint_id: "ep".into(), request_number: 3, elapsed_ms: 1200, remaining_ms: 0, limit_ms: 1000 },
            ServerEvent::TestTimeout { endpoint_id: "ep".into(), request_number: 3 },
        ]
    );
    assert!(t.finished);
}

#[test]
fn timer_cancel_reports_elapsed() {
    let mut t = TimerRun::new("ep", 1, &TimerConfig::from_request(1000, 10));
    let e = t.on_cancel(77);
    assert_eq!(e, ServerEvent::TimerCancelled { endpoint_id: "ep".into(), request_number: 1, elapsed_ms: 77 });
    assert!(t.finished);
    let mut exact = TimerRun::new("ep", 1, &TimerConfig::from_request(1000, 10));
    assert_eq!(exact.on_tick(1000).len(), 2);
}

#[test]
fn failed_callback_is_broadcast_as_error() {
    let cb = IpcCallback { task: "run_test".into(), result: fields(), elapsed_ms: 3, success: false, error: Some("timeout".into()) };
    let o = callback_outcome(&cb);
    assert_eq!(o.status, CallbackStatus::ErrorNoted);
    assert_eq!(o.event, Some(ServerEvent::Error { message: "IPC task 'run_test' failed: timeout".into() }));
    let cb = IpcCallback { task: "export".into(), result: fields(), elapsed_ms: 3, success: false, error: None };
    assert_eq!(callback_outcome(&cb).event, Some(ServerEvent::Error { message: "IPC task 'export' failed: unknown error".into() }));
}

#[test]
fn run_test_callback_events() {
    let cb = IpcCallback { task: "run_test".into(), result: fields(), elapsed_ms: 3, success: true, error: None };
    let o = callback_outcome(&cb);
    assert_eq!(o.status, CallbackStatus::Received);
    assert_eq!(
        o.event,
        Some(ServerEvent::TestFinished {
            endpoint_id: "ep".into(),
            request_number: 4,
            status_code: 201,
            response_time_ms: 35,
            response_file: "edms_data/ep/response-004.json".into(),
        })
    );
    let mut timed = fields();
    timed.timed_out = Some(true);
    assert_eq!(run_test_event(&timed), ServerEvent::TestTimeout { endpoint_id: "ep".into(), request_number: 4 });
    let empty = RunTestFields { endpoint_id: None, request_number: Some(4294967297), timed_out: None, status_code: None, response_time_ms: None, response_file: None };
    assert_eq!(
        run_test_event(&empty),
        ServerEvent::TestFinished { endpoint_id: "".into(), request_number: 1, status_code: 0, response_time_ms: 0, response_file: "".into() }
    );
    let other = IpcCallback { task: "export".into(), result: fields(), elapsed_ms: 1, success: true, error: None };
    let o = callback_outcome(&other);
    assert_eq!((o.event, o.status), (None, CallbackStatus::Received));
}

#[test]
fn worker_reads_run_payload() {
    let p = RunTestPayload { endpoint_id: Some("ep".into()), url: Some("http://h".into()), method: Some("post".into()), request_number: Some(9), timeout_ms: None };
    let plan = plan_run_test(&p).unwrap();
    assert_eq!(plan.method, "POST");
    assert_eq!(plan.verb, HttpVerb::Post);
    assert!(plan.verb.sends_body());
    assert_eq!(plan.timeout_ms, 30_000);
    assert_eq!(plan.request_number, 9);
    let get = RunTestPayload { method: None, timeout_ms: Some(5), ..p_clone(&p) };
    let plan = plan_run_test(&get).unwrap();
    assert_eq!((plan.method.as_str(), plan.verb, plan.timeout_ms), ("GET", HttpVerb::Get, 5));
    assert!(!plan.verb.sends_body());
    let odd = RunTestPayload { method: Some("options".into()), ..p_clone(&p) };
    assert_eq!(plan_run_test(&odd).unwrap().verb, HttpVerb::Get);
    for (m, v) in [("put", HttpVerb::Put), ("Delete", HttpVerb::Delete), ("patch", HttpVerb::Patch), ("head", HttpVerb::Head)] {
        let q = RunTestPayload { method: Some(m.into()), ..p_clone(&p) };
        assert_eq!(plan_run_test(&q).unwrap().verb, v);
    }
    assert_eq!(plan_run_test(&RunTestPayload { endpoint_id: None, url: None, ..p_clone(&p) }).err().unwrap(), "missing endpoint_id");
    assert_eq!(plan_run_test(&RunTestPayload { url: None, ..p_clone(&p) }).err().unwrap(), "missing url");
    assert_eq!(plan_run_test(&RunTestPayload { request_number: None, ..p_clone(&p) }).err().unwrap(), "missing request_number");
}

fn p_clone(p: &RunTestPayload) -> RunTestPayload {
    RunTestPayload {
        endpoint_id: p.endpoint_id.clone(),
        url: p.url.clone(),
        method: p.method.clone(),
        request_number: p.request_number,
        timeout_ms: p.timeout_ms,
    }
}

#[test]
fn worker_reports() {
    let p = RunTestPayload { endpoint_id: Some("ep".into()), url: Some("u".into()), method: None, request_number: Some(2), timeout_ms: None };
    let plan = plan_run_test(&p).unwrap();
    match report_run_test(&plan, HttpOutcome::Responded { status: 404, elapsed_ms: 12 }).unwrap() {
        RunTestReport::Completed { endpoint_id, request_number, status_code, response_time_ms, response_file } => {
            assert_eq!((endpoint_id.as_str(), request_number, status_code, response_time_ms), ("ep", 2, 404, 12));
            assert_eq!(response_file, "edms_data/ep/response-002.json");
        }
        _ => panic!("expected a completed report"),
    }
    assert!(matches!(report_run_test(&plan, HttpOutcome::TimedOut).unwrap(), RunTestReport::TimedOut { request_number: 2, .. }));
    assert_eq!(report_run_test(&plan, HttpOutcome::Failed("refused".into())).err().unwrap(), "HTTP request failed: refused");
}

#[test]
fn worker_tasks() {
    assert_eq!(classify_task("run_test"), ChildTask::RunTest);
    assert_eq!(classify_task("export"), ChildTask::Export);
    assert_eq!(classify_task("delete_folder"), ChildTask::DeleteFolder);
    assert_eq!(classify_task("merge_folder"), ChildTask::MergeFolder);
    assert_eq!(classify_task("Run_Test"), ChildTask::Unknown);
    assert_eq!(unknown_task_error("zip"), "Unknown task: zip");
    let e = export_task(None);
    assert_eq!((e.folder.as_str(), e.status.as_str()), ("unknown", "export_placeholder"));
    let d = folder_task(Some("f"), false).ok().unwrap();
    assert_eq!((d.folder.as_str(), d.status.as_str()), ("f", "delete_placeholder"));
    let m = folder_task(Some("f"), true).ok().unwrap();
    assert_eq!(m.status, "merge_placeholder");
    assert_eq!(folder_task(None, true).err().unwrap(), "missing folder");
    assert_eq!(callback_url(3000), "http://127.0.0.1:3000/internal/callback");
}

#[test]
fn request_fields_and_answers() {
    let h = history_input(None, None, None);
    assert_eq!((h.endpoint_id.as_str(), h.action.as_str(), h.details), ("", "test", None));
    let h = history_input(Some("e"), Some("run"), Some("d"));
    assert_eq!((h.endpoint_id.as_str(), h.action.as_str(), h.details.as_deref()), ("e", "run", Some("d")));
    assert_eq!(bookmark_input(Some("e"), None), ("e".to_string(), None));
    assert_eq!(endpoint_id_from_parsed("  ep9 \n", None), "ep9");
    assert_eq!(endpoint_id_from_parsed("{}", Some(None)), "");
    assert_eq!(endpoint_id_from_parsed("{\"endpoint_id\":\"x\"}", Some(Some("x".to_string()))), "x");
    assert_eq!(endpoint_id_from_message("  ep9 \n"), "ep9");
    assert_eq!(endpoint_id_from_message("{}"), "");
    assert_eq!(endpoint_id_from_message("[1, 2]"), "");
    assert_eq!(endpoint_id_from_message("{\"endpoint_id\": 5}"), "");
    assert_eq!(endpoint_id_from_message(" {\"endpoint_id\": \"ep-4\", \"x\": 1} "), "ep-4");
    assert_eq!(endpoint_id_from_message("\u{3000}\tep 7\u{2028}"), "ep 7");
    assert_eq!(hello_message("Ada"), "Hello, Ada!");
    assert_eq!(count_or_zero(&Err(EdmsError::UnknownError)), 0);
    assert_eq!(dashboard_counts(&Ok(3), &Err(EdmsError::SqliteFileLocked), &Ok(7)), (3, 0, 7));
}

#[test]
fn json_checks() {
    assert_eq!(check_json_format("{\"a\": [1, 2]}"), 0);
    assert_eq!(check_json_format("{\"a\": }"), -1);
    assert!(is_valid_json("true").is_ok());
    match is_valid_json("nope") {
        Err(EdmsError::InvalidJson(m)) => assert!(m.starts_with("expected ident at line 1"), "{m}"),
        _ => panic!("expected InvalidJson"),
    }
    match is_valid_json_file(Ok("{\"a\": }".into())) {
        Err(EdmsError::InvalidJson(m)) => assert!(m.starts_with("expected value at line 1"), "{m}"),
        _ => panic!("expected InvalidJson"),
    }
    assert_eq!(check_json_file_format(Ok("[]".into())), 0);
    assert_eq!(check_json_file_format(Ok("[".into())), -1);
    assert_eq!(check_json_file_format(Err(EdmsError::IoError("missing".into()))), -1);
    assert!(matches!(is_valid_json_file(Err(EdmsError::IoError("m".into()))), Err(EdmsError::IoError(_))));
}

fn run_catalogue() -> QueryMap {
    let mut q = QueryMap::new();
    let c = |s: &str| QueryConfig { help: String::new(), query: s.into() };
    q.endpoints.insert("E2".into(), c("SELECT * FROM endpoints WHERE endpoint_id = ?"));
    q.requests.insert("R6".into(), c("SELECT MAX(request_number) FROM request_metadata WHERE endpoint_id = ?"));
    q.requests.insert("R1".into(), c("INSERT INTO request_metadata VALUES (?, ?, ?, ?)"));
    q
}

#[test]
fn test_run_allocates_records_and_launches() {
    let q = run_catalogue();
    let timer = TimerConfig::from_request(5000, 250);
    let (mut run, step) = TestRun::begin(&q, "ep", "post", timer);
    assert!(matches!(step, RunStep::Run(RunCommand::FindEndpoint(ref s)) if s.params == vec![SqlValue::Text("ep".into())]));
    let ep = EndpointDto { endpoint_id: "ep".into(), endpoint_str: "http://svc/x".into(), annotation: None };
    let step = run.resume(&q, RunReply::Endpoints(vec![ep]));
    assert!(matches!(step, RunStep::Run(RunCommand::LatestNumber(_))));
    let step = run.resume(&q, RunReply::Numbers(vec![Some(6)]));
    match step {
        RunStep::Run(RunCommand::RecordRequest(s)) => assert_eq!(
            s.params,
            vec![
                SqlValue::Text("ep".into()),
                SqlValue::Integer(7),
                SqlValue::Text("edms_data/ep/request-007.json".into()),
                SqlValue::Text("POST".into()),
            ]
        ),
        _ => panic!("expected the record"),
    }
    match run.resume(&q, RunReply::Affected(1)) {
        RunStep::Launch(l) => {
            assert_eq!((l.url.as_str(), l.method.as_str(), l.request_number, l.timeout_ms()), ("http://svc/x", "POST", 7, 5000));
            assert_eq!(l.request_file, "edms_data/ep/request-007.json");
            assert_eq!(l.started_event(), ServerEvent::TestStarted { endpoint_id: "ep".into(), request_number: 7 });
        }
        _ => panic!("expected the launch"),
    }
}

#[test]
fn test_run_failures_are_unknown_errors() {
    let q = run_catalogue();
    let t = TimerConfig::default();
    let (mut run, _) = TestRun::begin(&q, "ep", "get", t);
    assert!(matches!(run.resume(&q, RunReply::Endpoints(vec![])), RunStep::Fail(EdmsError::UnknownError)));
    let (mut run, _) = TestRun::begin(&q, "ep", "get", t);
    assert!(matches!(run.resume(&q, RunReply::Failed(EdmsError::SqliteFileLocked)), RunStep::Fail(EdmsError::UnknownError)));
    let (_, step) = TestRun::begin(&QueryMap::new(), "ep", "get", t);
    assert!(matches!(step, RunStep::Fail(EdmsError::UnknownError)));
    let ep = EndpointDto { endpoint_id: "ep".into(), endpoint_str: "u".into(), annotation: None };
    let (mut run, _) = TestRun::begin(&q, "ep", "get", t);
    let _ = run.resume(&q, RunReply::Endpoints(vec![ep]));
    assert!(matches!(run.resume(&q, RunReply::Numbers(vec![Some(i32::MAX)])), RunStep::Fail(EdmsError::UnknownError)));
    assert_eq!(run_failure_event(&EdmsError::UnknownError), ServerEvent::Error { message: "UnknownError".into() });
}

fn drive_timer(t: &mut TimerRun, signals: &[TimerSignal]) -> Vec<ServerEvent> {
    let mut out = Vec::new();
    for s in signals {
        if t.finished {
            break;
        }
        match s {
            TimerSignal::Tick(e) => out.extend(t.on_tick(*e)),
            TimerSignal::Cancel(e) => out.push(t.on_cancel(*e)),
        }
    }
    out
}

#[test]
fn timer_stops_once_with_its_last_event() {
    let c = TimerConfig::from_request(1000, 250);
    let mut t = TimerRun::new("ep", 2, &c);
    let evs = drive_timer(&mut t, &[TimerSignal::Tick(250), TimerSignal::Tick(500), TimerSignal::Tick(1001), TimerSignal::Tick(1250), TimerSignal::Cancel(1300)]);
    assert_eq!(evs.len(), 4);
    assert_eq!(evs[3], ServerEvent::TestTimeout { endpoint_id: "ep".into(), request_number: 2 });
    assert!(matches!(evs[2], ServerEvent::TimerTick { elapsed_ms: 1001, remaining_ms: 0, .. }));
    let mut t = TimerRun::new("ep", 2, &c);
    let evs = drive_timer(&mut t, &[TimerSignal::Tick(250), TimerSignal::Cancel(300), TimerSignal::Tick(2000)]);
    assert_eq!(
        evs,
        vec![
            ServerEvent::TimerTick { endpoint_id: "ep".into(), request_number: 2, elapsed_ms: 250, remaining_ms: 750, limit_ms: 1000 },
            ServerEvent::TimerCancelled { endpoint_id: "ep".into(), request_number: 2, elapsed_ms: 300 },
        ]
    );
}

#[test]
fn collection_load_is_announced_then_counted() {
    assert_eq!(
        collection_load_events("saved", true, &Ok(4)),
        vec![
            ServerEvent::CollectionLoaded { collection: "saved".into(), moved_to_backup: true },
            ServerEvent::BookmarksUpdated { count: 4 },
        ]
    );
    assert_eq!(collection_load_events("s", false, &Err(EdmsError::UnknownError))[1], ServerEvent::BookmarksUpdated { count: 0 });
}
