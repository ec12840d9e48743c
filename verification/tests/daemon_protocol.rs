use plato_agent::daemon::client::{
    CONTROL_RESPONSE_LIMIT, ClientRequest, DaemonClient, DaemonConnectionConfig,
};
use plato_agent::daemon::handlers::{
    IssuePrepOptions, Method, capabilities, decide_shutdown, empty_params, error_response,
    finish_issue_prep, handle_hello, handle_issue_prep_start, handle_message_append,
    handle_request, handle_shutdown_if_idle, handle_with_params, run_failed_response,
    shutting_down_response, transcript_error_code,
};
use plato_agent::app::session::{RunLedger, RunSession};
use plato_agent::cli::{needs_workspace_lock, run_ledger};
use plato_agent::daemon::lock::{
    LOCK_FILE_MODE, LockAction, LockAttempt, LockConflict, LockEnd, LockFacts, LockMetadata,
    LockSeen, PathFacts, ensure_workspace_unlocked, lock_conflict_error, validate_unix_lock_file,
};
use plato_agent::daemon::protocol::{
    ApprovalDecision, ApprovalDecisionName, ERROR_DAEMON_SHUTTING_DOWN, ERROR_MALFORMED_REQUEST,
    ERROR_UNSUPPORTED_METHOD, ERROR_UNSUPPORTED_VERSION, ERROR_WORKSPACE_MISMATCH, Envelope,
    EnvelopeKind, HelloParams, IssuePrepResult, IssuePrepStartParams, PROTOCOL_VERSION,
    ProtocolError, RunStateName, ShutdownIfIdleResultName, TranscriptReadParams,
    TypedTranscriptEntry, decode_request,
};
use plato_agent::daemon::runtime::DaemonRuntime;
use plato_agent::daemon::transcripts::{
    ReadbackEntry, SessionRunRecords, StoredSession, TranscriptOf, handle_sessions_list,
    handle_transcript_read, latest_question_preview, read_run_transcript, read_session_transcript,
    transcript_target, typed_entries, typed_run,
};
use plato_agent::daemon::{DaemonPaths, DefaultPaths};
use plato_agent::error::{AppError, IoKind};
use plato_agent::json::JsonPart;

fn request(v: u32, method: Option<&str>) -> Envelope {
    Envelope {
        v,
        id: Some("req_1".into()),
        kind: EnvelopeKind::Request,
        method: method.map(str::to_string),
        params: Some("{}".into()),
        result: None,
        error: None,
    }
}

fn code(envelope: Envelope) -> String {
    assert_eq!(envelope.kind, EnvelopeKind::Error);
    envelope.error.unwrap().code
}

fn paths() -> DaemonPaths {
    DaemonPaths::resolve(
        "/work".to_string(),
        "work-1".to_string(),
        None,
        DefaultPaths {
            socket_path: "/run/agent.sock".to_string(),
            lock_path: "/run/agent.lock".to_string(),
            ledger_path: "/state/agent.db".to_string(),
        },
    )
}

fn runtime() -> DaemonRuntime {
    DaemonRuntime::new(paths())
}

#[test]
fn run_state_names_keep_wire_values() {
    for (state, wire_value) in [
        (RunStateName::Running, "running"),
        (RunStateName::Finished, "finished"),
        (RunStateName::Failed, "failed"),
        (RunStateName::Canceled, "canceled"),
        (RunStateName::CancelRequested, "cancel_requested"),
        (RunStateName::Interrupted, "interrupted"),
    ] {
        assert_eq!(state.as_str(), wire_value);
    }
}

#[test]
fn decodes_request_envelope() {
    let mut sent = request(1, Some("hello"));
    sent.params = Some(r#"{"workspace_root":"/tmp/work","workspace_id":"work-1234"}"#.into());
    let envelope = decode_request(Ok(sent)).unwrap();
    assert_eq!(envelope.id.as_deref(), Some("req_1"));
    assert_eq!(envelope.method.as_deref(), Some("hello"));
}

#[test]
fn rejects_unsupported_version_with_typed_error() {
    let error = decode_request(Ok(request(2, Some("hello")))).unwrap_err();
    assert_eq!(code(error), ERROR_UNSUPPORTED_VERSION);
}

#[test]
fn rejects_what_is_no_request() {
    assert_eq!(
        code(decode_request(Err("no json".to_string())).unwrap_err()),
        ERROR_MALFORMED_REQUEST
    );
    let mut response = request(1, Some("hello"));
    response.kind = EnvelopeKind::Response;
    assert_eq!(
        code(decode_request(Ok(response)).unwrap_err()),
        ERROR_MALFORMED_REQUEST
    );
}

#[test]
fn response_carries_no_request_params() {
    let response = Envelope::response(
        Some("req_1".into()),
        Some("hello".into()),
        r#"{"workspace_id":"work-1234"}"#.to_string(),
    );
    assert_eq!(response.v, PROTOCOL_VERSION);
    assert_eq!(response.params, None);
    assert_eq!(response.error, None);
    assert_eq!(
        response.result.as_deref(),
        Some(r#"{"workspace_id":"work-1234"}"#)
    );
}

#[test]
fn methods_are_found_by_their_names() {
    for (name, method) in [
        ("hello", Method::Hello),
        ("run.start", Method::RunStart),
        ("message.append", Method::MessageAppend),
        ("issue-prep.start", Method::IssuePrepStart),
        ("events.stream", Method::EventsStream),
        ("approval.decide", Method::ApprovalDecide),
        ("run.cancel", Method::RunCancel),
        ("sessions.list", Method::SessionsList),
        ("daemon.shutdown_if_idle", Method::ShutdownIfIdle),
        ("transcript.read", Method::TranscriptRead),
    ] {
        assert_eq!(handle_request(None, Some(name.to_string())), Ok(method));
        assert_eq!(method.as_str(), name);
    }
    assert_eq!(
        code(handle_request(None, Some("nope".to_string())).unwrap_err()),
        ERROR_UNSUPPORTED_METHOD
    );
    assert!(handle_request(None, None).is_err());
    for name in ["hello", "run.start", "transcript.read"] {
        assert!(capabilities().contains(&name.to_string()));
    }
}

#[test]
fn parameters_must_be_there_and_make_sense() {
    assert_eq!(handle_with_params(None, Method::Hello, Some(Ok(7u8))), Ok(7));
    assert_eq!(
        code(
            handle_with_params::<u8>(None, Method::Hello, Some(Err("bad".to_string())))
                .unwrap_err()
        ),
        ERROR_MALFORMED_REQUEST
    );
    assert_eq!(
        code(handle_with_params::<u8>(None, Method::Hello, None).unwrap_err()),
        ERROR_MALFORMED_REQUEST
    );
    assert_eq!(
        code(shutting_down_response(None, Method::RunStart)),
        ERROR_DAEMON_SHUTTING_DOWN
    );
    assert_eq!(
        error_response(None, Method::RunStart, "x").kind,
        EnvelopeKind::Error
    );
}

#[test]
fn hello_is_for_the_right_workspace() {
    let runtime = runtime();
    let params = |id: &str| HelloParams {
        workspace_root: "/work".to_string(),
        workspace_id: id.to_string(),
    };
    let hello = handle_hello(
        &runtime,
        None,
        params("work-1"),
        Ok("/work".to_string()),
        "0.1.0".to_string(),
    )
    .unwrap();
    assert_eq!(hello.workspace_id, "work-1");
    assert_eq!(hello.ledger_path, "/state/agent.db");
    assert_eq!(hello.capabilities, capabilities());
    assert_eq!(
        code(
            handle_hello(
                &runtime,
                None,
                params("work-2"),
                Ok("/work".to_string()),
                "0.1.0".to_string()
            )
            .unwrap_err()
        ),
        ERROR_WORKSPACE_MISMATCH
    );
    assert_eq!(
        code(
            handle_hello(
                &runtime,
                None,
                params("work-1"),
                Ok("/other".to_string()),
                "0.1.0".to_string()
            )
            .unwrap_err()
        ),
        ERROR_WORKSPACE_MISMATCH
    );
}

/// What a client makes of a daemon's answer to its request, as JSON.
fn answered<P>(sent: &ClientRequest<P>, result: &str) -> serde_json::Value {
    let response = Envelope::response(
        Some(sent.id.clone()),
        Some(sent.method.as_str().to_string()),
        result.to_string(),
    );
    let decoded = DaemonClient::decode_response(sent.method, &sent.id, 1, Ok(response)).unwrap();
    serde_json::from_str(&decoded).unwrap()
}

#[test]
fn what_a_client_asks_is_what_the_daemon_takes() {
    for method in [Method::Hello, Method::RunStart, Method::ShutdownIfIdle] {
        let envelope =
            DaemonClient::request_envelope(method, "id_1", Some(r#"{"a":1}"#.to_string()));
        let taken = decode_request(Ok(envelope)).unwrap();
        assert_eq!(taken.id.as_deref(), Some("id_1"));
        assert_eq!(taken.params.as_deref(), Some(r#"{"a":1}"#));
        assert_eq!(handle_request(taken.id, taken.method), Ok(method));
    }
}

#[test]
fn client_sends_hello_and_sessions_requests() {
    let mut client = DaemonClient::connect();
    let hello = client.hello("/work".to_string(), "work-1".to_string());
    assert_eq!(hello.method.as_str(), "hello");
    let params = hello.params.as_ref().unwrap();
    assert_eq!(params.workspace_root, "/work");
    assert_eq!(params.workspace_id, "work-1");
    let greeted = answered(
        &hello,
        r#"{"daemon_version":"0.1.0","workspace_id":"work-1","ledger_path":"/tmp/agent.db","capabilities":["hello","sessions.list"]}"#,
    );
    assert_eq!(greeted["workspace_id"], "work-1");

    let sessions = client.sessions_list();
    assert_eq!(sessions.method.as_str(), "sessions.list");
    let listed = answered(
        &sessions,
        r#"{"sessions":[{"session_id":"run_1","run_id":"run_1","status":"finished","latest_question":"hello","ledger_path":"/tmp/agent.db"}]}"#,
    );
    let listed = listed["sessions"].as_array().unwrap();
    assert_eq!(listed.len(), 1);
    assert_eq!(listed[0]["session_id"], "run_1");
    assert_eq!(listed[0]["run_id"], "run_1");
    assert_eq!(listed[0]["status"], "finished");
    assert_eq!(listed[0]["latest_question"], "hello");
    assert_eq!(listed[0]["ledger_path"], "/tmp/agent.db");
}

#[test]
fn client_omits_shutdown_params_and_decodes_both_outcomes() {
    let mut client = DaemonClient::connect();
    for outcome in ["shutdown", "refused_active"] {
        let request = client.shutdown_if_idle();
        assert_eq!(request.method.as_str(), "daemon.shutdown_if_idle");
        assert!(request.params.is_none());
        let decoded = answered(&request, &format!(r#"{{"result":"{outcome}"}}"#));
        assert_eq!(decoded["result"], outcome);
    }
}

#[test]
fn the_daemon_shuts_down_only_when_idle() {
    let mut idle = runtime();
    assert_eq!(
        handle_shutdown_if_idle(&mut idle, None, None, &None)
            .unwrap()
            .result,
        ShutdownIfIdleResultName::Shutdown
    );
    assert_eq!(
        code(handle_shutdown_if_idle(&mut idle, None, None, &None).unwrap_err()),
        ERROR_DAEMON_SHUTTING_DOWN
    );
    let mut busy = runtime();
    busy.reserve_issue_prep().unwrap();
    assert_eq!(
        handle_shutdown_if_idle(&mut busy, None, None, &Some("{}".to_string()))
            .unwrap()
            .result,
        ShutdownIfIdleResultName::RefusedActive
    );
    assert!(decide_shutdown(&mut busy, None, None, false).is_err());
    assert!(handle_shutdown_if_idle(&mut busy, None, None, &Some(r#"{"a":1}"#.to_string())).is_err());
    assert!(empty_params(&None));
    assert!(empty_params(&Some(JsonPart::Object { is_empty: true })));
    assert!(!empty_params(&Some(JsonPart::Object { is_empty: false })));
}

fn answer(v: u32, id: Option<&str>, kind: EnvelopeKind) -> Envelope {
    Envelope {
        v,
        id: id.map(str::to_string),
        kind,
        method: Some("sessions.list".into()),
        params: None,
        result: None,
        error: None,
    }
}

fn decode(envelope: Envelope) -> Result<String, AppError> {
    DaemonClient::decode_response(Method::SessionsList, "id_1", 10, Ok(envelope))
}

#[test]
fn client_maps_protocol_errors() {
    let mut error = answer(1, Some("id_1"), EnvelopeKind::Error);
    error.error = Some(ProtocolError {
        code: "not_found".into(),
        message: "missing".into(),
    });
    assert_eq!(
        decode(error),
        Err(AppError::DaemonResponse(ProtocolError {
            code: "not_found".into(),
            message: "missing".into()
        }))
    );
}

#[test]
fn client_maps_eof_before_response_to_unexpected_eof_io() {
    assert_eq!(
        DaemonClient::decode_response(Method::SessionsList, "id_1", 0, Err("eof".to_string())),
        Err(AppError::Io {
            kind: IoKind::UnexpectedEof,
            message: "daemon connection closed before response".to_string()
        })
    );
}

#[test]
fn client_rejects_an_unsupported_response_protocol_version() {
    let mut response = Envelope::response(
        Some("id_1".into()),
        Some("sessions.list".into()),
        r#"{"sessions":[]}"#.to_string(),
    );
    response.v = PROTOCOL_VERSION + 1;
    assert_eq!(
        decode(response),
        Err(AppError::DaemonProtocol(
            "unsupported response protocol version: 2".to_string()
        ))
    );
}

#[test]
fn client_checks_every_part_of_an_answer() {
    let mut good = answer(1, Some("id_1"), EnvelopeKind::Response);
    good.result = Some("[]".to_string());
    assert_eq!(decode(good), Ok("[]".to_string()));
    let protocol = |message: &str| Err(AppError::DaemonProtocol(message.to_string()));
    assert_eq!(
        decode(answer(1, Some("a\"b"), EnvelopeKind::Response)),
        protocol("response id mismatch: expected id_1, got Some(\"a\\\"b\")")
    );
    assert_eq!(
        decode(answer(1, None, EnvelopeKind::Response)),
        protocol("response id mismatch: expected id_1, got None")
    );
    assert_eq!(
        decode(answer(1, Some("id_1"), EnvelopeKind::Response)),
        protocol("sessions.list response missing result")
    );
    assert_eq!(
        decode(answer(1, Some("id_1"), EnvelopeKind::Error)),
        protocol("sessions.list error missing payload")
    );
    assert_eq!(
        decode(answer(1, Some("id_1"), EnvelopeKind::Event)),
        protocol("sessions.list returned unexpected envelope kind Event")
    );
    assert_eq!(
        decode(answer(1, Some("id_1"), EnvelopeKind::Request)),
        protocol("sessions.list returned unexpected envelope kind Request")
    );
    assert_eq!(
        DaemonClient::decode_response(Method::Hello, "x", 1, Err("bad".to_string())),
        Err(AppError::Json("bad".to_string()))
    );
}

#[test]
fn client_sends_run_start_and_events_stream_requests() {
    let mut client = DaemonClient::connect();
    let start = client.run_start("summarize this".into(), Some("plato.toml".into()), false);
    assert_eq!(start.method.as_str(), "run.start");
    let params = start.params.as_ref().unwrap();
    assert_eq!(params.question, "summarize this");
    assert_eq!(params.config_path.as_deref(), Some("plato.toml"));
    assert_eq!(params.wait, Some(false));
    let run = answered(
        &start,
        r#"{"run_id":"run_1","session_id":"run_1","ledger_path":"/tmp/agent.db","status":"running","final_answer":null}"#,
    );
    assert_eq!(run["run_id"], "run_1");

    let events = client.events_stream(run["run_id"].as_str().unwrap(), Some(2), 16);
    assert_eq!(events.method.as_str(), "events.stream");
    let params = events.params.as_ref().unwrap();
    assert_eq!(params.run_id, "run_1");
    assert_eq!(params.from_offset, Some(2));
    assert_eq!(params.limit, Some(16));
    let page = answered(
        &events,
        r#"{"run_id":"run_1","from_offset":2,"next_offset":3,"status":"running","events":[{"offset":2,"event":{"kind":"test"}}]}"#,
    );
    assert_eq!(page["next_offset"], 3);
    assert_eq!(page["events"].as_array().unwrap().len(), 1);

    let tail = client.events_stream("run_1", None, 16);
    assert_eq!(tail.method.as_str(), "events.stream");
    assert_eq!(tail.params.as_ref().unwrap().from_offset, None);
    let page = answered(
        &tail,
        r#"{"run_id":"run_1","from_offset":3,"next_offset":3,"status":"finished","events":[]}"#,
    );
    assert_eq!(page["from_offset"], 3);
    assert!(page["events"].as_array().unwrap().is_empty());
}

#[test]
fn client_sends_issue_prep_start_request() {
    let mut client = DaemonClient::connect();
    let request = client.issue_prep_start("rough issue".into(), Some("plato.toml".into()));
    assert_eq!(request.method.as_str(), "issue-prep.start");
    assert_eq!(
        request.params,
        Some(IssuePrepStartParams {
            input: "rough issue".to_string(),
            config_path: Some("plato.toml".to_string())
        })
    );
    let result = answered(
        &request,
        r##"{"run_dir":"/work/.plato/issue-prep/run_1","outcome":{"status":"candidate","markdown":"# Prepared issue"}}"##,
    );
    assert_eq!(result["run_dir"], "/work/.plato/issue-prep/run_1");
    assert_eq!(result["outcome"]["status"], "candidate");
    assert_eq!(result["outcome"]["markdown"], "# Prepared issue");
}

#[test]
fn client_sends_session_transcript_and_message_append_requests() {
    let mut client = DaemonClient::connect();
    let request = client.transcript_read_session("session_1");
    assert_eq!(request.method.as_str(), "transcript.read");
    let params = request.params.as_ref().unwrap();
    assert_eq!(params.run_id, None);
    assert_eq!(params.session_id.as_deref(), Some("session_1"));
    let transcript = answered(
        &request,
        r#"{"run_id":"run_1","status":"finished","final_answer":"hello","transcript":"[turn_1] user: hello"}"#,
    );
    assert_eq!(transcript["run_id"], "run_1");
    assert_eq!(transcript["status"], "finished");
    assert_eq!(transcript["final_answer"], "hello");
    assert!(transcript["typed"].is_null());

    let append = client.message_append_to_session(
        "follow up".into(),
        Some("session_1".into()),
        Some("plato.toml".into()),
        false,
    );
    assert_eq!(append.method.as_str(), "message.append");
    let params = append.params.as_ref().unwrap();
    assert_eq!(params.message, "follow up");
    assert_eq!(params.session_id.as_deref(), Some("session_1"));
    assert_eq!(params.config_path.as_deref(), Some("plato.toml"));
    assert_eq!(params.wait, Some(false));
    let run = answered(
        &append,
        r#"{"run_id":"run_2","session_id":"session_1","ledger_path":"/tmp/agent.db","status":"running","final_answer":null}"#,
    );
    assert_eq!(run["session_id"], "session_1");
    assert_eq!(run["run_id"], "run_2");

    let of_run = client.transcript_read("run_1").params.unwrap();
    assert_eq!(of_run.run_id.as_deref(), Some("run_1"));
    assert_eq!(of_run.session_id, None);
}

#[test]
fn client_sends_approval_decisions_and_cancel_requests() {
    let mut client = DaemonClient::connect();
    let grant = client.approval_grant("run_1", "call_1");
    assert_eq!(grant.method.as_str(), "approval.decide");
    let params = grant.params.as_ref().unwrap();
    assert_eq!(params.run_id, "run_1");
    assert_eq!(params.tool_call_id, "call_1");
    assert_eq!(params.decision, ApprovalDecision::Grant);
    assert_eq!(params.reason, None);
    let granted = answered(&grant, r#"{"run_id":"run_1","status":"running"}"#);
    assert_eq!(granted["status"], "running");

    let deny = client.approval_deny("run_2", "call_2", "denied by plato-tui".into());
    assert_eq!(deny.method.as_str(), "approval.decide");
    let params = deny.params.as_ref().unwrap();
    assert_eq!(params.run_id, "run_2");
    assert_eq!(params.tool_call_id, "call_2");
    assert_eq!(params.decision, ApprovalDecision::Deny);
    assert_eq!(params.reason.as_deref(), Some("denied by plato-tui"));
    let denied = answered(&deny, r#"{"run_id":"run_2","status":"running"}"#);
    assert_eq!(denied["status"], "running");

    let cancel = client.run_cancel("run_3");
    assert_eq!(cancel.method.as_str(), "run.cancel");
    assert_eq!(cancel.params.as_ref().unwrap().run_id, "run_3");
    let canceled = answered(&cancel, r#"{"run_id":"run_3","status":"cancel_requested"}"#);
    assert_eq!(canceled["status"], "cancel_requested");
    assert_eq!(client.next_request_id(Method::RunStart), "run_start_4");
}

#[test]
fn lines_of_an_answer_are_read_in_pieces() {
    let mut line = Vec::new();
    let step =
        DaemonClient::read_line_until_deadline(Method::Hello, None, &mut line, &b"abc".to_vec())
            .unwrap();
    assert_eq!((step.consumed, step.done), (3, false));
    let step = DaemonClient::read_line_until_deadline(
        Method::Hello,
        None,
        &mut line,
        &b"d\nnext".to_vec(),
    )
    .unwrap();
    assert_eq!((step.consumed, step.done), (2, true));
    assert_eq!(line, b"abcd\n");
    let step =
        DaemonClient::read_line_until_deadline(Method::Hello, None, &mut line, &Vec::new()).unwrap();
    assert!(step.done);
    let mut short = Vec::new();
    let error = DaemonClient::read_line_until_deadline(
        Method::Hello,
        Some(2),
        &mut short,
        &b"abcdef".to_vec(),
    )
    .unwrap_err();
    assert_eq!(
        error,
        AppError::DaemonProtocol("hello response exceeds 2 bytes".to_string())
    );
    assert_eq!(short.len(), 3);
    assert_eq!(DaemonClient::read_limited_line(Method::Hello, 5, 5), Ok(5));
    assert!(DaemonClient::read_limited_line(Method::Hello, 5, 6).is_err());
    assert_eq!(
        DaemonClient::remaining(Method::Hello, 10, 4),
        Ok(6)
    );
    assert_eq!(
        DaemonClient::remaining(Method::Hello, 10, 10),
        Err(AppError::Io {
            kind: IoKind::TimedOut,
            message: "hello response timed out".to_string()
        })
    );
    assert_eq!(
        DaemonClient::connect_expected_server().response_limit,
        Some(CONTROL_RESPONSE_LIMIT)
    );
    assert_eq!(
        DaemonClient::connect_with_timeout(1, 5).response_deadline,
        Some(6)
    );
    assert_eq!(
        DaemonConnectionConfig::resolve("/w".to_string(), None, "/d.sock".to_string()).socket_path,
        "/d.sock"
    );
}

fn metadata() -> LockMetadata {
    LockMetadata {
        v: 1,
        pid: 7,
        executable: None,
        workspace_root: "/work".to_string(),
        workspace_id: "work-1".to_string(),
        socket_path: "/run/agent.sock".to_string(),
    }
}

fn facts() -> LockFacts {
    LockFacts {
        is_file: true,
        uid: 1000,
        mode: 0o100600,
        device: 1,
        inode: 2,
        at_path: Ok(PathFacts {
            is_symlink: false,
            device: 1,
            inode: 2,
        }),
    }
}

/// How an attempt on a lock ends after these observations.
fn ended(attempt: (LockAttempt, LockAction), seen: Vec<LockSeen>) -> LockEnd {
    let (mut attempt, mut action) = attempt;
    for one in seen {
        action = attempt.step(one);
    }
    match action {
        LockAction::Return(end) => end,
        other => panic!("{other:?}"),
    }
}

fn conflict_of(seen: Vec<LockSeen>) -> LockConflict {
    let attempt = LockAttempt::acquire("/run/agent.lock".to_string(), 1000);
    match ended(attempt, seen) {
        LockEnd::Conflict(conflict) => conflict,
        other => panic!("{other:?}"),
    }
}

fn busy() -> LockSeen {
    LockSeen::Failed {
        kind: IoKind::WouldBlock,
        message: "busy".to_string(),
    }
}

#[test]
fn lock_conflict_reports_owner_metadata() {
    let conflict = conflict_of(vec![
        LockSeen::Done,
        LockSeen::Done,
        LockSeen::Facts(facts()),
        busy(),
        LockSeen::Owner(Ok(metadata())),
    ]);
    assert!(conflict.owner_summary().contains("pid="));
    assert!(conflict.owner_summary().contains("workspace_id="));
    assert!(conflict.owner_summary().contains("socket_path="));
}

/// A daemon holds the lock of the workspace, and somebody wants to use this ledger directly.
fn error_under_a_held_lock(ledger: &RunLedger) -> AppError {
    assert!(needs_workspace_lock(ledger));
    lock_conflict_error(conflict_of(vec![
        LockSeen::Done,
        LockSeen::Done,
        LockSeen::Facts(facts()),
        busy(),
        LockSeen::Owner(Ok(metadata())),
    ]))
}

#[test]
fn default_sqlite_run_fails_closed_when_daemon_lock_exists() {
    let ledger = run_ledger(None, None, "/work", Ok("/state/agent.db".to_string())).unwrap();
    assert_eq!(
        ledger,
        RunLedger::DefaultSqlite("/state/agent.db".to_string())
    );
    assert!(matches!(
        error_under_a_held_lock(&ledger),
        AppError::DaemonLockHeld { .. }
    ));
}

#[test]
fn default_sqlite_replay_fails_closed_when_daemon_lock_exists() {
    let ledger = RunLedger::DefaultSqlite("/state/agent.db".to_string());
    assert!(matches!(
        error_under_a_held_lock(&ledger),
        AppError::DaemonLockHeld { .. }
    ));
}

#[test]
fn a_conflict_tells_who_holds_the_lock() {
    let conflict = LockConflict {
        path: "/run/agent.lock".to_string(),
        metadata: Some(metadata()),
        metadata_error: None,
    };
    assert_eq!(
        conflict.owner_summary(),
        "pid=7 workspace_id=work-1 socket_path=/run/agent.sock"
    );
    assert_eq!(
        lock_conflict_error(conflict),
        AppError::DaemonLockHeld {
            path: "/run/agent.lock".to_string(),
            owner: "pid=7 workspace_id=work-1 socket_path=/run/agent.sock".to_string()
        }
    );
    let unreadable = LockConflict {
        path: "p".to_string(),
        metadata: None,
        metadata_error: Some("eof".to_string()),
    };
    assert_eq!(unreadable.owner_summary(), "metadata unreadable: eof");
    let missing = LockConflict {
        path: "p".to_string(),
        metadata: None,
        metadata_error: None,
    };
    assert_eq!(missing.owner_summary(), "metadata missing");
}

#[test]
fn symlink_lock_path_fails_closed() {
    let conflict = conflict_of(vec![
        LockSeen::Done,
        LockSeen::Failed {
            kind: IoKind::Other,
            message: "too many levels of symbolic links".to_string(),
        },
    ]);
    assert!(conflict.metadata_error.is_some());
}

fn check(facts: &LockFacts) -> Result<(), String> {
    validate_unix_lock_file("/run/agent.lock", facts, 1000)
}

#[test]
fn a_safe_lock_file_is_accepted() {
    assert_eq!(check(&facts()), Ok(()));
    assert_eq!(LOCK_FILE_MODE, 0o600);
}

#[test]
fn non_regular_lock_path_fails_closed() {
    let mut socket = facts();
    socket.is_file = false;
    assert!(check(&socket).is_err());
    let conflict = conflict_of(vec![
        LockSeen::Done,
        LockSeen::Done,
        LockSeen::Facts(socket),
    ]);
    assert!(conflict.metadata_error.is_some());
}

#[test]
fn unsafe_lock_mode_fails_closed_without_rewriting() {
    let mut open = facts();
    open.mode = 0o100644;
    assert!(check(&open).unwrap_err().contains("mode 0644"));
    let (mut attempt, action) = LockAttempt::acquire("/run/agent.lock".to_string(), 1000);
    assert_eq!(action, LockAction::CreateParent);
    assert_eq!(attempt.step(LockSeen::Done), LockAction::Open { create: true });
    assert_eq!(attempt.step(LockSeen::Done), LockAction::Inspect);
    match attempt.step(LockSeen::Facts(open)) {
        LockAction::Return(LockEnd::Conflict(conflict)) => {
            assert!(conflict.owner_summary().contains("mode 0644"))
        }
        other => panic!("{other:?}"),
    }
}

#[test]
fn foreign_owner_validation_fails_closed() {
    let mut foreign = facts();
    foreign.uid = 1001;
    assert!(check(&foreign).unwrap_err().contains("owned by uid"));
}

#[test]
fn replaced_lock_path_fails_identity_validation() {
    for at_path in [
        PathFacts {
            is_symlink: false,
            device: 1,
            inode: 3,
        },
        PathFacts {
            is_symlink: false,
            device: 9,
            inode: 2,
        },
        PathFacts {
            is_symlink: true,
            device: 1,
            inode: 2,
        },
    ] {
        let mut replaced = facts();
        replaced.at_path = Ok(at_path);
        assert!(check(&replaced)
            .unwrap_err()
            .contains("changed while being opened"));
    }
    let mut gone = facts();
    gone.at_path = Err("no such file".to_string());
    assert_eq!(check(&gone), Err("no such file".to_string()));
}

#[test]
fn kernel_probe_distinguishes_a_live_lock_from_a_persistent_path() {
    let probe = |seen: Vec<LockSeen>| {
        let attempt = LockAttempt::probe("/run/agent.lock".to_string(), 1000);
        ensure_workspace_unlocked(ended(attempt, seen))
    };
    assert!(matches!(
        probe(vec![
            LockSeen::Done,
            LockSeen::Facts(facts()),
            busy(),
            LockSeen::Owner(Ok(metadata())),
        ]),
        Err(AppError::DaemonLockHeld { .. })
    ));
    assert_eq!(
        probe(vec![
            LockSeen::Done,
            LockSeen::Facts(facts()),
            LockSeen::Done,
            LockSeen::Facts(facts()),
        ]),
        Ok(())
    );
    assert_eq!(
        probe(vec![LockSeen::Failed {
            kind: IoKind::NotFound,
            message: "none".to_string()
        }]),
        Ok(())
    );
}

#[test]
fn a_lock_is_checked_again_before_and_after_it_is_written() {
    let (mut attempt, _) = LockAttempt::acquire("/run/agent.lock".to_string(), 1000);
    let mut actions = Vec::new();
    for seen in [
        LockSeen::Done,
        LockSeen::Done,
        LockSeen::Facts(facts()),
        LockSeen::Done,
        LockSeen::Facts(facts()),
        LockSeen::Done,
        LockSeen::Facts(facts()),
    ] {
        actions.push(attempt.step(seen));
    }
    assert_eq!(
        actions,
        vec![
            LockAction::Open { create: true },
            LockAction::Inspect,
            LockAction::Lock,
            LockAction::Inspect,
            LockAction::Write,
            LockAction::Inspect,
            LockAction::Return(LockEnd::Held),
        ]
    );
    assert_eq!(
        LockMetadata::for_host(3, None, "/s".to_string()).owner_summary(),
        "pid=3 workspace_id=host socket_path=/s"
    );
}

#[test]
fn typed_entries_omit_context_compaction() {
    assert_eq!(
        typed_entries(
            "current question".to_string(),
            &vec![ReadbackEntry::ContextCompacted]
        ),
        vec![TypedTranscriptEntry::User {
            text: "current question".into()
        }]
    );
}

#[test]
fn typed_entries_pass_over_failures_of_the_model() {
    assert_eq!(
        typed_entries(
            "q".to_string(),
            &vec![
                ReadbackEntry::ModelFailed,
                ReadbackEntry::ToolProposalsRejected
            ]
        )
        .len(),
        1
    );
}

#[test]
fn typed_entries_map_all_human_readback_facts_in_order() {
    let entries = typed_entries(
        "do work".to_string(),
        &vec![
            ReadbackEntry::ContextFragment,
            ReadbackEntry::ModelMessage {
                content: "working".into(),
            },
            ReadbackEntry::ToolCall {
                call_id: "call_1".into(),
                tool: "file.write".into(),
                input: r#"{"path": "out.txt", "content": "done"}"#.into(),
            },
            ReadbackEntry::ApprovalGranted {
                call_id: "call_1".into(),
                actor_id: "human_1".into(),
            },
            ReadbackEntry::ToolResult {
                call_id: "call_1".into(),
                summary: "wrote out.txt".into(),
            },
            ReadbackEntry::ApprovalDenied {
                call_id: "call_2".into(),
                actor_id: "human_2".into(),
                reason: "not now".into(),
            },
            ReadbackEntry::PolicyDenied {
                call_id: "call_3".into(),
                reason: "secret access denied".into(),
            },
            ReadbackEntry::ToolFailed {
                call_id: "call_4".into(),
                reason: "tool crashed".into(),
            },
        ],
    );

    assert_eq!(
        entries,
        vec![
            TypedTranscriptEntry::User {
                text: "do work".into()
            },
            TypedTranscriptEntry::Assistant {
                text: "working".into()
            },
            TypedTranscriptEntry::ToolCall {
                call_id: "call_1".into(),
                tool: "file.write".into(),
                input: r#"{"path": "out.txt", "content": "done"}"#.into(),
            },
            TypedTranscriptEntry::Approval {
                call_id: "call_1".into(),
                decision: ApprovalDecisionName::Granted,
                actor_id: "human_1".into(),
                reason: None,
            },
            TypedTranscriptEntry::ToolResult {
                call_id: "call_1".into(),
                summary: "wrote out.txt".into(),
            },
            TypedTranscriptEntry::Approval {
                call_id: "call_2".into(),
                decision: ApprovalDecisionName::Denied,
                actor_id: "human_2".into(),
                reason: Some("not now".into()),
            },
            TypedTranscriptEntry::PolicyDenied {
                call_id: "call_3".into(),
                reason: "secret access denied".into(),
            },
            TypedTranscriptEntry::ToolFailed {
                call_id: "call_4".into(),
                error: "tool crashed".into(),
            },
        ]
    );
}

fn run_records(run_id: &str, status: RunStateName) -> SessionRunRecords {
    SessionRunRecords {
        run_id: run_id.to_string(),
        session_index: 0,
        status,
        question: "q".to_string(),
        final_answer: Some("a".to_string()),
        entries: vec![],
    }
}

#[test]
fn transcripts_are_of_a_run_or_a_session() {
    let params = |run: Option<&str>, session: Option<&str>| TranscriptReadParams {
        run_id: run.map(str::to_string),
        session_id: session.map(str::to_string),
    };
    assert_eq!(
        transcript_target(None, params(Some("r"), None)),
        Ok(TranscriptOf::Run("r".to_string()))
    );
    assert_eq!(
        transcript_target(None, params(None, Some("s"))),
        Ok(TranscriptOf::Session("s".to_string()))
    );
    assert!(transcript_target(None, params(None, None)).is_err());
    assert_eq!(
        transcript_target(None, params(Some("r"), Some("s"))),
        Ok(TranscriptOf::Run("r".to_string()))
    );

    assert_eq!(
        read_run_transcript("r", None, String::new()),
        Err(AppError::RunNotFound("r".to_string()))
    );
    let read = read_run_transcript(
        "r",
        Some(run_records("r", RunStateName::Finished)),
        "text".to_string(),
    )
    .unwrap();
    assert_eq!(read.run_id, "r");
    assert_eq!(read.final_answer.as_deref(), Some("a"));
    assert_eq!(
        read_session_transcript("s", None, String::new()),
        Err(AppError::SessionNotFound("s".to_string()))
    );
    let read = read_session_transcript(
        "s",
        Some(vec![
            run_records("r1", RunStateName::Finished),
            run_records("r2", RunStateName::Failed),
        ]),
        "text".to_string(),
    )
    .unwrap();
    assert_eq!(read.run_id, "r2");
    assert_eq!(read.status, RunStateName::Failed);
    assert_eq!(read.typed.unwrap().runs.len(), 2);
    assert_eq!(
        typed_run(&run_records("r", RunStateName::Finished)).entries.len(),
        1
    );
    let runtime = runtime();
    assert_eq!(
        code(
            handle_transcript_read(&runtime, None, Err(AppError::RunNotFound("r".to_string())))
                .unwrap_err()
        ),
        transcript_error_code(&AppError::RunNotFound("r".to_string()))
    );
}

#[test]
fn sessions_are_listed_with_a_short_question() {
    assert_eq!(latest_question_preview("short"), "short");
    assert_eq!(latest_question_preview(""), "");
    assert_eq!(latest_question_preview("first\r\nsecond"), "first");
    assert_eq!(latest_question_preview(&"x".repeat(120)), "x".repeat(120));
    assert_eq!(
        latest_question_preview(&"x".repeat(500)),
        format!("{}...", "x".repeat(120))
    );
    let listed = handle_sessions_list(
        &runtime(),
        None,
        Ok(vec![StoredSession {
            session_id: "s".to_string(),
            run_id: "r".to_string(),
            status: RunStateName::Finished,
            latest_question: "q".to_string(),
        }]),
    )
    .unwrap();
    assert_eq!(listed.len(), 1);
    assert_eq!(listed[0].ledger_path, "/state/agent.db");
    assert!(
        handle_sessions_list(&runtime(), None, Err(AppError::RunCanceled)).is_err()
    );
}

#[test]
fn issue_preparation_runs_alone() {
    let mut runtime = runtime();
    let params = || IssuePrepStartParams {
        input: "rough".to_string(),
        config_path: None,
    };
    let options =
        handle_issue_prep_start(&mut runtime, None, params(), "run_1".to_string()).unwrap();
    assert_eq!(
        options,
        IssuePrepOptions {
            workspace_root: "/work".to_string(),
            config_path: None,
            run_dir: "/work/.plato/issue-prep/run_1".to_string(),
            input: "rough".to_string()
        }
    );
    assert!(handle_issue_prep_start(&mut runtime, None, params(), "run_2".to_string()).is_err());
    let done = finish_issue_prep(
        &mut runtime,
        None,
        options.run_dir,
        Ok(IssuePrepResult::Candidate {
            markdown: "m".to_string(),
        }),
    )
    .unwrap();
    assert_eq!(done.run_dir, "/work/.plato/issue-prep/run_1");
    assert!(!runtime.issue_prep_active);
    assert!(
        handle_issue_prep_start(&mut runtime, None, params(), "run_3".to_string()).is_ok()
    );
    assert!(
        finish_issue_prep(
            &mut runtime,
            None,
            "d".to_string(),
            Err(AppError::RunCanceled)
        )
        .is_err()
    );
}

#[test]
fn a_message_goes_to_the_session_that_is_named_or_the_latest() {
    let runtime = runtime();
    assert_eq!(
        handle_message_append(
            &runtime,
            None,
            Some("s".to_string()),
            Err(AppError::NoSqliteSessions)
        ),
        Ok("s".to_string())
    );
    assert_eq!(
        handle_message_append(&runtime, None, None, Ok("latest".to_string())),
        Ok("latest".to_string())
    );
    assert!(handle_message_append(&runtime, None, None, Err(AppError::NoSqliteSessions)).is_err());
    let fresh = RunSession::Fresh {
        session_id: "s".to_string(),
    };
    assert_eq!(
        run_failed_response(None, &fresh, &AppError::RunCanceled).kind,
        EnvelopeKind::Error
    );
}

/// A lock file that keeps to its word.
struct LockFile {
    exists: bool,
    locked: bool,
    owner: Result<LockMetadata, String>,
}

/// Makes an attempt on the file.
fn attempted(
    file: &mut LockFile,
    attempt: (LockAttempt, LockAction),
    metadata: LockMetadata,
) -> LockEnd {
    let (mut attempt, mut action) = attempt;
    let mut metadata = Some(metadata);
    let refused = |kind: IoKind| LockSeen::Failed {
        kind,
        message: "refused".to_string(),
    };
    loop {
        let seen = match action {
            LockAction::CreateParent => LockSeen::Done,
            LockAction::Open { create } if file.exists || create => {
                file.exists = true;
                LockSeen::Done
            }
            LockAction::Open { .. } => refused(IoKind::NotFound),
            LockAction::Inspect => LockSeen::Facts(facts()),
            LockAction::Lock if file.locked => refused(IoKind::WouldBlock),
            LockAction::Lock => {
                file.locked = true;
                LockSeen::Done
            }
            LockAction::ReadOwner => {
                LockSeen::Owner(std::mem::replace(&mut file.owner, Err("read".to_string())))
            }
            LockAction::Write => {
                file.owner = Ok(metadata.take().unwrap());
                LockSeen::Done
            }
            LockAction::Return(end) => return end,
        };
        action = attempt.step(seen);
    }
}

#[test]
fn a_lock_is_held_by_one_at_a_time() {
    let path = || "/run/agent.lock".to_string();
    let holder = |pid: u32| LockMetadata { pid, ..metadata() };
    let mut file = LockFile {
        exists: false,
        locked: false,
        owner: Err("empty".to_string()),
    };
    assert_eq!(
        ensure_workspace_unlocked(attempted(
            &mut file,
            LockAttempt::probe(path(), 1000),
            holder(0)
        )),
        Ok(())
    );
    assert!(!file.exists);

    let first = attempted(&mut file, LockAttempt::acquire(path(), 1000), holder(1));
    assert_eq!(first, LockEnd::Held);
    assert_eq!(file.owner, Ok(holder(1)));

    match attempted(&mut file, LockAttempt::acquire(path(), 1000), holder(2)) {
        LockEnd::Conflict(conflict) => {
            assert_eq!(conflict.path, path());
            assert_eq!(conflict.metadata, Some(holder(1)));
        }
        end => panic!("{end:?}"),
    }
    file.owner = Ok(holder(1));
    match ensure_workspace_unlocked(attempted(
        &mut file,
        LockAttempt::probe(path(), 1000),
        holder(0),
    )) {
        Err(AppError::DaemonLockHeld { owner, .. }) => {
            assert_eq!(owner, holder(1).owner_summary())
        }
        other => panic!("{other:?}"),
    }

    file.locked = false;
    file.owner = Ok(holder(1));
    let probed = attempted(&mut file, LockAttempt::probe(path(), 1000), holder(0));
    assert_eq!(ensure_workspace_unlocked(probed), Ok(()));
    assert_eq!(file.owner, Ok(holder(1)));

    file.locked = false;
    let second = attempted(&mut file, LockAttempt::acquire(path(), 1000), holder(2));
    assert_eq!(second, LockEnd::Held);
    assert_eq!(file.owner, Ok(holder(2)));
}
