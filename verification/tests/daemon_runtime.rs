use plato_agent::app::session::{
    ApprovalRequest, AssistantDeltaEvent, RunEvent, RunOutcome, RunSession,
};
use plato_agent::app::model::RunOverrides;
use plato_agent::daemon::DaemonPaths;
use plato_agent::daemon::events::{EventBuffer, MAX_EVENT_BUFFER};
use plato_agent::daemon::handlers::{
    EVENT_COLLECTOR_PANIC, answer_start, collect_run_event, find_run, finish_issue_prep,
    finish_run_after_event_collection,
    handle_approval_decide, handle_events_stream, handle_run_cancel, run_start_response,
    runtime_pending_approval, start_run,
};
use plato_agent::daemon::protocol::{
    ApprovalDecideParams, ApprovalDecision, BufferedStreamEvent, ERROR_LAGGED, ERROR_NOT_FOUND,
    EnvelopeKind, EventsStreamParams, EventsStreamResult, IssuePrepResult, RunCancelParams, RunStateName,
    StreamEvent,
};
use plato_agent::daemon::runtime::{
    ApprovalStart, CancelOutcome, DaemonRuntime, ExternalApprovalOutcome, GrantActor,
    IssuePrepAdmissionError, MAX_TERMINAL_RUNS, OutsideDenial, PendingApproval, RunAdmissionError,
    RunRecord, RunStatus, ShutdownIfIdleDecision, approval_requested_event,
};
use plato_agent::error::AppError;
use plato_agent::tool_catalog::EffectClass;

fn runtime() -> DaemonRuntime {
    DaemonRuntime::new(DaemonPaths {
        workspace_root: "/tmp/workspace".into(),
        workspace_id: "workspace-1".into(),
        socket_path: "/tmp/agent.sock".into(),
        lock_path: "/tmp/agent.lock".into(),
        ledger_path: "/tmp/agent.db".into(),
    })
}

fn record(name: &str) -> RunRecord {
    RunRecord::new(
        format!("run_{name}"),
        format!("session_{name}"),
        "/tmp/agent.db".to_string(),
    )
}

fn request(run_id: &str, tool_name: &str) -> ApprovalRequest {
    ApprovalRequest {
        run_id: run_id.into(),
        call_id: "call_1".into(),
        tool_name: tool_name.into(),
        effect: EffectClass::WorkspaceWrite,
        reason: format!("{tool_name} requires approval"),
        input_preview: None,
        approval_preview: None,
        diff_preview: None,
    }
}

fn index(runtime: &DaemonRuntime, run_id: &str) -> usize {
    runtime.find_index(run_id).unwrap()
}

fn status(runtime: &DaemonRuntime, run_id: &str) -> RunStatus {
    runtime.runs[index(runtime, run_id)].status.clone()
}

fn delta(name: &str, delta_index: u64) -> AssistantDeltaEvent {
    AssistantDeltaEvent {
        run_id: format!("run_{name}"),
        turn_id: "turn_1".into(),
        step: 0,
        delta_index,
        text: format!("delta {delta_index}"),
    }
}

fn stream(runtime: &DaemonRuntime, run_id: &str) -> EventsStreamResult {
    handle_events_stream(
        runtime,
        Some("stream".to_string()),
        EventsStreamParams {
            run_id: run_id.to_string(),
            from_offset: Some(0),
            limit: Some(128),
        },
    )
    .unwrap()
}

#[test]
fn late_cancel_does_not_reclassify_failure() {
    let mut runtime = runtime();
    let mut run = record("1");
    run.cancel = true;
    runtime.reserve_run(run).unwrap();

    runtime.finish_run_with_error("run_1", &AppError::RunFailed("provider failed".into()));

    assert_eq!(status(&runtime, "run_1").state, RunStateName::Failed);
    assert_eq!(
        status(&runtime, "run_1").error.as_deref(),
        Some("run did not finish: provider failed")
    );
}

#[test]
fn terminal_retention_uses_completion_order_and_preserves_active_runs() {
    let mut runtime = runtime();
    for index in 0..=MAX_TERMINAL_RUNS {
        runtime.reserve_run(record(&index.to_string())).unwrap();
    }
    let mut approval_paused = record("100");
    approval_paused.approvals.push(PendingApproval::new(
        "session_100".into(),
        request("run_100", "file.write"),
    ));
    runtime.reserve_run(approval_paused).unwrap();
    let mut cancel_requested = record("101");
    cancel_requested.status.state = RunStateName::CancelRequested;
    runtime.reserve_run(cancel_requested).unwrap();

    runtime.finish_run("run_1", "done 1".into());
    runtime.finish_run("run_0", "done 0".into());
    for index in 2..=MAX_TERMINAL_RUNS {
        runtime.finish_run(&format!("run_{index}"), format!("done {index}"));
    }

    assert_eq!(runtime.terminal_runs.len(), MAX_TERMINAL_RUNS);
    assert_eq!(
        runtime.terminal_runs.first().map(String::as_str),
        Some("run_0")
    );
    assert_eq!(
        runtime.terminal_runs.last().map(String::as_str),
        Some("run_32")
    );
    assert!(runtime.find_index("run_1").is_none());
    assert!(runtime.find_index("run_0").is_some());
    assert!(runtime.find_index("run_32").is_some());
    assert!(runtime.find_index("run_100").is_some());
    assert!(runtime.find_index("run_101").is_some());
    assert_eq!(runtime.runs.len(), MAX_TERMINAL_RUNS + 2);

    assert!(runtime_pending_approval(&runtime, "run_100").is_some());
    assert_eq!(
        status(&runtime, "run_101").state,
        RunStateName::CancelRequested
    );
    assert_eq!(
        runtime.shutdown_if_idle(),
        ShutdownIfIdleDecision::RefusedActive
    );
}

#[test]
fn shutdown_and_run_admission_linearize() {
    let mut admitted = runtime();
    assert_eq!(admitted.reserve_run(record("1")), Ok(()));
    assert_eq!(
        admitted.shutdown_if_idle(),
        ShutdownIfIdleDecision::RefusedActive
    );
    let mut shut = runtime();
    assert_eq!(shut.shutdown_if_idle(), ShutdownIfIdleDecision::Shutdown);
    assert_eq!(
        shut.reserve_run(record("1")),
        Err(RunAdmissionError::ShuttingDown)
    );
}

#[test]
fn shutdown_and_issue_prep_admission_linearize() {
    let mut admitted = runtime();
    assert_eq!(admitted.reserve_issue_prep(), Ok(()));
    assert_eq!(
        admitted.shutdown_if_idle(),
        ShutdownIfIdleDecision::RefusedActive
    );
    let mut shut = runtime();
    assert_eq!(shut.shutdown_if_idle(), ShutdownIfIdleDecision::Shutdown);
    assert_eq!(
        shut.reserve_issue_prep(),
        Err(IssuePrepAdmissionError::ShuttingDown)
    );
}

#[test]
fn a_session_has_one_run_at_a_time() {
    let mut runtime = runtime();
    runtime.reserve_run(record("1")).unwrap();
    let mut second = record("2");
    second.session_id = "session_1".to_string();
    assert_eq!(
        runtime.reserve_run(second),
        Err(RunAdmissionError::SessionActive {
            run_id: "run_1".to_string()
        })
    );
    runtime.finish_run("run_1", "done".to_string());
    let mut third = record("3");
    third.session_id = "session_1".to_string();
    assert_eq!(runtime.reserve_run(third), Ok(()));
}

#[test]
fn issue_prep_reservation_rejects_duplicates_and_releases() {
    let mut runtime = runtime();
    runtime.reserve_issue_prep().unwrap();

    assert_eq!(
        runtime.reserve_issue_prep(),
        Err(IssuePrepAdmissionError::Active)
    );
    assert_eq!(
        runtime.shutdown_if_idle(),
        ShutdownIfIdleDecision::RefusedActive
    );

    runtime.release_issue_prep();
    runtime.reserve_issue_prep().unwrap();
    runtime.release_issue_prep();
    assert_eq!(runtime.shutdown_if_idle(), ShutdownIfIdleDecision::Shutdown);
    assert_eq!(
        runtime.reserve_issue_prep(),
        Err(IssuePrepAdmissionError::ShuttingDown)
    );
}

#[test]
fn issue_prep_reservation_releases_on_success_and_error_paths() {
    let mut success_runtime = runtime();
    success_runtime.reserve_issue_prep().unwrap();
    finish_issue_prep(
        &mut success_runtime,
        None,
        "/tmp/run".to_string(),
        Ok(IssuePrepResult::Candidate {
            markdown: "done".to_string(),
        }),
    )
    .unwrap();
    assert!(success_runtime.reserve_issue_prep().is_ok());

    let mut failed_runtime = runtime();
    failed_runtime.reserve_issue_prep().unwrap();
    let failed = finish_issue_prep(
        &mut failed_runtime,
        None,
        "/tmp/run".to_string(),
        Err(AppError::RunFailed("provider failed".into())),
    );
    assert!(failed.unwrap_err().error.unwrap().message.contains("provider failed"));
    failed_runtime.reserve_issue_prep().unwrap();
    failed_runtime.release_issue_prep();
    assert_eq!(
        failed_runtime.shutdown_if_idle(),
        ShutdownIfIdleDecision::Shutdown
    );
}

#[test]
fn approval_paused_run_refuses_shutdown_until_terminal() {
    let mut runtime = runtime();
    let mut run = record("1");
    run.approvals.push(PendingApproval::new(
        "session_1".into(),
        request("run_1", "file.write"),
    ));
    runtime.reserve_run(run).unwrap();

    assert_eq!(
        runtime.shutdown_if_idle(),
        ShutdownIfIdleDecision::RefusedActive
    );
    assert!(!runtime.shutdown_accepted);

    let at = index(&runtime, "run_1");
    runtime.runs[at].status.state = RunStateName::CancelRequested;
    assert_eq!(
        runtime.shutdown_if_idle(),
        ShutdownIfIdleDecision::RefusedActive
    );

    runtime.finish_run("run_1", "done".into());
    assert_eq!(runtime.shutdown_if_idle(), ShutdownIfIdleDecision::Shutdown);
    assert_eq!(
        runtime.shutdown_if_idle(),
        ShutdownIfIdleDecision::AlreadyShuttingDown
    );
}

#[test]
fn approval_requested_event_carries_diff_preview_when_present() {
    let mut asked = request("run_1", "file.edit");
    asked.diff_preview = Some("--- a/note.txt\n+++ b/note.txt\n".into());
    assert!(matches!(
        approval_requested_event(&asked),
        StreamEvent::ApprovalRequested { diff_preview: Some(diff), .. }
            if diff == "--- a/note.txt\n+++ b/note.txt\n"
    ));
}

#[test]
fn approval_requested_event_omits_diff_preview_when_absent() {
    assert!(matches!(
        approval_requested_event(&request("run_1", "file.write")),
        StreamEvent::ApprovalRequested {
            diff_preview: None,
            ..
        }
    ));
}

#[test]
fn approval_requested_event_carries_approval_preview_when_present() {
    let mut asked = request("run_1", "shell.exec");
    asked.effect = EffectClass::ExternalSideEffect;
    asked.approval_preview = Some("command: cargo test\ncwd: /tmp/work".into());
    assert!(matches!(
        approval_requested_event(&asked),
        StreamEvent::ApprovalRequested { approval_preview: Some(preview), .. }
            if preview == "command: cargo test\ncwd: /tmp/work"
    ));
}

#[test]
fn canceled_run_does_not_register_or_publish_a_late_approval() {
    let mut run = record("1");
    run.cancel = true;
    let mut asked = request("run_1", "file.write");
    asked.input_preview = Some(r#"{"path":"out.txt"}"#.into());

    match run.begin_approval(asked, false) {
        ApprovalStart::Decided(ExternalApprovalOutcome::Denied { actor, reason }) => {
            assert_eq!(actor.as_str(), "daemon");
            assert_eq!(reason.message(), "run canceled");
        }
        other => panic!("{other:?}"),
    }
    assert!(run.approvals.is_empty());
    assert!(run.events.events.is_empty());
}

#[test]
fn published_approval_event_has_a_complete_snapshot() {
    let mut run = record("1");
    let mut asked = request("run_1", "file.write");
    asked.input_preview = Some(r#"{"path":"out.txt"}"#.into());
    assert_eq!(run.begin_approval(asked, false), ApprovalStart::Waiting);
    assert_eq!(run.events.events.len(), 1);

    let snapshot = run.pending_approval().unwrap();
    assert_eq!(snapshot.run_id, "run_1");
    assert_eq!(snapshot.tool_call_id, "call_1");
    assert_eq!(
        snapshot.input_preview.as_deref(),
        Some(r#"{"path":"out.txt"}"#)
    );
    assert_eq!(run.poll_approval("call_1"), None);
    assert!(run.decide(
        "call_1",
        ApprovalDecision::Deny,
        Some("test complete".to_string())
    ));
    assert_eq!(
        run.poll_approval("call_1"),
        Some(ExternalApprovalOutcome::Denied {
            actor: GrantActor::Daemon,
            reason: OutsideDenial::Given("test complete".into())
        })
    );
}

#[test]
fn push_assistant_delta_buffers_transient_event() {
    let mut run = record("1");
    run.push_assistant_delta(AssistantDeltaEvent {
        run_id: "run_1".into(),
        turn_id: "turn_1".into(),
        step: 0,
        delta_index: 1,
        text: "hello".into(),
    });

    assert_eq!(run.events.next_offset, 1);
    assert_eq!(
        run.events.events[0],
        BufferedStreamEvent {
            offset: 0,
            event: StreamEvent::AssistantDelta {
                run_id: "run_1".into(),
                turn_id: "turn_1".into(),
                step: 0,
                delta_index: 1,
                text: "hello".into(),
            }
        }
    );
}

#[test]
fn terminal_status_waits_for_collected_events_on_success_failure_and_cancellation() {
    let cases: [(&str, Result<RunOutcome, AppError>, RunStateName); 3] = [
        (
            "success",
            Ok(RunOutcome {
                run_id: "run_success".into(),
                final_answer: "done".into(),
            }),
            RunStateName::Finished,
        ),
        (
            "failure",
            Err(AppError::RunFailed("provider failed".into())),
            RunStateName::Failed,
        ),
        (
            "cancellation",
            Err(AppError::RunCanceled),
            RunStateName::Canceled,
        ),
    ];
    for (name, outcome, expected) in cases {
        let mut runtime = runtime();
        runtime.reserve_run(record(name)).unwrap();
        let run_id = format!("run_{name}");
        let at = index(&runtime, &run_id);
        assert_eq!(status(&runtime, &run_id).state, RunStateName::Running);
        assert_eq!(runtime.runs[at].events.first_offset, 0);
        assert_eq!(runtime.runs[at].events.next_offset, 0);
        assert!(runtime.runs[at].events.events.is_empty());
        for delta_index in 0..2 {
            collect_run_event(
                &mut runtime.runs[at],
                RunEvent::AssistantDelta(delta(name, delta_index)),
                String::new(),
            );
            assert_eq!(stream(&runtime, &run_id).status, RunStateName::Running);
        }

        let result = finish_run_after_event_collection(&mut runtime, &run_id, outcome, true);
        let end = status(&runtime, &run_id);
        assert_eq!(end.state, expected);
        match expected {
            RunStateName::Finished => {
                assert_eq!(result.unwrap().final_answer, "done");
                assert_eq!(end.final_answer.as_deref(), Some("done"));
                assert_eq!(end.error, None);
            }
            RunStateName::Failed => {
                assert!(matches!(
                    result,
                    Err(AppError::RunFailed(ref reason)) if reason == "provider failed"
                ));
                assert_eq!(end.final_answer, None);
                assert_eq!(
                    end.error.as_deref(),
                    Some("run did not finish: provider failed")
                );
            }
            _ => {
                assert!(matches!(result, Err(AppError::RunCanceled)));
                assert_eq!(end.final_answer, None);
                assert_eq!(
                    end.error.as_deref(),
                    Some("run did not finish: run canceled")
                );
            }
        }
        let events = &runtime.runs[index(&runtime, &run_id)].events;
        assert_eq!(events.first_offset, 0);
        assert_eq!(events.next_offset, 2);
        assert_eq!(
            events
                .events
                .iter()
                .map(|event| event.offset)
                .collect::<Vec<_>>(),
            vec![0, 1]
        );
    }
}

#[test]
fn collector_handle_drains_in_order_without_changing_retention() {
    let mut run = record("retention");
    let sent = MAX_EVENT_BUFFER as u64 + 2;
    for delta_index in 0..sent {
        collect_run_event(
            &mut run,
            RunEvent::AssistantDelta(delta("retention", delta_index)),
            String::new(),
        );
    }
    assert_eq!(run.events.first_offset, 2);
    assert_eq!(run.events.next_offset, sent);
    assert_eq!(
        run.events
            .events
            .iter()
            .map(|event| event.offset)
            .collect::<Vec<_>>(),
        (2..sent).collect::<Vec<_>>()
    );
}

#[test]
fn collector_panic_becomes_typed_run_failure() {
    let mut runtime = runtime();
    runtime.reserve_run(record("collector_panic")).unwrap();

    let error = finish_run_after_event_collection(
        &mut runtime,
        "run_collector_panic",
        Ok(RunOutcome {
            run_id: "run_collector_panic".into(),
            final_answer: "must not publish".into(),
        }),
        false,
    )
    .unwrap_err();

    assert!(matches!(
        error,
        AppError::RunFailed(ref reason) if reason == EVENT_COLLECTOR_PANIC
    ));
    assert_eq!(
        status(&runtime, "run_collector_panic"),
        RunStatus {
            state: RunStateName::Failed,
            final_answer: None,
            error: Some(format!("run did not finish: {EVENT_COLLECTOR_PANIC}")),
        }
    );
}

fn cancel(runtime: &mut DaemonRuntime, run_id: &str) -> (EnvelopeKind, String) {
    match handle_run_cancel(
        runtime,
        Some("cancel".to_string()),
        RunCancelParams {
            run_id: run_id.to_string(),
        },
    ) {
        Ok(accepted) => {
            assert_eq!(accepted.run_id, run_id);
            (EnvelopeKind::Response, accepted.status.as_str().to_string())
        }
        Err(envelope) => {
            let error = envelope.error.unwrap();
            (envelope.kind, format!("{}: {}", error.code, error.message))
        }
    }
}

#[test]
fn run_cancel_stores_one_idempotent_transition_and_immediate_readback() {
    let mut runtime = runtime();
    runtime.reserve_run(record("cancel_idempotent")).unwrap();
    let run_id = "run_cancel_idempotent";

    let first = cancel(&mut runtime, run_id);
    assert_eq!(
        first,
        (EnvelopeKind::Response, "cancel_requested".to_string())
    );
    assert_eq!(status(&runtime, run_id).state, RunStateName::CancelRequested);
    assert!(runtime.runs[index(&runtime, run_id)].cancel);

    let readback = stream(&runtime, run_id);
    assert_eq!(readback.status, RunStateName::CancelRequested);
    assert_eq!(readback.from_offset, 0);
    assert_eq!(readback.next_offset, 1);
    assert_eq!(
        readback.events,
        vec![BufferedStreamEvent {
            offset: 0,
            event: StreamEvent::Canceled {
                run_id: run_id.to_string()
            }
        }]
    );

    assert_eq!(cancel(&mut runtime, run_id), first);
    let again = stream(&runtime, run_id);
    assert_eq!(again.status, RunStateName::CancelRequested);
    assert_eq!(again.next_offset, 1);
    assert_eq!(again.events, readback.events);
    let at = index(&runtime, run_id);
    assert_eq!(
        runtime.runs[at].request_cancel(),
        CancelOutcome::AlreadyRequested
    );
}

#[test]
fn run_cancel_rejects_every_terminal_status_without_side_effects() {
    let mut runtime = runtime();
    for terminal in [
        RunStateName::Finished,
        RunStateName::Failed,
        RunStateName::Canceled,
    ] {
        let mut run = record(terminal.as_str());
        run.status.state = terminal;
        let run_id = run.run_id.clone();
        runtime.reserve_run(run).unwrap();

        assert_eq!(
            cancel(&mut runtime, &run_id),
            (
                EnvelopeKind::Error,
                format!("{ERROR_NOT_FOUND}: run is not active: {run_id}")
            )
        );
        let at = index(&runtime, &run_id);
        assert_eq!(runtime.runs[at].status.state, terminal);
        assert!(!runtime.runs[at].cancel);
        assert!(runtime.runs[at].events.events.is_empty());
    }
    assert!(find_run(&runtime, "run_missing").is_err());
}

#[test]
fn run_cancel_and_finish_linearize_in_both_barrier_schedules() {
    let mut canceled_first = runtime();
    canceled_first.reserve_run(record("cancel_first")).unwrap();
    let run_id = "run_cancel_first";
    assert_eq!(cancel(&mut canceled_first, run_id).0, EnvelopeKind::Response);
    assert_eq!(
        status(&canceled_first, run_id).state,
        RunStateName::CancelRequested
    );
    finish_run_after_event_collection(
        &mut canceled_first,
        run_id,
        Ok(RunOutcome {
            run_id: run_id.into(),
            final_answer: "done".into(),
        }),
        true,
    )
    .unwrap();
    let end = status(&canceled_first, run_id);
    assert_eq!(end.state, RunStateName::Finished);
    assert_eq!(end.final_answer.as_deref(), Some("done"));
    assert_eq!(end.error, None);
    let run = &canceled_first.runs[index(&canceled_first, run_id)];
    assert!(run.cancel);
    assert_eq!(run.events.events.len(), 1);

    let mut finished_first = runtime();
    finished_first.reserve_run(record("finish_first")).unwrap();
    let run_id = "run_finish_first";
    finished_first.finish_run(run_id, "done".to_string());
    let (kind, error) = cancel(&mut finished_first, run_id);
    assert_eq!(kind, EnvelopeKind::Error);
    assert!(error.starts_with(ERROR_NOT_FOUND));
    let end = status(&finished_first, run_id);
    assert_eq!(end.state, RunStateName::Finished);
    assert_eq!(end.final_answer.as_deref(), Some("done"));
    assert_eq!(end.error, None);
    let run = &finished_first.runs[index(&finished_first, run_id)];
    assert!(!run.cancel);
    assert!(run.events.events.is_empty());
}

#[test]
fn event_snapshot_before_collector_cannot_publish_a_stale_terminal_page() {
    let mut runtime = runtime();
    runtime
        .reserve_run(record("snapshot_before_collector"))
        .unwrap();
    let run_id = "run_snapshot_before_collector";
    let before = stream(&runtime, run_id);
    assert_eq!(before.status, RunStateName::Running);
    assert_eq!((before.from_offset, before.next_offset), (0, 0));
    assert!(before.events.is_empty());

    let at = index(&runtime, run_id);
    collect_run_event(
        &mut runtime.runs[at],
        RunEvent::AssistantDelta(delta("snapshot_before_collector", 0)),
        String::new(),
    );
    runtime.finish_run(run_id, "done".to_string());
    let terminal = stream(&runtime, run_id);
    assert_eq!(terminal.status, RunStateName::Finished);
    assert_eq!((terminal.from_offset, terminal.next_offset), (0, 1));
    assert!(matches!(
        terminal.events.as_slice(),
        [BufferedStreamEvent {
            offset: 0,
            event: StreamEvent::AssistantDelta { delta_index: 0, .. },
        }]
    ));
}

#[test]
fn context_compaction_uses_v1_ledger_stream_envelope() {
    let mut runtime = runtime();
    runtime.reserve_run(record("1")).unwrap();
    let event = r#"{"event":"context_compacted","run_id":"run_1","turn_id":"turn_1","estimated_tokens_before":321,"estimated_tokens_after":123,"dropped_turn_start":0,"dropped_turn_end_exclusive":2}"#;
    let at = index(&runtime, "run_1");
    runtime.runs[at].push_recorded_event(format!(
        r#"{{"seq":1,"occurred_at_ms":42,"event":{event}}}"#
    ));
    let page = handle_events_stream(
        &runtime,
        Some("stream_1".to_string()),
        EventsStreamParams {
            run_id: "run_1".to_string(),
            from_offset: Some(0),
            limit: Some(1),
        },
    )
    .unwrap();
    assert_eq!(page.events.len(), 1);
    match &page.events[0].event {
        StreamEvent::Ledger { record } => {
            let wire: serde_json::Value = serde_json::from_str(record).unwrap();
            let expected: serde_json::Value = serde_json::from_str(event).unwrap();
            assert_eq!(wire["event"], expected);
        }
        other => panic!("{other:?}"),
    }
}

#[test]
fn a_reader_that_fell_behind_is_told_so() {
    let mut runtime = runtime();
    runtime.reserve_run(record("1")).unwrap();
    let at = index(&runtime, "run_1");
    for delta_index in 0..(MAX_EVENT_BUFFER as u64 + 1) {
        runtime.runs[at].push_assistant_delta(delta("1", delta_index));
    }
    let error = handle_events_stream(
        &runtime,
        None,
        EventsStreamParams {
            run_id: "run_1".to_string(),
            from_offset: Some(0),
            limit: Some(4),
        },
    )
    .unwrap_err();
    assert_eq!(error.error.unwrap().code, ERROR_LAGGED);
    let tail = handle_events_stream(
        &runtime,
        None,
        EventsStreamParams {
            run_id: "run_1".to_string(),
            from_offset: Some(1),
            limit: Some(4),
        },
    )
    .unwrap();
    assert_eq!(
        tail.events.iter().map(|event| event.offset).collect::<Vec<_>>(),
        vec![1, 2, 3, 4]
    );
    assert_eq!(tail.next_offset, 5);
}

#[test]
fn a_page_reads_back_what_was_pushed() {
    let mut buffer = EventBuffer::new();
    for n in 0..3 {
        buffer.push(StreamEvent::Canceled {
            run_id: n.to_string(),
        });
    }
    assert_eq!(buffer.page(1, 10).unwrap().len(), 2);
    assert_eq!(buffer.page(3, 10).unwrap().len(), 0);
    assert_eq!(buffer.page(0, 1).unwrap()[0].offset, 0);
}

#[test]
fn a_run_is_started_with_what_was_asked() {
    let mut runtime = runtime();
    let options = start_run(
        &mut runtime,
        Some("req".to_string()),
        "run_1".to_string(),
        "hello".to_string(),
        RunSession::Fresh {
            session_id: "session_1".to_string(),
        },
        Some("c.toml".to_string()),
        RunOverrides::default(),
    )
    .unwrap();
    assert_eq!(options.question, "hello");
    assert_eq!(options.run_id.as_deref(), Some("run_1"));
    assert_eq!(options.config_path.as_deref(), Some("c.toml"));
    let started = run_start_response(&runtime.runs[0]);
    assert_eq!(started.run_id, "run_1");
    assert_eq!(started.session_id, "session_1");
    assert_eq!(started.status, RunStateName::Running);
    assert!(
        start_run(
            &mut runtime,
            None,
            "run_2".to_string(),
            "again".to_string(),
            RunSession::Continue {
                session_id: "session_1".to_string()
            },
            None,
            RunOverrides::default(),
        )
        .is_err()
    );
}

#[test]
fn a_client_decides_on_a_call() {
    let mut runtime = runtime();
    runtime.reserve_run(record("1")).unwrap();
    let at = index(&runtime, "run_1");
    runtime.runs[at].begin_approval(request("run_1", "file.write"), false);
    let decide = |runtime: &mut DaemonRuntime, call: &str| {
        handle_approval_decide(
            runtime,
            None,
            ApprovalDecideParams {
                run_id: "run_1".to_string(),
                tool_call_id: call.to_string(),
                decision: ApprovalDecision::Grant,
                reason: None,
            },
        )
    };
    assert!(decide(&mut runtime, "call_2").is_err());
    assert!(decide(&mut runtime, "call_1").is_ok());
    let at = index(&runtime, "run_1");
    assert_eq!(
        runtime.runs[at].poll_approval("call_1"),
        Some(ExternalApprovalOutcome::Granted {
            actor: GrantActor::Daemon
        })
    );
    assert_eq!(GrantActor::Daemon.as_str(), "daemon");
}

#[test]
fn shell_grants_hold_for_a_session() {
    let mut runtime = runtime();
    assert!(!runtime.has_shell_session_grant("s"));
    assert!(runtime.install_shell_session_grant("s"));
    assert!(runtime.has_shell_session_grant("s"));
    assert!(!runtime.has_shell_session_grant("t"));
    assert_eq!(DaemonRuntime::uptime_ms(5), 5);
    assert_eq!(DaemonRuntime::uptime_ms(u128::MAX), u64::MAX);
}

#[test]
fn a_session_grant_decides_on_calls_of_the_shell() {
    let shell = |run_id: &str| ApprovalRequest {
        effect: EffectClass::ExternalSideEffect,
        ..request(run_id, "shell.exec")
    };
    let mut runtime = runtime();
    runtime.reserve_run(record("1")).unwrap();
    runtime.reserve_run(record("2")).unwrap();
    runtime.install_shell_session_grant("session_1");

    assert_eq!(
        runtime.request_approval("run_1", shell("run_1")),
        ApprovalStart::Decided(ExternalApprovalOutcome::Granted {
            actor: GrantActor::SessionGrant
        })
    );
    assert!(runtime.runs[0].approvals.is_empty());
    assert_eq!(runtime.runs[0].events.next_offset, 0);

    assert_eq!(
        runtime.request_approval("run_2", shell("run_2")),
        ApprovalStart::Waiting
    );
    assert_eq!(runtime.runs[1].approvals.len(), 1);
    assert_eq!(runtime.runs[1].events.next_offset, 1);

    assert_eq!(
        runtime.request_approval("run_1", request("run_1", "file.write")),
        ApprovalStart::Waiting
    );
    assert_eq!(
        runtime.request_approval("run_1", shell("run_2")),
        ApprovalStart::Refused(AppError::RunFailed(
            "approval request does not match daemon run".to_string()
        ))
    );
}

#[test]
fn a_client_is_answered_after_the_run_only_where_it_waits() {
    let fresh = RunSession::Fresh {
        session_id: "session_1".to_string(),
    };
    let mut run = record("1");
    let done = Ok(RunOutcome {
        run_id: "run_1".to_string(),
        final_answer: "answer".to_string(),
    });
    let failed = Err(AppError::RunFailed("provider failed".to_string()));
    for wait in [None, Some(false)] {
        for outcome in [None, Some(&done), Some(&failed)] {
            let told = answer_start(wait, None, &fresh, &run, outcome).unwrap().unwrap();
            assert_eq!(told.run_id, "run_1");
            assert_eq!(told.status, RunStateName::Running);
            assert_eq!(told.final_answer, None);
        }
    }
    assert!(answer_start(Some(true), None, &fresh, &run, None).is_none());

    run.status = RunStatus {
        state: RunStateName::Finished,
        final_answer: Some("answer".to_string()),
        error: None,
    };
    let told = answer_start(Some(true), None, &fresh, &run, Some(&done))
        .unwrap()
        .unwrap();
    assert_eq!(told.status, RunStateName::Finished);
    assert_eq!(told.final_answer.as_deref(), Some("answer"));

    let reply = answer_start(
        Some(true),
        Some("req_7".to_string()),
        &fresh,
        &run,
        Some(&failed),
    )
    .unwrap()
    .unwrap_err();
    assert_eq!(reply.kind, EnvelopeKind::Error);
    assert_eq!(reply.id.as_deref(), Some("req_7"));
    assert_eq!(reply.method.as_deref(), Some("run.start"));
    let error = reply.error.unwrap();
    assert_eq!(error.code, "run_failed");
    assert_eq!(error.message, "run did not finish: provider failed");
}

#[test]
fn a_daemon_that_was_shut_down_refuses_known_runs_too() {
    let mut runtime = runtime();
    runtime.reserve_run(record("1")).unwrap();
    runtime.finish_run("run_1", "done".into());
    assert_eq!(runtime.shutdown_if_idle(), ShutdownIfIdleDecision::Shutdown);
    assert_eq!(
        runtime.reserve_run(record("1")),
        Err(RunAdmissionError::ShuttingDown)
    );
    assert_eq!(
        runtime.reserve_run(record("2")),
        Err(RunAdmissionError::ShuttingDown)
    );
    assert_eq!(
        runtime.reserve_issue_prep(),
        Err(IssuePrepAdmissionError::ShuttingDown)
    );
    assert_eq!(
        runtime.shutdown_if_idle(),
        ShutdownIfIdleDecision::AlreadyShuttingDown
    );
}
