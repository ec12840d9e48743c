use plato_agent::app::session::{RunLedger, RunOutcome, RunSession};
use plato_agent::cli::output::{
    gateway_daemon_error, issue_prep_output, run_success_output, shell_quote, sqlite_replay_hint,
};
use plato_agent::cli::prompt::{
    ApprovalAsked, DAEMON_EVENT_PAGE, DaemonPrompt, PromptAction, PromptEvent, PromptObservation,
    PromptPage, PromptRequest, STDIN_DENIAL, approval_granted, pending_of,
    prompt_daemon_approval, prompt_request, reported_failure,
};
use plato_agent::cli::{
    Cli, Command, DAEMON_CLIENT_TIMEOUT, DaemonStart, Entry, GatewayCommand, IssuePrepCommand,
    ReplaySource, daemon_prompt_eligible, entry, implicit_tui_requested, needs_workspace_lock,
    prompt_question, replay_ledger, replay_source, resolve_cli_path, run_ledger, run_session,
    sqlite_ledger, tui_options_from_cli, validate_daemon_cli, validate_gateway_cli,
    validate_issue_prep_cli, wait_for_persistent_daemon,
};
use plato_agent::daemon::client::DaemonClient;
use plato_agent::daemon::protocol::{
    IssuePrepResult, PendingApprovalSnapshot, RunStateName, TranscriptReadResult,
};
use plato_agent::error::AppError;
use plato_agent::tool_catalog::EffectClass;

fn cli(question: &[&str]) -> Cli {
    Cli {
        config: None,
        events: None,
        db: None,
        yolo: false,
        continue_session: false,
        tui: false,
        command: None,
        question: question.iter().map(|word| word.to_string()).collect(),
    }
}

fn config_error<T: std::fmt::Debug>(result: Result<T, AppError>) -> String {
    match result {
        Err(AppError::Config(message)) => message,
        other => panic!("{other:?}"),
    }
}

fn gateway_command() -> Option<Command> {
    Some(Command::Gateway {
        command: GatewayCommand::Discord { socket: None },
    })
}

fn issue_prep_command() -> Option<Command> {
    Some(Command::IssuePrep {
        command: IssuePrepCommand::Start {
            run_dir: "runs/123".to_string(),
        },
    })
}

#[test]
fn sqlite_success_hint_goes_to_stderr_without_changing_stdout() {
    let outcome = RunOutcome {
        run_id: "run_1".into(),
        final_answer: "done".into(),
    };
    let ledger = RunLedger::Sqlite("/tmp/plato proof/agent.db".to_string());

    let output = run_success_output(&outcome, &ledger);

    assert_eq!(output.stdout, "done\n");
    assert_eq!(
        output.stderr,
        "run_id: run_1\nledger_path: /tmp/plato proof/agent.db\nreplay: plato replay --db='/tmp/plato proof/agent.db' --run run_1\n"
    );
    assert_eq!(
        sqlite_replay_hint("run_1", "/tmp/plato proof/agent.db"),
        output.stderr
    );
}

#[test]
fn jsonl_success_does_not_print_replay_hint() {
    let outcome = RunOutcome {
        run_id: "run_1".into(),
        final_answer: "done".into(),
    };
    let output = run_success_output(&outcome, &RunLedger::Jsonl("events.jsonl".to_string()));
    assert_eq!(output.stdout, "done\n");
    assert!(output.stderr.is_empty());
}

#[test]
fn service_commands_reject_unrelated_run_options() {
    let mut daemon = cli(&[]);
    daemon.config = Some("plato.toml".to_string());
    daemon.command = Some(Command::Daemon { socket: None });
    assert!(config_error(validate_daemon_cli(&daemon)).starts_with("plato daemon cannot be combined"));
    assert!(config_error(entry(&daemon, true, true)).starts_with("plato daemon cannot be combined"));

    let mut gateway = cli(&[]);
    gateway.db = Some(None);
    gateway.command = gateway_command();
    assert!(
        config_error(validate_gateway_cli(&gateway)).starts_with("plato gateway cannot be combined")
    );
}

#[test]
fn issue_prep_rejects_one_shot_run_options() {
    let mut issue = cli(&[]);
    issue.db = Some(None);
    issue.command = issue_prep_command();
    assert_eq!(
        config_error(validate_issue_prep_cli(&issue)),
        "plato issue-prep cannot be combined with --events, --db, --yolo, or -c"
    );
    issue.db = None;
    issue.question = vec!["q".to_string()];
    assert_eq!(
        config_error(validate_issue_prep_cli(&issue)),
        "plato issue-prep cannot be combined with a question"
    );
}

#[test]
fn issue_prep_candidate_uses_stdout_and_reports_its_run_directory() {
    let output = issue_prep_output(
        IssuePrepResult::Candidate {
            markdown: "# Candidate\n".into(),
        },
        "/tmp/issue-prep-123".to_string(),
    )
    .unwrap();
    assert_eq!(output.stdout, "# Candidate\n");
    assert_eq!(output.stderr, "run_dir: /tmp/issue-prep-123\n");
}

#[test]
fn issue_prep_block_is_a_typed_error_without_stdout() {
    let error = issue_prep_output(
        IssuePrepResult::Blocked {
            stage: "review".into(),
            reasons: vec!["proof is incomplete".into()],
        },
        "/tmp/issue-prep-123".to_string(),
    )
    .unwrap_err();
    assert!(matches!(
        error,
        AppError::IssuePrepBlocked { stage, reasons, run_dir }
            if stage == "review"
                && reasons == "proof is incomplete"
                && run_dir == "/tmp/issue-prep-123"
    ));
    let error = issue_prep_output(
        IssuePrepResult::Blocked {
            stage: "s".into(),
            reasons: vec!["a".into(), "b".into()],
        },
        "d".to_string(),
    )
    .unwrap_err();
    assert_eq!(error.message(), "issue prep blocked at s: a; b (run_dir: d)");
}

#[test]
fn tui_flag_builds_tui_options_with_config() {
    let mut tui = cli(&[]);
    tui.tui = true;
    tui.config = Some("custom.toml".to_string());

    let options = tui_options_from_cli(&tui, "/work").unwrap();

    assert_eq!(options.workspace, "/work");
    assert_eq!(options.config.as_deref(), Some("custom.toml"));
    assert_eq!(options.socket, None);
    assert_eq!(options.run, None);
    assert!(!options.snapshot);
    assert_eq!(entry(&tui, false, false), Ok(Entry::Tui));
}

#[test]
fn tui_flag_rejects_one_shot_only_options() {
    let mut tui = cli(&[]);
    tui.tui = true;
    tui.yolo = true;
    assert_eq!(
        config_error(tui_options_from_cli(&tui, "/work")),
        "plato --tui cannot be combined with --events, --db, --yolo, or -c"
    );
}

#[test]
fn tui_flag_rejects_questions() {
    let mut tui = cli(&["hello"]);
    tui.tui = true;
    assert_eq!(
        config_error(tui_options_from_cli(&tui, "/work")),
        "plato --tui cannot be combined with a question"
    );
    tui.question.clear();
    tui.command = gateway_command();
    assert_eq!(
        config_error(tui_options_from_cli(&tui, "/work")),
        "plato --tui cannot be combined with subcommands"
    );
}

#[test]
fn implicit_tui_requires_both_terminals_and_no_explicit_entry() {
    let bare = cli(&[]);
    assert!(implicit_tui_requested(&bare, true, true));
    assert!(!implicit_tui_requested(&bare, false, true));
    assert!(!implicit_tui_requested(&bare, true, false));
    assert_eq!(prompt_question(&bare), Err(AppError::EmptyQuestion));

    let prompt = cli(&["hello"]);
    assert!(!implicit_tui_requested(&prompt, true, true));
    let empty_prompt = cli(&[""]);
    assert!(!implicit_tui_requested(&empty_prompt, true, true));
    assert_eq!(prompt_question(&empty_prompt), Err(AppError::EmptyQuestion));
    let mut replay = cli(&[]);
    replay.command = Some(Command::Replay {
        run: None,
        file: None,
    });
    assert!(!implicit_tui_requested(&replay, true, true));
    assert_eq!(entry(&replay, true, true), Ok(Entry::Replay));
    assert_eq!(entry(&bare, false, false), Ok(Entry::Prompt));
    assert_eq!(
        prompt_question(&cli(&["two", "words"])),
        Ok("two words".to_string())
    );
}

#[test]
fn daemon_prompt_eligibility_keeps_explicit_run_modes_direct() {
    let hello = || cli(&["hello"]);
    let mut bare_db = hello();
    bare_db.db = Some(None);
    let mut config = hello();
    config.config = Some("custom.toml".to_string());
    for cli in [hello(), bare_db, config] {
        assert!(daemon_prompt_eligible(&cli));
    }
    let mut events = hello();
    events.events = Some("events.jsonl".to_string());
    let mut db = hello();
    db.db = Some(Some("events.db".to_string()));
    let mut yolo = hello();
    yolo.yolo = true;
    for cli in [events, db, yolo] {
        assert!(!daemon_prompt_eligible(&cli));
    }
}

fn pending(input_preview: Option<&str>, approval_preview: Option<&str>) -> PendingApprovalSnapshot {
    PendingApprovalSnapshot {
        run_id: "run_1".into(),
        tool_call_id: "call_1".into(),
        tool_name: "file.write".into(),
        effect: EffectClass::WorkspaceWrite,
        reason: Some("approval required".into()),
        input_preview: input_preview.map(str::to_string),
        approval_preview: approval_preview.map(str::to_string),
        diff_preview: None,
    }
}

#[test]
fn delegated_approval_keeps_stdin_default_no() {
    assert!(!approval_granted("\n"));
    assert_eq!(
        prompt_daemon_approval(&pending(Some(r#"{"path":"out.txt"}"#), None)),
        r#"Approve file.write {"path":"out.txt"}? [y/N] "#
    );
    assert_eq!(
        prompt_daemon_approval(&pending(Some("x"), Some("preview"))),
        "Approve file.write?\npreview\n[y/N] "
    );
    assert_eq!(
        prompt_daemon_approval(&pending(None, None)),
        "Approve file.write? [y/N] "
    );
    for yes in ["y", "Y\n", " yes ", "YES\r\n"] {
        assert!(approval_granted(yes));
    }
    for no in ["", "n", "yess", "y e s", "yep"] {
        assert!(!approval_granted(no));
    }
}

fn asked() -> ApprovalAsked {
    ApprovalAsked {
        run_id: "run_1".to_string(),
        tool_call_id: "call_1".to_string(),
        tool_name: "file.write".to_string(),
        effect: EffectClass::WorkspaceWrite,
        reason: "approval required".to_string(),
        approval_preview: None,
        diff_preview: None,
    }
}

fn transcript(
    answer: Option<&str>,
    pending_approval: Option<PendingApprovalSnapshot>,
) -> PromptObservation {
    PromptObservation::Transcript(TranscriptReadResult {
        run_id: "run_1".to_string(),
        status: RunStateName::Finished,
        final_answer: answer.map(str::to_string),
        transcript: String::new(),
        typed: None,
        pending_approval,
    })
}

fn page(status: RunStateName, next_offset: u64, events: Vec<PromptEvent>) -> PromptObservation {
    PromptObservation::Page(PromptPage {
        next_offset,
        status,
        events,
    })
}

fn delta(text: &str) -> PromptEvent {
    PromptEvent::Delta {
        text: text.to_string(),
    }
}

fn ledger(record: &str) -> PromptEvent {
    PromptEvent::Ledger {
        record: record.to_string(),
    }
}

const RESPONDED: &str = r#"{"seq": 3, "event": {"event": "model_responded", "step": 0}}"#;
const FAILED: &str =
    r#"{"seq": 4, "event": {"event": "run_failed", "reason": "provider returned invalid SSE JSON"}}"#;

/// Follows a prompt; the result is what was written to the standard error and what was done, and
/// how it ended.
fn follow(script: Vec<PromptObservation>) -> (String, Vec<String>, PromptAction) {
    let mut script = script.into_iter();
    let mut stderr = String::new();
    let mut done = Vec::new();
    let (mut prompt, mut action) =
        DaemonPrompt::start("run_1".to_string(), "/tmp/agent.db".to_string());
    loop {
        let observation = match action {
            PromptAction::FetchEvents {
                run_id,
                from_offset,
            } => {
                assert_eq!(run_id, "run_1");
                done.push(format!("events {from_offset:?}"));
                script.next().unwrap()
            }
            PromptAction::Show(text) => {
                stderr.push_str(&text);
                PromptObservation::Shown
            }
            PromptAction::ReadTranscript { run_id } => {
                done.push(format!("transcript {run_id}"));
                script.next().unwrap()
            }
            PromptAction::Ask(question) => {
                stderr.push_str(&question);
                script.next().unwrap()
            }
            PromptAction::Grant {
                run_id,
                tool_call_id,
            } => {
                done.push(format!("grant {run_id} {tool_call_id}"));
                PromptObservation::Decided
            }
            PromptAction::Deny {
                run_id,
                tool_call_id,
            } => {
                done.push(format!("deny {run_id} {tool_call_id}"));
                PromptObservation::Decided
            }
            PromptAction::Sleep => PromptObservation::Slept,
            end => return (stderr, done, end),
        };
        action = prompt.step(observation);
    }
}

#[test]
fn serving_daemon_handles_fresh_and_latest_continuation() {
    let mut client = DaemonClient::connect();
    match prompt_request(&mut client, "first question".to_string(), false, None) {
        PromptRequest::Start(request) => {
            assert_eq!(request.params.unwrap().question, "first question")
        }
        other => panic!("{other:?}"),
    }
    match prompt_request(
        &mut client,
        "follow up".to_string(),
        true,
        Some("c.toml".to_string()),
    ) {
        PromptRequest::Append(request) => {
            let params = request.params.unwrap();
            assert_eq!(params.message, "follow up");
            assert_eq!(params.session_id, None);
            assert_eq!(params.config_path.as_deref(), Some("c.toml"));
        }
        other => panic!("{other:?}"),
    }

    let (stderr, done, end) = follow(vec![
        page(
            RunStateName::Running,
            2,
            vec![delta("first "), delta("answer"), ledger(RESPONDED)],
        ),
        page(RunStateName::Finished, 2, vec![]),
        transcript(Some("first answer"), None),
    ]);
    assert_eq!(stderr, "first answer\n");
    assert_eq!(
        done,
        vec!["events Some(0)", "events Some(2)", "transcript run_1"]
    );
    assert_eq!(
        end,
        PromptAction::Finish {
            stdout: "first answer\n".to_string(),
            stderr: "run_id: run_1\nledger_path: /tmp/agent.db\nreplay: plato replay --db=/tmp/agent.db --run run_1\n".to_string(),
        }
    );

    let (stderr, _, end) = follow(vec![
        page(RunStateName::Finished, 1, vec![delta("second answer")]),
        transcript(Some("second answer"), None),
    ]);
    assert_eq!(stderr, "second answer\n");
    assert!(matches!(
        end,
        PromptAction::Finish { stdout, stderr }
            if stdout == "second answer\n" && stderr.starts_with("run_id: run_")
    ));
}

#[test]
fn delegated_prompt_tolerates_context_compaction_ledger_event() {
    let (stderr, _, end) = follow(vec![
        page(
            RunStateName::Finished,
            2,
            vec![
                ledger(r#"{"event": {"event": "context_compacted"}}"#),
                PromptEvent::Other,
                delta("current answer"),
            ],
        ),
        transcript(Some("current answer"), None),
    ]);
    assert_eq!(stderr, "current answer\n");
    assert!(matches!(
        end,
        PromptAction::Finish { stdout, .. } if stdout == "current answer\n"
    ));
}

#[test]
fn delegated_prompt_bridges_stdin_grant_and_denial() {
    for (line, final_answer, decision) in [
        ("y\n", "granted", "grant run_1 call_1"),
        ("\n", "denied", "deny run_1 call_1"),
    ] {
        let (stderr, done, end) = follow(vec![
            page(
                RunStateName::Running,
                1,
                vec![PromptEvent::Approval(asked())],
            ),
            transcript(
                None,
                Some(pending(
                    Some(r#"{"content":"hello","path":"out.txt"}"#),
                    None,
                )),
            ),
            PromptObservation::Answered(line.to_string()),
            page(RunStateName::Finished, 1, vec![]),
            transcript(Some(final_answer), None),
        ]);
        assert!(stderr.contains(
            r#"Approve file.write {"content":"hello","path":"out.txt"}? [y/N] "#
        ));
        assert!(done.contains(&decision.to_string()));
        assert!(matches!(
            end,
            PromptAction::Finish { stdout, .. } if stdout == format!("{final_answer}\n")
        ));
    }
    assert_eq!(STDIN_DENIAL, "approval denied by stdin");
}

#[test]
fn an_approval_that_is_no_longer_pending_is_asked_about_as_it_was_reported() {
    let mut other = pending(Some("x"), Some("y"));
    other.tool_call_id = "call_2".to_string();
    assert_eq!(
        pending_of(asked(), Some(other)),
        PendingApprovalSnapshot {
            input_preview: None,
            ..pending(None, None)
        }
    );
    assert_eq!(
        pending_of(asked(), Some(pending(Some("in"), None))),
        pending(Some("in"), None)
    );
}

#[test]
fn delegated_prompt_returns_terminal_daemon_failure() {
    assert_eq!(
        reported_failure(FAILED).as_deref(),
        Some("provider returned invalid SSE JSON")
    );
    let (_, _, end) = follow(vec![page(RunStateName::Failed, 1, vec![ledger(FAILED)])]);
    assert_eq!(
        end,
        PromptAction::Fail(AppError::RunFailed(
            "provider returned invalid SSE JSON".to_string()
        ))
    );
    let (_, _, end) = follow(vec![page(RunStateName::Interrupted, 1, vec![])]);
    assert_eq!(
        end,
        PromptAction::Fail(AppError::RunFailed(
            "daemon run run_1 ended as interrupted".to_string()
        ))
    );
    let (_, _, end) = follow(vec![page(RunStateName::Canceled, 1, vec![])]);
    assert_eq!(end, PromptAction::Fail(AppError::RunCanceled));
    let (_, _, end) = follow(vec![
        page(RunStateName::Finished, 1, vec![]),
        transcript(None, None),
    ]);
    assert_eq!(
        end,
        PromptAction::Fail(AppError::DaemonProtocol(
            "finished daemon run run_1 omitted its final answer".to_string()
        ))
    );
    let (_, _, end) = follow(vec![PromptObservation::Failed(AppError::EmptyQuestion)]);
    assert_eq!(end, PromptAction::Fail(AppError::EmptyQuestion));
}

#[test]
fn a_full_page_is_followed_by_the_next_at_once() {
    let full: Vec<PromptEvent> = (0..DAEMON_EVENT_PAGE).map(|_| PromptEvent::Other).collect();
    let (_, done, _) = follow(vec![
        page(RunStateName::Finished, 128, full),
        page(RunStateName::Finished, 128, vec![]),
        transcript(Some("a"), None),
    ]);
    assert_eq!(
        done,
        vec!["events Some(0)", "events Some(128)", "transcript run_1"]
    );
}

fn default_ledger() -> Result<String, AppError> {
    Ok("/state/agent.db".to_string())
}

#[test]
fn explicit_sqlite_path_is_resolved_against_workspace_root() {
    assert_eq!(
        sqlite_ledger(
            Some(Some("agent.db".to_string())),
            "/work",
            default_ledger()
        ),
        Ok(RunLedger::Sqlite("/work/agent.db".to_string()))
    );
    assert_eq!(
        resolve_cli_path("/abs/agent.db".to_string(), "/work"),
        "/abs/agent.db"
    );
}

#[test]
fn default_run_uses_default_sqlite_path() {
    for db in [None, Some(None)] {
        assert_eq!(
            run_ledger(None, db, "/work", default_ledger()),
            Ok(RunLedger::DefaultSqlite("/state/agent.db".to_string()))
        );
    }
    assert_eq!(
        run_ledger(
            Some("e".to_string()),
            Some(None),
            "/work",
            default_ledger()
        ),
        Err(AppError::Config(
            "--events and --db are mutually exclusive".to_string()
        ))
    );
    assert_eq!(
        run_ledger(None, None, "/work", Err(AppError::RunCanceled)),
        Err(AppError::RunCanceled)
    );
}

#[test]
fn jsonl_run_does_not_check_daemon_lock() {
    let ledger = run_ledger(
        Some("events.jsonl".to_string()),
        None,
        "/work",
        default_ledger(),
    )
    .unwrap();
    assert_eq!(ledger, RunLedger::Jsonl("events.jsonl".to_string()));
    assert!(!needs_workspace_lock(&ledger));
    assert!(needs_workspace_lock(&RunLedger::Sqlite("x".to_string())));
    assert!(needs_workspace_lock(&RunLedger::DefaultSqlite("x".to_string())));
}

#[test]
fn default_sqlite_run_starts_fresh_session() {
    let session = run_session(
        false,
        &RunLedger::DefaultSqlite("/state/agent.db".to_string()),
        Err(AppError::NoSqliteSessions),
        "session_new".to_string(),
    )
    .unwrap()
    .unwrap();
    assert_eq!(
        session,
        RunSession::Fresh {
            session_id: "session_new".to_string()
        }
    );
}

#[test]
fn continue_rejects_jsonl_ledger() {
    let ledger = RunLedger::Jsonl("events.jsonl".to_string());
    assert_eq!(
        config_error(run_session(
            true,
            &ledger,
            Ok("s".to_string()),
            "f".to_string()
        )),
        "plato -c requires the SQLite ledger; remove --events"
    );
    assert_eq!(
        run_session(false, &ledger, Ok("s".to_string()), "f".to_string()),
        Ok(None)
    );
}

#[test]
fn continue_uses_latest_sqlite_session() {
    let ledger = RunLedger::Sqlite("/work/agent.db".to_string());
    assert_eq!(
        run_session(true, &ledger, Ok("session_1".to_string()), "f".to_string()),
        Ok(Some(RunSession::Continue {
            session_id: "session_1".into()
        }))
    );
    for none in [AppError::NoSqliteSessions, AppError::NoSqliteRuns] {
        assert_eq!(
            config_error(run_session(true, &ledger, Err(none), "f".to_string())),
            "plato -c found no previous SQLite session; run plato \"...\" first"
        );
    }
    assert_eq!(
        run_session(true, &ledger, Err(AppError::RunCanceled), "f".to_string()),
        Err(AppError::RunCanceled)
    );
}

#[test]
fn bare_replay_uses_default_sqlite_path() {
    assert_eq!(
        replay_ledger(None, None, "/work", default_ledger()),
        Ok(RunLedger::DefaultSqlite("/state/agent.db".to_string()))
    );
}

#[test]
fn replay_file_stays_explicit_jsonl() {
    let ledger = replay_ledger(
        None,
        Some("events.jsonl".to_string()),
        "/work",
        default_ledger(),
    )
    .unwrap();
    assert_eq!(ledger, RunLedger::Jsonl("events.jsonl".to_string()));
    assert_eq!(
        config_error(replay_source(ledger, Some("run_1".to_string()))),
        "replay --run requires --db"
    );
    assert_eq!(
        replay_source(RunLedger::Jsonl("f".to_string()), None),
        Ok(ReplaySource::File {
            path: "f".to_string()
        })
    );
    assert_eq!(
        replay_source(RunLedger::Sqlite("d".to_string()), Some("r".to_string())),
        Ok(ReplaySource::Sqlite {
            path: "d".to_string(),
            run: Some("r".to_string())
        })
    );
    assert_eq!(
        config_error(replay_ledger(
            Some(None),
            Some("f".to_string()),
            "/work",
            default_ledger()
        )),
        "replay accepts either --db or a JSONL file, not both"
    );
}

#[test]
fn paths_are_quoted_for_a_shell() {
    assert_eq!(shell_quote("/tmp/a-b_c.d:1"), "/tmp/a-b_c.d:1");
    assert_eq!(shell_quote("a b"), "'a b'");
    assert_eq!(shell_quote("it's"), "'it'\\''s'");
    assert_eq!(shell_quote(""), "");
    assert_eq!(shell_quote("é"), "'é'");
}

#[test]
fn a_started_daemon_is_waited_for() {
    let wait = |serving: bool, exited: Option<&str>, now: u128| {
        wait_for_persistent_daemon(serving, exited.map(str::to_string), now, 10, "/run/s.sock")
    };
    assert_eq!(wait(true, Some("exit status: 1"), 99), DaemonStart::Ready);
    assert_eq!(
        wait(false, Some("exit status: 1"), 99),
        DaemonStart::Exited(AppError::Config(
            "persistent plato-agentd exited before accepting connections: exit status: 1"
                .to_string()
        ))
    );
    assert_eq!(wait(false, None, 9), DaemonStart::Poll);
    assert_eq!(
        wait(false, None, 10),
        DaemonStart::TimedOut(AppError::Config(
            "timed out waiting for persistent plato-agentd at /run/s.sock".to_string()
        ))
    );
    assert_eq!(DAEMON_CLIENT_TIMEOUT, 3_000_000_000);
}

#[test]
fn a_missing_daemon_is_reported_with_how_to_start_it() {
    let failed = AppError::DaemonProtocol("nobody".to_string());
    assert_eq!(
        gateway_daemon_error(&Some("my sock".to_string()), "/work/my sock", &failed),
        AppError::Config(
            "workspace daemon is unavailable or incompatible at /work/my sock: daemon protocol error: nobody; start it with `plato daemon --socket 'my sock'`"
                .to_string()
        )
    );
    assert_eq!(
        gateway_daemon_error(&None, "/s", &failed),
        AppError::Config(
            "workspace daemon is unavailable or incompatible at /s: daemon protocol error: nobody; start it with `plato daemon`"
                .to_string()
        )
    );
}
