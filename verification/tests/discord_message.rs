use plato_agent::app::model::{ReasoningEffort, RunOverrides};
use plato_agent::config::DiscordGatewayConfig;
use plato_agent::daemon::client::DaemonClient;
use plato_agent::daemon::protocol::{
    ProtocolError, RunStateName, SessionSummary, TranscriptReadResult,
};
use plato_agent::discord_gateway::delivery::{
    EffectAction, EffectObservation, EffectWork, MessageSend, SendAction,
};
use plato_agent::discord_gateway::gateway::{
    DiscordGateway, MessageDecision, RUN_FAILED_MESSAGE, RunRequest,
};
use plato_agent::discord_gateway::message::{MessageAction, MessageObservation, MessageWork};
use plato_agent::discord_gateway::presentation::{Emoji, PresentationEffect};
use plato_agent::discord_gateway::receiver::DiscordMessage;
use plato_agent::discord_gateway::rest::{
    DiscordRestClient, RateLimitAnswer, RestFailure,
};
use plato_agent::discord_gateway::run_wait::{
    EVENT_PAGE_LIMIT, EventPage, WaitAction, WaitObservation,
};
use plato_agent::error::{AppError, IoKind};
use plato_agent::time::{NANOS_PER_MILLISECOND, NANOS_PER_SECOND};
use std::collections::{HashMap, VecDeque};
use std::time::Duration;

/// A service that answers as it is told, and keeps what it was asked.
struct World {
    client: DiscordRestClient,
    answers: VecDeque<Result<(), RestFailure>>,
    requests: Vec<String>,
    asked: Vec<String>,
    slept: Vec<u128>,
    now: u128,
}

impl World {
    fn new(answers: Vec<Result<(), RestFailure>>) -> World {
        World {
            client: DiscordRestClient::new("https://discord.test/", "test-token".to_string()),
            answers: answers.into(),
            requests: Vec::new(),
            asked: Vec::new(),
            slept: Vec::new(),
            now: 1_000,
        }
    }

    fn request(&mut self, words: String) -> Result<(), RestFailure> {
        self.requests.push(words);
        self.answers.pop_front().unwrap_or(Ok(()))
    }

    fn show(&mut self, effect: PresentationEffect) -> Result<(), AppError> {
        let (mut work, mut action) = EffectWork::start(&self.client, effect, self.now);
        loop {
            let observation = match action {
                EffectAction::Request => {
                    let words = match effect {
                        PresentationEffect::AddReaction(emoji)
                        | PresentationEffect::AddTerminalReaction(emoji) => {
                            format!("PUT {}", emoji.as_str())
                        }
                        PresentationEffect::RemoveReaction(emoji) => {
                            format!("DELETE {}", emoji.as_str())
                        }
                        PresentationEffect::TriggerTyping => "POST typing".to_string(),
                    };
                    EffectObservation::Answered {
                        answer: self.request(words),
                        now: self.now,
                    }
                }
                EffectAction::Sleep(wait) => {
                    self.slept.push(wait);
                    self.now += wait;
                    EffectObservation::Slept { now: self.now }
                }
                EffectAction::Done(result) => return result,
            };
            action = work.step(&mut self.client, observation);
        }
    }

    fn send(&mut self, text: &str) -> Result<(), AppError> {
        let (mut send, mut action) = MessageSend::start(&self.client, text, self.now);
        loop {
            match action {
                SendAction::Post(part) => {
                    let answer = self.request(format!("POST {part}"));
                    action = send.step(&mut self.client, answer, self.now);
                }
                SendAction::Done => return Ok(()),
                SendAction::Fail(error) => return Err(error),
            }
        }
    }

    /// Works on a message. `connect` is what comes of reaching the daemon, and `script` what the
    /// daemon then brings, in order.
    fn handle(
        &mut self,
        connect: Result<(), AppError>,
        script: Vec<WaitObservation>,
    ) -> Result<(), AppError> {
        let mut script = script.into_iter();
        let (mut work, mut action) = MessageWork::start(200, 300);
        loop {
            let observation = match action {
                MessageAction::Show(effect) => {
                    let _ = self.show(effect);
                    MessageObservation::Shown
                }
                MessageAction::ConnectDaemon => match connect.clone() {
                    Ok(()) => MessageObservation::Connected,
                    Err(error) => MessageObservation::ConnectFailed(error),
                },
                MessageAction::StartRun => MessageObservation::Started {
                    run_id: "run_1".to_string(),
                },
                MessageAction::Reply(text) => match self.send(&text) {
                    Ok(()) => MessageObservation::Replied,
                    Err(error) => MessageObservation::ReplyFailed(error),
                },
                MessageAction::Wait(wait) => {
                    MessageObservation::Waited(self.wait(wait, &mut script))
                }
                MessageAction::Done(result) => return result,
            };
            action = work.step(observation);
        }
    }

    fn wait(
        &mut self,
        action: WaitAction,
        script: &mut dyn Iterator<Item = WaitObservation>,
    ) -> WaitObservation {
        match action {
            WaitAction::FetchEvents {
                run_id,
                from_offset,
            } => {
                assert_eq!(run_id, "run_1");
                self.asked.push(format!("events {from_offset:?}"));
                script.next().unwrap()
            }
            WaitAction::SendMessage(text) => match self.send(&text) {
                Ok(()) => WaitObservation::MessageSent { now: self.now },
                Err(error) => WaitObservation::MessageFailed(error),
            },
            WaitAction::TriggerTyping => {
                let _ = self.show(PresentationEffect::TriggerTyping);
                WaitObservation::Shown
            }
            WaitAction::Sleep => WaitObservation::Slept,
            WaitAction::Delay => WaitObservation::Delayed,
            WaitAction::Connect => {
                self.asked.push("connect".to_string());
                script.next().unwrap()
            }
            WaitAction::ListSessions => {
                self.asked.push("sessions".to_string());
                script.next().unwrap()
            }
            WaitAction::ReadTranscript { run_id } => {
                assert_eq!(run_id, "run_1");
                self.asked.push("transcript".to_string());
                script.next().unwrap()
            }
            WaitAction::Done(_) | WaitAction::Fail(_) => unreachable!(),
        }
    }
}

const REQUEST: &str = r#"{"offset": 0, "event": {"kind": "approval_requested", "tool_call_id": "call_1", "tool_name": "file.write", "effect": "workspace_write", "approval_preview": "write note.txt"}}"#;
const BARE_REQUEST: &str = r#"{"offset": 0, "event": {"kind": "approval_requested", "run_id": "run_1", "tool_call_id": "call_1", "tool_name": "file.write", "effect": "workspace_write", "reason": "approval required"}}"#;
const PROPOSAL: &str = r#"{"offset": 1, "event": {"kind": "ledger", "record": {"event": {"event": "tool_call_proposed", "call": {"id": "call_1", "tool": "file.write", "effect": "workspace_write", "input": {"path": "note.txt", "content": "hello"}}}}}}"#;
const GRANTED: &str = r#"{"offset": 2, "event": {"kind": "ledger", "record": {"event": {"event": "approval_granted", "call_id": "call_1"}}}}"#;
const CANCELED: &str = r#"{"offset": 1, "event": {"kind": "canceled", "run_id": "run_1"}}"#;
const DELTA: &str = r#"{"offset": 1, "event": {"kind": "delta"}}"#;

fn page(from: u64, next: u64, status: RunStateName, entries: &[&str]) -> WaitObservation {
    WaitObservation::Events {
        page: EventPage {
            from_offset: from,
            next_offset: next,
            status,
            entries: entries.iter().map(|entry| entry.to_string()).collect(),
        },
        now: 1_000,
    }
}

fn read_back(status: RunStateName, answer: Option<&str>) -> WaitObservation {
    WaitObservation::Transcript(TranscriptReadResult {
        run_id: "run_1".into(),
        status,
        final_answer: answer.map(str::to_string),
        transcript: "not parsed".into(),
        typed: None,
        pending_approval: None,
    })
}

fn finished(answer: &str) -> Vec<WaitObservation> {
    vec![
        page(0, 0, RunStateName::Finished, &[]),
        read_back(RunStateName::Finished, Some(answer)),
    ]
}

fn sessions(run_id: &str, status: RunStateName) -> WaitObservation {
    WaitObservation::Sessions(vec![SessionSummary {
        session_id: "session_1".to_string(),
        run_id: run_id.to_string(),
        status,
        latest_question: "hello".to_string(),
        ledger_path: "/tmp/agent.db".to_string(),
    }])
}

fn io_error() -> AppError {
    AppError::Io {
        kind: IoKind::UnexpectedEof,
        message: "eof".into(),
    }
}

fn too_many(retry_after: Option<f64>, header: Option<&str>, global: bool) -> RestFailure {
    let nanos = |seconds: f64| Duration::from_secs_f64(seconds).as_nanos();
    RestFailure::TooManyRequests(RateLimitAnswer {
        header_retry_after: header.map(|value| nanos(value.parse().unwrap())),
        header_global: None,
        header_scope: None,
        body_retry_after: retry_after.map(nanos),
        body_global: global,
    })
}

fn gateway() -> DiscordGateway {
    DiscordGateway::new(
        None,
        DiscordGatewayConfig {
            api_key_env: "DISCORD_BOT_TOKEN".into(),
            owner_user_ids: vec![42],
            channel_configs: HashMap::new(),
        },
    )
}

fn message(content: &str) -> DiscordMessage {
    DiscordMessage {
        id: 300,
        channel_id: 200,
        author_id: 42,
        content: content.into(),
    }
}

#[test]
fn owner_message_replies_with_typed_final_answer() {
    let mut gateway = gateway();
    let content = "keep\u{2003}this\u{7} byte-for-byte";
    assert_eq!(
        gateway.poll_once(&message(content)),
        MessageDecision::Handle
    );
    let overrides = RunOverrides {
        model: Some("openai/gpt-5".into()),
        reasoning_effort: Some(ReasoningEffort::High),
    };
    let mut daemon = DaemonClient::connect();
    match gateway.handle_message(&mut daemon, message(content), overrides) {
        RunRequest::Start(request) => {
            let params = request.params.unwrap();
            assert_eq!(params.question, content);
            assert_eq!(params.overrides.model.as_deref(), Some("openai/gpt-5"));
            assert_eq!(
                params.overrides.reasoning_effort.unwrap().as_str(),
                "high"
            );
            assert_eq!(params.wait, Some(false));
        }
        RunRequest::Append(request) => panic!("{request:?}"),
    }
    gateway.started(200, "session_1".to_string());

    let mut world = World::new(vec![]);
    world.handle(Ok(()), finished("final answer")).unwrap();
    assert_eq!(
        world.requests,
        ["PUT 👀", "POST final answer", "DELETE 👀", "PUT ✅"]
    );
    assert_eq!(
        world.client.messages_url(200),
        "https://discord.test/channels/200/messages"
    );
    assert_eq!(world.client.authorization(), "Bot test-token");
    assert_eq!(gateway.sessions[&200], "session_1");
}

#[test]
fn owner_followup_appends_to_channel_session() {
    let mut gateway = gateway();
    gateway.started(200, "session_existing".to_string());
    let overrides = RunOverrides {
        model: Some("openai/gpt-5-mini".into()),
        reasoning_effort: Some(ReasoningEffort::Low),
    };
    let mut daemon = DaemonClient::connect();
    match gateway.handle_message(&mut daemon, message("follow up"), overrides) {
        RunRequest::Append(request) => {
            let params = request.params.unwrap();
            assert_eq!(params.message, "follow up");
            assert_eq!(params.session_id.as_deref(), Some("session_existing"));
            assert_eq!(
                params.overrides.model.as_deref(),
                Some("openai/gpt-5-mini")
            );
            assert_eq!(params.overrides.reasoning_effort.unwrap().as_str(), "low");
            assert_eq!(params.wait, Some(false));
        }
        RunRequest::Start(request) => panic!("{request:?}"),
    }
    gateway.started(200, "session_existing".to_string());
    let mut world = World::new(vec![]);
    world.handle(Ok(()), finished("next answer")).unwrap();
    assert_eq!(world.requests[1], "POST next answer");
    assert_eq!(gateway.sessions[&200], "session_existing");
}

#[test]
fn catch_up_pages_do_not_burst_typing() {
    let limit = EVENT_PAGE_LIMIT as u64;
    let mut first = vec![REQUEST];
    first.extend(vec![DELTA; EVENT_PAGE_LIMIT - 1]);
    let mut second = vec![GRANTED];
    second.extend(vec![DELTA; EVENT_PAGE_LIMIT - 1]);
    let mut world = World::new(vec![]);
    world
        .handle(
            Ok(()),
            vec![
                page(0, limit, RunStateName::Running, &first),
                page(limit, 2 * limit, RunStateName::Running, &second),
                page(2 * limit, 2 * limit, RunStateName::Running, &[]),
                page(2 * limit, 2 * limit, RunStateName::Finished, &[]),
                read_back(RunStateName::Finished, Some("caught up")),
            ],
        )
        .unwrap();
    assert_eq!(
        world.requests,
        [
            "PUT 👀",
            "POST typing",
            "POST caught up",
            "DELETE 👀",
            "PUT ✅"
        ]
    );
}

#[test]
fn approval_required_run_notifies_once_then_replies_without_deciding() {
    let mut world = World::new(vec![]);
    world
        .handle(
            Ok(()),
            vec![
                page(0, 2, RunStateName::Running, &[BARE_REQUEST, PROPOSAL]),
                page(2, 3, RunStateName::Running, &[GRANTED]),
                page(3, 3, RunStateName::Finished, &[]),
                read_back(RunStateName::Finished, Some("saved note")),
            ],
        )
        .unwrap();
    assert_eq!(
        world.asked,
        [
            "events Some(0)",
            "events Some(2)",
            "events Some(3)",
            "transcript"
        ]
    );
    assert_eq!(
        world.requests,
        [
            "PUT 👀",
            "POST Approval required: `file.write` (workspace_write)\nPreview:\n{\n  \"content\": \"hello\",\n  \"path\": \"note.txt\"\n}\nGrant or deny it locally in `plato-tui`.",
            "POST typing",
            "POST saved note",
            "DELETE 👀",
            "PUT ✅"
        ]
    );
}

#[test]
fn request_decision_and_terminal_in_one_page_do_not_emit_stale_effects() {
    let mut world = World::new(vec![]);
    world
        .handle(
            Ok(()),
            vec![
                page(0, 2, RunStateName::Finished, &[REQUEST, GRANTED]),
                read_back(
                    RunStateName::Finished,
                    Some("saved without stale effects"),
                ),
            ],
        )
        .unwrap();
    assert_eq!(
        world.requests,
        [
            "PUT 👀",
            "POST saved without stale effects",
            "DELETE 👀",
            "PUT ✅"
        ]
    );
}

#[test]
fn failed_run_sends_canonical_terminal_notification() {
    let mut world = World::new(vec![]);
    world
        .handle(
            Ok(()),
            vec![
                page(0, 0, RunStateName::Failed, &[]),
                read_back(RunStateName::Failed, None),
            ],
        )
        .unwrap();
    assert_eq!(
        world.requests,
        [
            "PUT 👀".to_string(),
            format!("POST {RUN_FAILED_MESSAGE}"),
            "DELETE 👀".to_string(),
            "PUT ❌".to_string()
        ]
    );
}

#[test]
fn canceled_and_interrupted_runs_only_remove_eyes() {
    for status in [RunStateName::Canceled, RunStateName::Interrupted] {
        let mut world = World::new(vec![]);
        world
            .handle(
                Ok(()),
                vec![page(0, 0, status, &[]), read_back(status, None)],
            )
            .unwrap();
        assert_eq!(world.requests, ["PUT 👀", "DELETE 👀"]);
    }
}

#[test]
fn cancel_requested_stops_typing_without_changing_reactions() {
    let mut world = World::new(vec![]);
    world
        .handle(
            Ok(()),
            vec![
                page(0, 0, RunStateName::CancelRequested, &[]),
                page(0, 0, RunStateName::Canceled, &[]),
                read_back(RunStateName::Canceled, None),
            ],
        )
        .unwrap();
    assert_eq!(world.requests, ["PUT 👀", "DELETE 👀"]);
}

#[test]
fn canceled_event_keeps_running_status_quiet_until_terminal() {
    let mut world = World::new(vec![]);
    world
        .handle(
            Ok(()),
            vec![
                page(0, 2, RunStateName::Running, &[REQUEST, CANCELED]),
                page(2, 2, RunStateName::Canceled, &[]),
                read_back(RunStateName::Canceled, None),
            ],
        )
        .unwrap();
    assert_eq!(world.requests, ["PUT 👀", "DELETE 👀"]);
}

#[test]
fn outer_daemon_failure_attempts_reaction_cleanup_then_propagates() {
    let mut world = World::new(vec![]);
    let missing = AppError::Io {
        kind: IoKind::NotFound,
        message: "no such file".to_string(),
    };
    let error = world.handle(Err(missing), vec![]).unwrap_err();
    assert!(matches!(error, AppError::Io { .. }));
    assert_eq!(world.requests, ["PUT 👀", "DELETE 👀", "PUT ❌"]);
}

#[test]
fn product_message_failure_attempts_cleanup_then_propagates() {
    let mut world = World::new(vec![Ok(()), Err(RestFailure::Status(500))]);
    let error = world.handle(Ok(()), finished("answer")).unwrap_err();
    assert!(error.message().contains("message send returned HTTP 500"));
    assert_eq!(
        world.requests,
        ["PUT 👀", "POST answer", "DELETE 👀", "PUT ❌"]
    );
}

#[test]
fn a_notification_that_cannot_be_sent_ends_the_work() {
    let mut world = World::new(vec![Ok(()), Err(RestFailure::Status(500))]);
    let error = world
        .handle(
            Ok(()),
            vec![page(0, 1, RunStateName::Running, &[REQUEST])],
        )
        .unwrap_err();
    assert!(error.message().contains("message send returned HTTP 500"));
    assert_eq!(world.requests[2..], ["DELETE 👀", "PUT ❌"]);
}

#[test]
fn reconnect_reads_exact_run_when_the_session_has_advanced() {
    let mut world = World::new(vec![]);
    world
        .handle(
            Ok(()),
            vec![
                WaitObservation::EventsFailed(io_error()),
                WaitObservation::ConnectFailed(io_error()),
                WaitObservation::Connected,
                sessions("run_2", RunStateName::Running),
                read_back(RunStateName::Finished, Some("recovered answer")),
            ],
        )
        .unwrap();
    assert_eq!(
        world.asked,
        [
            "events Some(0)",
            "connect",
            "connect",
            "sessions",
            "transcript"
        ]
    );
    assert_eq!(world.requests[1], "POST recovered answer");
}

#[test]
fn reconnect_clears_pending_pause_and_resumes_typing() {
    let mut world = World::new(vec![]);
    world
        .handle(
            Ok(()),
            vec![
                page(0, 1, RunStateName::Running, &[REQUEST]),
                WaitObservation::EventsFailed(io_error()),
                WaitObservation::Connected,
                sessions("run_1", RunStateName::Running),
                page(3, 3, RunStateName::Running, &[]),
                page(3, 3, RunStateName::Finished, &[]),
                read_back(RunStateName::Finished, Some("answer after reconnect")),
            ],
        )
        .unwrap();
    assert_eq!(world.requests[0], "PUT 👀");
    assert!(world.requests[1].starts_with("POST Approval required:"));
    assert_eq!(
        world.requests[2..],
        [
            "POST typing",
            "POST answer after reconnect",
            "DELETE 👀",
            "PUT ✅"
        ]
    );
    assert_eq!(world.asked[4], "events None");
}

#[test]
fn lag_resumes_at_tip_and_reads_typed_final_answer() {
    let mut world = World::new(vec![]);
    world
        .handle(
            Ok(()),
            vec![
                page(0, 1, RunStateName::Running, &[REQUEST]),
                WaitObservation::EventsFailed(AppError::DaemonResponse(ProtocolError {
                    code: "lagged".to_string(),
                    message: "lagged".to_string(),
                })),
                page(3, 3, RunStateName::Running, &[]),
                page(3, 3, RunStateName::Finished, &[]),
                read_back(RunStateName::Finished, Some("answer after lag")),
            ],
        )
        .unwrap();
    assert_eq!(
        world.requests,
        [
            "PUT 👀",
            "POST Approval required: `file.write` (workspace_write)\nPreview:\nwrite note.txt\nGrant or deny it locally in `plato-tui`.",
            "POST typing",
            "POST answer after lag",
            "DELETE 👀",
            "PUT ✅"
        ]
    );
    assert_eq!(world.asked[2], "events None");
}

#[test]
fn terminal_reaction_waits_once_after_shared_bucket_429() {
    let mut world = World::new(vec![
        Ok(()),
        Ok(()),
        Ok(()),
        Err(too_many(Some(0.05), Some("0.05"), false)),
        Ok(()),
    ]);
    world.handle(Ok(()), finished("final answer")).unwrap();
    assert_eq!(
        world.requests,
        [
            "PUT 👀",
            "POST final answer",
            "DELETE 👀",
            "PUT ✅",
            "PUT ✅"
        ]
    );
    assert_eq!(world.slept, [50 * NANOS_PER_MILLISECOND]);
}

#[test]
fn terminal_reaction_drops_after_one_rate_limited_retry() {
    let mut world = World::new(vec![
        Err(too_many(Some(0.02), None, false)),
        Err(too_many(Some(0.02), None, false)),
    ]);
    let error = world
        .show(PresentationEffect::AddTerminalReaction(Emoji::Success))
        .unwrap_err();
    assert!(error
        .message()
        .contains("terminal reaction returned HTTP 429"));
    assert_eq!(world.requests, ["PUT ✅", "PUT ✅"]);
}

#[test]
fn terminal_reaction_does_not_wait_or_retry_global_429() {
    let mut world = World::new(vec![Err(too_many(Some(0.02), None, true))]);
    assert!(world
        .show(PresentationEffect::AddTerminalReaction(Emoji::Success))
        .is_err());
    assert_eq!(world.requests, ["PUT ✅"]);
    assert!(world.slept.is_empty());
}

#[test]
fn terminal_reaction_does_not_retry_429_without_retry_after() {
    let mut world = World::new(vec![Err(too_many(None, None, false))]);
    assert!(world
        .show(PresentationEffect::AddTerminalReaction(Emoji::Success))
        .is_err());
    assert_eq!(world.requests, ["PUT ✅"]);
    assert!(world.slept.is_empty());
}

#[test]
fn scoped_rate_limit_drops_presentation_while_product_messages_flow() {
    let mut world = World::new(vec![Err(too_many(Some(1336.57), Some("2"), false))]);
    world
        .show(PresentationEffect::AddReaction(Emoji::Eyes))
        .unwrap_err();
    world.show(PresentationEffect::TriggerTyping).unwrap();
    world.send("still delivered").unwrap();

    let limits = world.client.rate_limits;
    assert!(limits.presentation_not_before.unwrap() > world.now + 1_300 * NANOS_PER_SECOND);
    assert!(limits.global_not_before.is_none());
    assert_eq!(world.requests, ["PUT 👀", "POST still delivered"]);
}

#[test]
fn global_rate_limit_blocks_due_product_message_without_sending() {
    let mut failure = too_many(Some(1336.57), None, true);
    if let RestFailure::TooManyRequests(answer) = &mut failure {
        answer.header_scope = Some("global".to_string());
    }
    let mut world = World::new(vec![Err(failure)]);
    world
        .show(PresentationEffect::AddReaction(Emoji::Eyes))
        .unwrap_err();
    let error = world.send("not sent").unwrap_err();
    assert!(error.message().contains("globally rate limited"));
    assert_eq!(world.requests, ["PUT 👀"]);
}

#[test]
fn header_only_global_rate_limit_is_honored() {
    let mut failure = too_many(None, Some("90"), false);
    if let RestFailure::TooManyRequests(answer) = &mut failure {
        answer.header_global = Some("true".to_string());
    }
    let mut world = World::new(vec![Err(failure)]);
    world.show(PresentationEffect::TriggerTyping).unwrap_err();
    let limits = world.client.rate_limits;
    assert!(limits.global_not_before.unwrap() > world.now + 89 * NANOS_PER_SECOND);
    assert!(world.send("not sent").is_err());
    assert_eq!(world.requests.len(), 1);
}

#[test]
fn product_global_rate_limit_blocks_the_next_product_message() {
    let mut world = World::new(vec![Err(too_many(Some(90.0), None, true))]);
    assert!(world.send("first").is_err());
    let error = world.send("second").unwrap_err();
    assert!(error.message().contains("globally rate limited"));
    assert_eq!(world.requests, ["POST first"]);
}

#[test]
fn presentation_endpoints_accept_empty_no_content_responses() {
    let mut world = World::new(vec![Ok(()), Ok(()), Ok(())]);
    world
        .show(PresentationEffect::AddReaction(Emoji::Eyes))
        .unwrap();
    world.show(PresentationEffect::TriggerTyping).unwrap();
    world
        .show(PresentationEffect::RemoveReaction(Emoji::Eyes))
        .unwrap();
    assert_eq!(world.requests, ["PUT 👀", "POST typing", "DELETE 👀"]);
    assert!(world
        .client
        .typing_url(200)
        .ends_with("/channels/200/typing"));
}

#[test]
fn presentation_timeout_is_bounded_to_one_attempt() {
    let mut world = World::new(vec![Err(RestFailure::Transport)]);
    let error = world.show(PresentationEffect::TriggerTyping).unwrap_err();
    assert!(error.message().contains("typing transport failed"));
    assert_eq!(world.requests, ["POST typing"]);
    assert!(world.slept.is_empty());
}

#[test]
fn a_long_answer_is_posted_part_by_part() {
    let text: String = ('a'..='z').cycle().take(4_100).collect();
    let mut world = World::new(vec![]);
    world.send(&text).unwrap();
    assert_eq!(world.requests.len(), 3);
    let posted: String = world
        .requests
        .iter()
        .map(|request| request.strip_prefix("POST ").unwrap())
        .collect();
    assert_eq!(posted, text);

    let mut world = World::new(vec![Ok(()), Err(RestFailure::Transport)]);
    assert_eq!(
        world.send(&text),
        Err(AppError::Provider(
            "discord message send transport failed".to_string()
        ))
    );
    assert_eq!(world.requests.len(), 2);
    assert_eq!(World::new(vec![]).send(""), Ok(()));
}

#[test]
fn a_reaction_that_is_refused_is_reported_once() {
    for effect in [
        PresentationEffect::AddReaction(Emoji::Eyes),
        PresentationEffect::RemoveReaction(Emoji::Eyes),
    ] {
        let mut world = World::new(vec![Err(too_many(Some(0.01), None, false))]);
        assert_eq!(
            world.show(effect),
            Err(AppError::Provider(
                "discord reaction returned HTTP 429".to_string()
            ))
        );
        assert_eq!(world.requests.len(), 1);
    }
    let mut world = World::new(vec![Err(RestFailure::Status(403))]);
    assert_eq!(
        world.show(PresentationEffect::TriggerTyping),
        Err(AppError::Provider(
            "discord typing returned HTTP 403".to_string()
        ))
    );
}

#[test]
fn a_transcript_of_which_nothing_can_be_told_ends_the_work() {
    let mut world = World::new(vec![]);
    let error = world
        .handle(
            Ok(()),
            vec![
                page(0, 0, RunStateName::Finished, &[]),
                read_back(RunStateName::Finished, None),
            ],
        )
        .unwrap_err();
    assert_eq!(
        error,
        AppError::RunFailed(
            "run run_1 ended with status finished without a final answer".to_string()
        )
    );
    assert_eq!(world.requests, ["PUT 👀", "DELETE 👀", "PUT ❌"]);
}
