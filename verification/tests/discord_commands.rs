use plato_agent::app::model::{ReasoningEffort, RunOverrides};
use plato_agent::daemon::protocol::{HelloResult, RunStateName, SessionSummary};
use plato_agent::discord_gateway::command_work::{
    CommandAction, CommandObservation, CommandWork, DAEMON_STATUS_TIMEOUT,
};
use plato_agent::discord_gateway::commands::{
    ChannelSettings, CommandRequest, DISCORD_APPLICATION_COMMAND,
    DISCORD_DEFERRED_CHANNEL_MESSAGE, DISCORD_EPHEMERAL_FLAG, DaemonStatus, DiscordAuthor,
    DiscordCommand, DiscordCommandHandler, InteractionCreateEvent, InteractionData,
    InteractionMember, InteractionOption, MODEL_REFUSED, SettingChange, daemon_status,
    parse_snowflake,
};
use plato_agent::discord_gateway::rest::{
    DISCORD_CHAT_INPUT_COMMAND, DISCORD_MODEL_COMMAND, DISCORD_MODEL_OPTION,
    DISCORD_REASONING_COMMAND, DISCORD_REASONING_OPTION, DISCORD_STATUS_COMMAND,
    DISCORD_STRING_OPTION, RestFailure,
};
use plato_agent::error::AppError;

fn handler() -> DiscordCommandHandler {
    DiscordCommandHandler {
        api_base: "http://127.0.0.1".to_string(),
        application_id: 100,
        owner_user_ids: vec![42],
        base_model: "base-model".to_string(),
        settings: ChannelSettings::new(),
    }
}

fn interaction(
    author_id: u64,
    channel_id: u64,
    command: &str,
    option: Option<(&str, &str)>,
) -> InteractionCreateEvent {
    InteractionCreateEvent {
        id: "400".into(),
        application_id: "100".into(),
        channel_id: channel_id.to_string(),
        kind: DISCORD_APPLICATION_COMMAND,
        token: "interaction-token".into(),
        data: Some(InteractionData {
            kind: DISCORD_CHAT_INPUT_COMMAND,
            name: command.into(),
            options: option
                .map(|(name, value)| InteractionOption {
                    kind: DISCORD_STRING_OPTION,
                    name: name.into(),
                    value: Some(value.to_string()),
                })
                .into_iter()
                .collect(),
        }),
        member: Some(InteractionMember {
            user: DiscordAuthor {
                id: author_id.to_string(),
                bot: Some(false),
            },
        }),
        user: None,
    }
}

fn provider(message: &str) -> AppError {
    AppError::Provider(message.to_string())
}

#[test]
fn non_owner_command_interaction_is_ignored_before_rest_or_daemon_access() {
    let handler = handler();
    assert_eq!(
        handler.handle(interaction(
            99,
            200,
            DISCORD_MODEL_COMMAND,
            Some((DISCORD_MODEL_OPTION, "openai/gpt-5")),
        )),
        Ok(None)
    );
    assert!(handler.settings.overrides.is_empty());
}

#[test]
fn unsupported_and_malformed_commands_do_not_access_daemon_or_settings() {
    let handler = handler();
    assert_eq!(
        handler.handle(interaction(42, 200, "unsupported", None)),
        Ok(None)
    );
    assert!(handler
        .handle(interaction(
            42,
            200,
            DISCORD_MODEL_COMMAND,
            Some(("unexpected", "openai/gpt-5")),
        ))
        .is_err());
    assert!(handler.settings.overrides.is_empty());
}

#[test]
fn model_and_reasoning_settings_are_channel_scoped_and_resettable() {
    let mut handler = handler();

    assert_eq!(
        handler
            .model_content(200, Some("openai/gpt-5".into()))
            .unwrap(),
        "Model: openai/gpt-5\nScope: this Discord channel\nApplies to later messages."
    );
    assert_eq!(
        handler.reasoning_content(200, Some("XHIGH".into())),
        "Reasoning effort: xhigh\nScope: this Discord channel\nApplies to later messages."
    );
    assert_eq!(
        handler.effective_settings(200),
        ("openai/gpt-5".into(), "xhigh".into())
    );
    assert_eq!(
        handler.effective_settings(201),
        ("base-model".into(), "provider default".into())
    );
    assert!(handler
        .status_content(200, &None)
        .contains("Model: openai/gpt-5\nReasoning effort: xhigh"));

    handler.model_content(200, Some("DEFAULT".into())).unwrap();
    handler.reasoning_content(200, Some("default".into()));

    assert_eq!(
        handler.effective_settings(200),
        ("base-model".into(), "provider default".into())
    );
    assert!(handler.settings.overrides.is_empty());
}

#[test]
fn invalid_run_settings_do_not_mutate_channel_state() {
    let mut handler = handler();
    assert!(handler
        .model_content(200, Some("two models".into()))
        .unwrap()
        .starts_with("Model names must be"));
    assert!(handler
        .reasoning_content(200, Some("turbo".into()))
        .starts_with("Reasoning effort must be"));
    assert!(handler.settings.overrides.is_empty());
}

/// What a daemon says of itself. It may fail before it lists its sessions.
struct Daemon {
    hello: HelloResult,
    sessions: Option<Vec<SessionSummary>>,
}

/// Carries out a command; the result is what the service is asked, and how it ends.
fn carry_out(
    handler: &mut DiscordCommandHandler,
    request: CommandRequest,
    daemon: Option<Daemon>,
    answers: Vec<Result<(), RestFailure>>,
) -> (Vec<CommandAction>, Result<(), AppError>) {
    let mut answers = answers.into_iter();
    let (mut hello, mut sessions) = match daemon {
        Some(daemon) => (Some(daemon.hello), daemon.sessions),
        None => (None, None),
    };
    let mut asked = Vec::new();
    let (mut work, mut action) = CommandWork::start(handler, request);
    loop {
        let observation = match action {
            CommandAction::GreetDaemon { timeout } => {
                assert_eq!(timeout, 2_000_000_000);
                CommandObservation::Greeted(hello.take())
            }
            CommandAction::ListSessions => CommandObservation::Sessions(sessions.take()),
            CommandAction::Done(result) => return (asked, result),
            request => {
                asked.push(request);
                CommandObservation::Answered(answers.next().unwrap_or(Ok(())))
            }
        };
        action = work.step(handler, observation);
    }
}

#[test]
fn owner_model_interaction_is_ephemeral_and_updates_its_channel() {
    let mut handler = handler();
    let request = handler
        .handle(interaction(
            42,
            200,
            DISCORD_MODEL_COMMAND,
            Some((DISCORD_MODEL_OPTION, "openai/gpt-5-mini")),
        ))
        .unwrap()
        .unwrap();
    assert_eq!(
        request,
        CommandRequest {
            interaction_id: 400,
            channel_id: 200,
            token: "interaction-token".to_string(),
            command: DiscordCommand::Model(Some("openai/gpt-5-mini".to_string())),
        }
    );
    let (asked, end) = carry_out(&mut handler, request, None, vec![]);
    assert_eq!(end, Ok(()));
    assert_eq!(
        asked,
        vec![
            CommandAction::Defer {
                url: "http://127.0.0.1/interactions/400/interaction-token/callback".to_string(),
                kind: DISCORD_DEFERRED_CHANNEL_MESSAGE,
                flags: DISCORD_EPHEMERAL_FLAG,
            },
            CommandAction::Edit {
                url: "http://127.0.0.1/webhooks/100/interaction-token/messages/@original"
                    .to_string(),
                content:
                    "Model: openai/gpt-5-mini\nScope: this Discord channel\nApplies to later messages."
                        .to_string(),
            },
        ]
    );
    assert_eq!(handler.effective_settings(200).0, "openai/gpt-5-mini");
}

#[test]
fn a_command_that_is_not_taken_changes_nothing() {
    let mut handler = handler();
    let request = |value: &str| CommandRequest {
        interaction_id: 400,
        channel_id: 200,
        token: "interaction-token".to_string(),
        command: DiscordCommand::Model(Some(value.to_string())),
    };
    let (asked, end) = carry_out(
        &mut handler,
        request("openai/gpt-5-mini"),
        None,
        vec![Err(RestFailure::Status(404))],
    );
    assert_eq!(asked.len(), 1);
    assert_eq!(
        end,
        Err(AppError::Provider(
            "discord command defer returned HTTP 404".to_string()
        ))
    );
    assert_eq!(handler.effective_settings(200).0, "base-model");

    let (asked, end) = carry_out(&mut handler, request(" "), None, vec![]);
    assert_eq!(asked.len(), 1);
    assert_eq!(
        end,
        Err(AppError::Core("model name must not be empty".to_string()))
    );

    let mut high = request("");
    high.command = DiscordCommand::Reasoning(Some("HIGH".to_string()));
    let (_, end) = carry_out(
        &mut handler,
        high,
        None,
        vec![Ok(()), Err(RestFailure::Transport)],
    );
    assert_eq!(
        end,
        Err(AppError::Provider(
            "discord command response edit transport failed".to_string()
        ))
    );
    assert_eq!(handler.effective_settings(200).1, "high");
}

#[test]
fn status_interaction_reports_unavailable_daemon_after_defer() {
    let mut handler = handler();
    let request = handler
        .handle(interaction(42, 200, DISCORD_STATUS_COMMAND, None))
        .unwrap()
        .unwrap();
    assert_eq!(request.command, DiscordCommand::Status);
    let (asked, end) = carry_out(&mut handler, request, None, vec![]);
    assert_eq!(end, Ok(()));
    assert!(matches!(
        &asked[0],
        CommandAction::Defer { kind, .. } if *kind == DISCORD_DEFERRED_CHANNEL_MESSAGE
    ));
    assert!(matches!(
        &asked[1],
        CommandAction::Edit { content, .. } if content
            == "Plato Agent status\nGateway: connected\nDaemon: unavailable\nModel: base-model\nReasoning effort: provider default"
    ));
}

const CAPABILITIES: [&str; 6] = [
    "hello",
    "run.start",
    "message.append",
    "events.stream",
    "sessions.list",
    "transcript.read",
];

fn hello(capabilities: &[&str]) -> HelloResult {
    HelloResult {
        daemon_version: "test".to_string(),
        workspace_id: "w".to_string(),
        ledger_path: "l".to_string(),
        capabilities: capabilities.iter().map(|name| name.to_string()).collect(),
    }
}

fn sessions() -> Vec<SessionSummary> {
    [
        RunStateName::Running,
        RunStateName::Finished,
        RunStateName::CancelRequested,
    ]
    .into_iter()
    .map(|status| SessionSummary {
        session_id: "s".to_string(),
        run_id: "r".to_string(),
        status,
        latest_question: "q".to_string(),
        ledger_path: "l".to_string(),
    })
    .collect()
}

/// The answer to the status command.
fn told_status(daemon: Option<Daemon>) -> String {
    let mut handler = handler();
    let request = handler
        .handle(interaction(42, 200, DISCORD_STATUS_COMMAND, None))
        .unwrap()
        .unwrap();
    let (asked, end) = carry_out(&mut handler, request, daemon, vec![]);
    assert_eq!(end, Ok(()));
    match asked.into_iter().last() {
        Some(CommandAction::Edit { content, .. }) => content,
        other => panic!("{other:?}"),
    }
}

#[test]
fn a_reachable_daemon_is_reported_with_its_sessions() {
    let status = daemon_status(&hello(&CAPABILITIES), &sessions()).unwrap();
    assert_eq!(
        status,
        DaemonStatus {
            version: "test".to_string(),
            sessions: 3,
            active_runs: 2
        }
    );
    let content = "Plato Agent status\nGateway: connected\nDaemon: connected\nDaemon version: test\nModel: base-model\nReasoning effort: provider default\nWorkspace sessions: 3\nActive runs: 2";
    assert_eq!(handler().status_content(200, &Some(status)), content);
    assert_eq!(
        told_status(Some(Daemon {
            hello: hello(&CAPABILITIES),
            sessions: Some(sessions()),
        })),
        content
    );
    assert_eq!(DAEMON_STATUS_TIMEOUT, 2_000_000_000);
}

#[test]
fn a_daemon_that_lacks_a_capability_is_reported_as_unavailable() {
    let unavailable = "Plato Agent status\nGateway: connected\nDaemon: unavailable\nModel: base-model\nReasoning effort: provider default";
    for lacking in 0..CAPABILITIES.len() {
        let advertised: Vec<&str> = CAPABILITIES
            .into_iter()
            .filter(|name| *name != CAPABILITIES[lacking])
            .collect();
        let error = daemon_status(&hello(&advertised), &sessions()).unwrap_err();
        assert!(error.message().contains(CAPABILITIES[lacking]));
        assert_eq!(
            told_status(Some(Daemon {
                hello: hello(&advertised),
                sessions: Some(sessions()),
            })),
            unavailable
        );
    }
    assert_eq!(
        told_status(Some(Daemon {
            hello: hello(&CAPABILITIES),
            sessions: None,
        })),
        unavailable
    );
    assert_eq!(told_status(None), unavailable);
}

#[test]
fn every_fault_of_an_interaction_is_named() {
    let handler = handler();
    let base = || interaction(42, 200, DISCORD_STATUS_COMMAND, None);

    let mut other_kind = base();
    other_kind.kind = 1;
    assert_eq!(handler.handle(other_kind), Ok(None));

    let mut no_data = base();
    no_data.data = None;
    assert_eq!(
        handler.handle(no_data),
        Err(provider("discord interaction omitted command data"))
    );

    let mut other_data = base();
    other_data.data.as_mut().unwrap().kind = 2;
    assert_eq!(handler.handle(other_data), Ok(None));

    let status_option = interaction(
        42,
        200,
        DISCORD_STATUS_COMMAND,
        Some((DISCORD_MODEL_OPTION, "x")),
    );
    assert_eq!(
        handler.handle(status_option),
        Err(provider(
            "discord status interaction included unexpected options"
        ))
    );

    let mut two_options = interaction(
        42,
        200,
        DISCORD_REASONING_COMMAND,
        Some((DISCORD_REASONING_OPTION, "low")),
    );
    two_options
        .data
        .as_mut()
        .unwrap()
        .options
        .push(InteractionOption {
            kind: DISCORD_STRING_OPTION,
            name: "extra".to_string(),
            value: None,
        });
    assert_eq!(
        handler.handle(two_options),
        Err(provider(
            "discord command interaction included unexpected options"
        ))
    );

    let mut not_text = interaction(
        42,
        200,
        DISCORD_MODEL_COMMAND,
        Some((DISCORD_MODEL_OPTION, "x")),
    );
    not_text.data.as_mut().unwrap().options[0].value = None;
    assert_eq!(
        handler.handle(not_text),
        Err(provider("discord command option was not a string"))
    );

    let mut bad_application = base();
    bad_application.application_id = "x".to_string();
    assert_eq!(
        handler.handle(bad_application),
        Err(provider("discord gateway returned an invalid snowflake"))
    );

    let mut other_application = base();
    other_application.application_id = "101".to_string();
    assert_eq!(
        handler.handle(other_application),
        Err(provider(
            "discord interaction used an unexpected application id"
        ))
    );

    let mut no_author = base();
    no_author.member = None;
    assert_eq!(
        handler.handle(no_author),
        Err(provider("discord interaction omitted its author"))
    );

    let mut user_only = base();
    user_only.member = None;
    user_only.user = Some(DiscordAuthor {
        id: "42".to_string(),
        bot: None,
    });
    assert!(handler.handle(user_only).unwrap().is_some());

    let mut no_token = base();
    no_token.token = String::new();
    assert_eq!(
        handler.handle(no_token),
        Err(provider("discord interaction omitted its token"))
    );
    assert_eq!(parse_snowflake("18446744073709551615"), Ok(u64::MAX));
}

#[test]
fn model_names_are_one_short_word() {
    let mut handler = handler();
    assert_eq!(
        handler.model_content(1, Some("  padded  ".into())).unwrap(),
        "Model: padded\nScope: this Discord channel\nApplies to later messages."
    );
    assert_eq!(
        handler.model_content(1, Some("a".repeat(257))).unwrap(),
        MODEL_REFUSED
    );
    assert_eq!(
        handler.model_content(1, Some("   ".into())),
        Err(AppError::Core("model name must not be empty".to_string()))
    );
    assert_eq!(handler.effective_settings(1).0, "padded");
    assert_eq!(
        handler.model_content(1, None).unwrap(),
        "Model: padded\nScope: this Discord channel\nApplies to later messages."
    );
}

#[test]
fn settings_of_one_channel_leave_the_others_alone() {
    let mut settings = ChannelSettings::new();
    settings.update_overrides(1, SettingChange::Model(Some("m".to_string())));
    settings.update_overrides(1, SettingChange::Reasoning(Some(ReasoningEffort::Low)));
    assert_eq!(
        settings.of_channel(1),
        RunOverrides {
            model: Some("m".to_string()),
            reasoning_effort: Some(ReasoningEffort::Low)
        }
    );
    assert_eq!(settings.of_channel(2), RunOverrides::default());
    settings.update_overrides(1, SettingChange::Model(None));
    assert_eq!(settings.of_channel(1).reasoning_effort, Some(ReasoningEffort::Low));
    settings.update_overrides(1, SettingChange::Reasoning(None));
    assert!(settings.overrides.is_empty());
}
