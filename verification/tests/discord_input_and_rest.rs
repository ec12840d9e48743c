use plato_agent::discord_gateway::input::{
    DISCORD_INPUT_LIMIT, contains_ascii_bounded_marker, discord_input_is_unsafe,
    normalize_discord_input, unsafe_markers,
};
use plato_agent::discord_gateway::presentation::{
    Emoji, MessagePresentation, PresentationEffect, TYPING_INTERVAL,
};
use plato_agent::discord_gateway::rest::{
    DISCORD_CHAT_INPUT_COMMAND, DiscordRateLimit, DiscordRateLimits, DiscordRestClient,
    PresentationAttempt, RateLimitAnswer, RegisteredApplicationCommand, RestClass, RestFailure,
    TERMINAL_REACTION_WAIT_LIMIT, TerminalReaction, add_terminal_reaction, application_commands,
    application_id, discord_chunks, discovered_gateway, reaction, reasoning_choices,
    replace_application_commands, retry_terminal_reaction, terminal_reaction_wait,
};
use plato_agent::daemon::protocol::RunStateName;
use plato_agent::error::AppError;
use plato_agent::time::{LAST_MOMENT, NANOS_PER_MILLISECOND, NANOS_PER_SECOND};
use std::time::Duration;

#[test]
fn rejects_every_fixed_marker_after_scan_normalization() {
    for marker in unsafe_markers() {
        assert!(discord_input_is_unsafe(marker), "marker: {marker}");

        let mut obfuscated = String::new();
        for character in marker.chars() {
            if character == ' ' {
                obfuscated.push('\u{2003}');
            } else {
                obfuscated.push(character.to_ascii_uppercase());
            }
            obfuscated.push('\u{7}');
        }
        assert!(
            discord_input_is_unsafe(&obfuscated),
            "normalized marker: {marker}"
        );
    }
}

#[test]
fn scan_normalization_collapses_whitespace_and_removes_other_controls() {
    assert_eq!(
        normalize_discord_input("\tACT\u{a0}\u{0}\u{2003}\nAS\u{7}"),
        " act as"
    );
    assert!(discord_input_is_unsafe("sys\u{0}tem prompt"));
}

#[test]
fn alphabetic_markers_use_ascii_alphanumeric_boundaries() {
    for marker in unsafe_markers()
        .iter()
        .filter(|marker| !marker.starts_with('<'))
    {
        assert!(!discord_input_is_unsafe(&format!("x{marker}")));
        assert!(!discord_input_is_unsafe(&format!("{marker}x")));
        assert!(discord_input_is_unsafe(&format!("_{marker}_")));
    }
    assert!(discord_input_is_unsafe("x<system>y"));
    assert!(discord_input_is_unsafe("éact as"));
}

#[test]
fn discord_input_limit_counts_original_utf8_bytes() {
    assert!(!discord_input_is_unsafe(&"a".repeat(DISCORD_INPUT_LIMIT)));
    assert!(discord_input_is_unsafe(
        &"a".repeat(DISCORD_INPUT_LIMIT + 1)
    ));
    assert!(!discord_input_is_unsafe(
        &"é".repeat(DISCORD_INPUT_LIMIT / 2)
    ));
    assert!(discord_input_is_unsafe(&format!(
        "{}a",
        "é".repeat(DISCORD_INPUT_LIMIT / 2)
    )));
}

#[test]
fn a_marker_is_searched_where_the_last_find_ended() {
    for (content, marker) in [
        ("xa a a", "a a"),
        ("a a a", "a a"),
        ("", ""),
        ("ab", ""),
        ("a-b", ""),
        ("tool call, tool calls", "tool call"),
        ("xtool call tool call", "tool call"),
    ] {
        let expected = content.match_indices(marker).any(|(start, _)| {
            let end = start + marker.len();
            let bytes = content.as_bytes();
            (start == 0 || !bytes[start - 1].is_ascii_alphanumeric())
                && (end == bytes.len() || !bytes[end].is_ascii_alphanumeric())
        });
        assert_eq!(
            contains_ascii_bounded_marker(content, marker),
            expected,
            "{content:?} {marker:?}"
        );
    }
}

#[test]
fn terminal_reaction_wait_is_capped_at_two_seconds() {
    assert_eq!(
        terminal_reaction_wait(DiscordRateLimit {
            retry_after: 250 * NANOS_PER_MILLISECOND,
            global: false,
        }),
        Some(250 * NANOS_PER_MILLISECOND)
    );
    assert_eq!(
        terminal_reaction_wait(DiscordRateLimit {
            retry_after: 30 * NANOS_PER_SECOND,
            global: false,
        }),
        Some(TERMINAL_REACTION_WAIT_LIMIT)
    );
    assert_eq!(TERMINAL_REACTION_WAIT_LIMIT, 2 * NANOS_PER_SECOND);
    assert_eq!(
        terminal_reaction_wait(DiscordRateLimit {
            retry_after: 250 * NANOS_PER_MILLISECOND,
            global: true,
        }),
        None
    );
}

#[test]
fn typing_deadline_is_immediate_bounded_and_resumes_immediately() {
    let now = 5 * NANOS_PER_SECOND;
    let mut presentation = MessagePresentation::new(200, 300);

    assert!(presentation.typing_due(false, now));
    assert!(!presentation.typing_due(false, now + TYPING_INTERVAL - NANOS_PER_MILLISECOND));
    assert!(presentation.typing_due(false, now + TYPING_INTERVAL));
    assert!(!presentation.typing_due(true, now + TYPING_INTERVAL));
    assert!(presentation.typing_due(false, now + TYPING_INTERVAL));
    assert_eq!(TYPING_INTERVAL, 8 * NANOS_PER_SECOND);
}

#[test]
fn rate_limit_deadlines_use_the_full_duration_and_expire_at_the_boundary() {
    let now = 7 * NANOS_PER_SECOND;
    let mut limits = DiscordRateLimits::default();
    let long = Duration::from_secs_f64(1336.57).as_nanos();
    limits.record(RestClass::Presentation, false, long, now);
    assert!(!limits.presentation_allowed(now + 1_336 * NANOS_PER_SECOND));
    assert!(limits.product_allowed(now + 1_336 * NANOS_PER_SECOND));
    assert!(limits.presentation_allowed(now + long));

    limits.record(RestClass::Presentation, true, 2 * NANOS_PER_SECOND, now);
    assert!(!limits.product_allowed(now + NANOS_PER_SECOND));
    assert!(limits.product_allowed(now + 2 * NANOS_PER_SECOND));
}

#[test]
fn a_limit_never_moves_to_an_earlier_moment() {
    let mut limits = DiscordRateLimits::default();
    limits.record(RestClass::Product, true, 100, 0);
    limits.record(RestClass::Product, true, 10, 0);
    assert_eq!(limits.global_not_before, Some(100));
    limits.record(RestClass::Product, false, 1_000, 0);
    assert_eq!(limits.presentation_not_before, None);
    limits.record(RestClass::Product, true, LAST_MOMENT, 1);
    assert_eq!(limits.global_not_before, Some(100));
}

fn too_many(header: Option<u128>, body: Option<u128>, global: bool) -> RestFailure {
    RestFailure::TooManyRequests(RateLimitAnswer {
        header_retry_after: header,
        header_global: None,
        header_scope: None,
        body_retry_after: body,
        body_global: global,
    })
}

fn client() -> DiscordRestClient {
    DiscordRestClient::new("https://discord.test/api/", "test-token".to_string())
}

#[test]
fn discord_http_errors_never_include_the_token() {
    let mut client = DiscordRestClient::new("https://discord.test", "secret-token".to_string());
    for failure in [
        RestFailure::Status(401),
        RestFailure::Transport,
        too_many(Some(1), None, false),
    ] {
        let error = client.discord_http_error("message send", RestClass::Product, &failure, 0);
        assert!(!error.app_error.message().contains("secret-token"));
    }
    assert_eq!(
        client
            .discord_http_error("message send", RestClass::Product, &RestFailure::Status(500), 0)
            .app_error,
        AppError::Provider("discord message send returned HTTP 500".to_string())
    );
    assert_eq!(
        client
            .discord_http_error("typing", RestClass::Presentation, &RestFailure::Transport, 0)
            .app_error,
        AppError::Provider("discord typing transport failed".to_string())
    );
}

#[test]
fn requests_go_where_the_service_expects_them() {
    let client = client();
    assert_eq!(client.authorization(), "Bot test-token");
    assert_eq!(
        client.application_url(),
        "https://discord.test/api/oauth2/applications/@me"
    );
    assert_eq!(
        client.commands_url(100),
        "https://discord.test/api/applications/100/commands"
    );
    assert_eq!(
        client.gateway_discovery_url(),
        "https://discord.test/api/gateway/bot"
    );
    assert_eq!(
        client.messages_url(200),
        "https://discord.test/api/channels/200/messages"
    );
    assert_eq!(
        client.typing_url(200),
        "https://discord.test/api/channels/200/typing"
    );
    for (emoji, encoded) in [
        (Emoji::Eyes, "%F0%9F%91%80"),
        (Emoji::Success, "%E2%9C%85"),
        (Emoji::Failure, "%E2%9D%8C"),
    ] {
        assert_eq!(
            client.reaction_url(200, 300, emoji),
            format!("https://discord.test/api/channels/200/messages/300/reactions/{encoded}/@me")
        );
    }
}

#[test]
fn a_long_text_is_sent_in_parts() {
    assert!(discord_chunks("").is_empty());
    assert_eq!(discord_chunks("hello"), vec!["hello".to_string()]);
    let text = "界".repeat(4_001);
    let chunks = discord_chunks(&text);
    assert_eq!(
        chunks
            .iter()
            .map(|chunk| chunk.chars().count())
            .collect::<Vec<_>>(),
        vec![2_000, 2_000, 1]
    );
    assert_eq!(chunks.concat(), text);
    assert_eq!(discord_chunks(&"a".repeat(2_000)).len(), 1);
}

#[test]
fn the_registry_must_be_the_commands() {
    let command = |name: &str, kind: u8| RegisteredApplicationCommand {
        kind,
        name: name.to_string(),
    };
    let chat = DISCORD_CHAT_INPUT_COMMAND;
    assert_eq!(
        replace_application_commands(&vec![
            command("reasoning", chat),
            command("status", chat),
            command("model", chat),
        ]),
        Ok(())
    );
    for registry in [
        vec![],
        vec![command("status", chat), command("model", chat)],
        vec![
            command("status", chat),
            command("model", chat),
            command("model", chat),
        ],
        vec![
            command("status", chat),
            command("model", chat),
            command("reasoning", 2),
        ],
    ] {
        assert_eq!(
            replace_application_commands(&registry),
            Err(AppError::Provider(
                "discord command synchronization returned an unexpected registry".to_string()
            ))
        );
    }
    let commands = application_commands();
    assert_eq!(
        commands.iter().map(|command| command.name).collect::<Vec<_>>(),
        vec!["status", "model", "reasoning"]
    );
    assert!(commands[0].option.is_none());
    assert_eq!(commands[1].option.as_ref().unwrap().name, "name");
    assert!(commands[1].option.as_ref().unwrap().choices.is_empty());
    assert_eq!(commands[2].option.as_ref().unwrap().name, "effort");
    assert_eq!(
        reasoning_choices()
            .iter()
            .map(|choice| choice.value)
            .collect::<Vec<_>>(),
        vec!["default", "none", "minimal", "low", "medium", "high", "xhigh", "max"]
    );
}

#[test]
fn what_the_service_reports_is_checked() {
    assert_eq!(application_id("100"), Ok(100));
    assert_eq!(application_id("+100"), Ok(100));
    for bad in ["", "+", "-1", "1x", "18446744073709551616"] {
        assert_eq!(
            application_id(bad),
            Err(AppError::Provider(
                "discord application lookup returned an invalid id".to_string()
            ))
        );
    }
    assert_eq!(
        discovered_gateway("wss://gateway".to_string()),
        Ok("wss://gateway".to_string())
    );
    assert_eq!(
        discovered_gateway(String::new()),
        Err(AppError::Provider(
            "discord gateway discovery returned an empty URL".to_string()
        ))
    );
}

#[test]
fn the_end_of_a_run_is_shown() {
    let eyes = PresentationEffect::RemoveReaction(Emoji::Eyes);
    for (status, effects) in [
        (
            RunStateName::Finished,
            vec![eyes, PresentationEffect::AddTerminalReaction(Emoji::Success)],
        ),
        (
            RunStateName::Failed,
            vec![eyes, PresentationEffect::AddTerminalReaction(Emoji::Failure)],
        ),
        (RunStateName::Canceled, vec![eyes]),
        (RunStateName::Interrupted, vec![eyes]),
        (RunStateName::Running, vec![]),
        (RunStateName::CancelRequested, vec![]),
    ] {
        let mut presentation = MessagePresentation::new(200, 300);
        presentation.next_typing_at = Some(9);
        assert_eq!(presentation.finish(status), effects);
        assert_eq!(presentation.next_typing_at, None);
    }
    let mut presentation = MessagePresentation::new(200, 300);
    assert_eq!(
        presentation.add_eyes(),
        PresentationEffect::AddReaction(Emoji::Eyes)
    );
    assert_eq!(
        presentation.observe_running(false, 3),
        Some(PresentationEffect::TriggerTyping)
    );
    assert_eq!(presentation.observe_running(false, 4), None);
    assert_eq!(
        presentation.abnormal_exit(),
        vec![eyes, PresentationEffect::AddReaction(Emoji::Failure)]
    );
}
