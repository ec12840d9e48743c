use plato_agent::discord_gateway::commands::{
    DISCORD_APPLICATION_COMMAND, DiscordAuthor, InteractionCreateEvent,
};
use plato_agent::discord_gateway::receiver::{
    ConnectionPhase, DISCORD_INTENTS, DiscordGatewayReceiver, DiscordMessage,
    GATEWAY_HELLO_TIMEOUT, GatewayAction, GatewayControl, GatewayObservation, GatewayPayload,
    GatewayRead, GatewaySend, MessageCreateEvent, ReadyEvent, close_control, gateway_url,
    heartbeat_jitter, invalid_gateway_payload,
};
use plato_agent::error::AppError;
use plato_agent::time::NANOS_PER_MILLISECOND;

const SESSION_ID: &str = "discord_session";
const READY_SEQUENCE: u64 = 17;
const LATEST_SEQUENCE: u64 = 23;
const URL: &str = "ws://127.0.0.1:9";

fn payload(op: u8, d: &str, s: Option<u64>, t: Option<&str>) -> GatewayObservation {
    GatewayObservation::Got(GatewayRead::Payload(GatewayPayload {
        op,
        d: d.to_string(),
        s,
        t: t.map(str::to_string),
    }))
}

fn poll(now: u128) -> GatewayObservation {
    GatewayObservation::Polled { stop: false, now }
}

fn receiver() -> DiscordGatewayReceiver {
    DiscordGatewayReceiver::new("test-token".to_string(), URL.to_string())
}

/// Connects and reads the first word; the result is what is then said.
fn hello_and_auth(receiver: &mut DiscordGatewayReceiver, interval_ms: u64) -> GatewaySend {
    assert_eq!(
        receiver.step(poll(0)),
        GatewayAction::Connect {
            url: format!("{URL}/?v=10&encoding=json")
        }
    );
    assert_eq!(
        receiver.step(GatewayObservation::Connected { now: 0 }),
        GatewayAction::Poll
    );
    assert_eq!(receiver.step(poll(1)), GatewayAction::Read);
    let hello = format!(r#"{{"heartbeat_interval": {interval_ms}}}"#);
    match receiver.step(payload(10, &hello, None, None)) {
        GatewayAction::Send(words) => words,
        other => panic!("{other:?}"),
    }
}

fn listen(receiver: &mut DiscordGatewayReceiver) {
    assert_eq!(
        receiver.step(GatewayObservation::Sent { now: 0, seed: 19 }),
        GatewayAction::Poll
    );
}

fn identify() -> GatewaySend {
    GatewaySend::Identify {
        token: "test-token".to_string(),
        intents: DISCORD_INTENTS,
    }
}

/// Opens a session and hears one event after it.
fn establish(receiver: &mut DiscordGatewayReceiver) {
    assert_eq!(hello_and_auth(receiver, 60_000), identify());
    listen(receiver);
    assert_eq!(receiver.step(poll(1)), GatewayAction::Read);
    let action = receiver.step(payload(0, "{}", Some(READY_SEQUENCE), Some("READY")));
    assert_eq!(
        action,
        GatewayAction::DecodeReady {
            d: "{}".to_string()
        }
    );
    assert_eq!(
        receiver.step(GatewayObservation::ReadyDecoded(Some(ReadyEvent {
            session_id: SESSION_ID.to_string(),
            resume_gateway_url: URL.to_string(),
        }))),
        GatewayAction::Poll
    );
    assert_eq!(receiver.step(poll(1)), GatewayAction::Read);
    assert_eq!(
        receiver.step(payload(0, "{}", Some(LATEST_SEQUENCE), Some("OTHER"))),
        GatewayAction::Poll
    );
    assert_eq!(receiver.step(poll(1)), GatewayAction::Read);
}

/// Waits and connects again; the result is what is said on the new connection.
fn reconnect(receiver: &mut DiscordGatewayReceiver) -> GatewaySend {
    assert_eq!(receiver.step(poll(2)), GatewayAction::Wait);
    assert_eq!(
        receiver.step(GatewayObservation::Waited),
        GatewayAction::Poll
    );
    hello_and_auth(receiver, 60_000)
}

fn resume(sequence: u64) -> GatewaySend {
    GatewaySend::Resume {
        token: "test-token".to_string(),
        session_id: SESSION_ID.to_string(),
        sequence,
    }
}

#[test]
fn websocket_recovery_opcode_7_resumes_with_latest_sequence() {
    let mut receiver = receiver();
    establish(&mut receiver);
    assert_eq!(
        receiver.step(payload(7, "null", None, None)),
        GatewayAction::Poll
    );
    assert_eq!(reconnect(&mut receiver), resume(LATEST_SEQUENCE));
}

#[test]
fn websocket_recovery_invalid_session_true_resumes() {
    let mut receiver = receiver();
    establish(&mut receiver);
    assert_eq!(
        receiver.step(payload(9, "true", None, None)),
        GatewayAction::Poll
    );
    assert_eq!(reconnect(&mut receiver), resume(LATEST_SEQUENCE));
}

#[test]
fn websocket_recovery_invalid_session_false_reidentifies() {
    for d in ["false", "null", "1"] {
        let mut receiver = receiver();
        establish(&mut receiver);
        assert_eq!(
            receiver.step(payload(9, d, None, None)),
            GatewayAction::Poll
        );
        assert_eq!(reconnect(&mut receiver), identify());
    }
}

fn closed(code: Option<u16>) -> GatewayObservation {
    GatewayObservation::Got(GatewayRead::Closed(code))
}

#[test]
fn websocket_recovery_close_codes_resume() {
    for code in [
        None,
        Some(1000),
        Some(4000),
        Some(4001),
        Some(4002),
        Some(4003),
        Some(4005),
        Some(4008),
        Some(4999),
    ] {
        let mut receiver = receiver();
        establish(&mut receiver);
        assert_eq!(close_control(code), GatewayControl::Resume);
        assert_eq!(receiver.step(closed(code)), GatewayAction::Poll);
        assert_eq!(reconnect(&mut receiver), resume(LATEST_SEQUENCE));
    }
}

#[test]
fn websocket_recovery_close_codes_reidentify() {
    for code in [4007, 4009] {
        let mut receiver = receiver();
        establish(&mut receiver);
        assert_eq!(close_control(Some(code)), GatewayControl::Reidentify);
        assert_eq!(receiver.step(closed(Some(code))), GatewayAction::Poll);
        assert_eq!(reconnect(&mut receiver), identify());
    }
}

#[test]
fn websocket_recovery_close_codes_are_fatal() {
    for code in [4004, 4010, 4011, 4012, 4013, 4014] {
        let mut receiver = receiver();
        assert_eq!(hello_and_auth(&mut receiver, 60_000), identify());
        listen(&mut receiver);
        assert_eq!(receiver.step(poll(1)), GatewayAction::Read);
        let error = match receiver.step(closed(Some(code))) {
            GatewayAction::Finish(Some(error)) => error,
            other => panic!("fatal close code {code} did not stop the receiver: {other:?}"),
        };
        assert_eq!(
            error.message(),
            format!("provider error: discord gateway closed with fatal code {code}")
        );
        assert_eq!(receiver.phase, ConnectionPhase::Finished);
        assert_eq!(
            close_control(Some(code)),
            GatewayControl::Fatal(AppError::Provider(format!(
                "discord gateway closed with fatal code {code}"
            )))
        );
    }
}

#[test]
fn websocket_recovery_missing_heartbeat_ack_resumes() {
    let mut receiver = receiver();
    assert_eq!(hello_and_auth(&mut receiver, 20), identify());
    listen(&mut receiver);
    assert_eq!(receiver.step(poll(1)), GatewayAction::Read);
    receiver.step(payload(0, "{}", Some(READY_SEQUENCE), Some("READY")));
    receiver.step(GatewayObservation::ReadyDecoded(Some(ReadyEvent {
        session_id: SESSION_ID.to_string(),
        resume_gateway_url: URL.to_string(),
    })));
    let beat_at = 19 * NANOS_PER_MILLISECOND;
    assert_eq!(
        receiver.step(poll(beat_at)),
        GatewayAction::Send(GatewaySend::Heartbeat {
            sequence: Some(READY_SEQUENCE)
        })
    );
    assert_eq!(
        receiver.step(GatewayObservation::Sent {
            now: beat_at,
            seed: 0
        }),
        GatewayAction::Read
    );
    assert_eq!(
        receiver.step(GatewayObservation::Got(GatewayRead::Nothing)),
        GatewayAction::Poll
    );
    let due = beat_at + 20 * NANOS_PER_MILLISECOND;
    assert_eq!(receiver.step(poll(due - 1)), GatewayAction::Read);
    receiver.step(GatewayObservation::Got(GatewayRead::Nothing));
    assert_eq!(receiver.step(poll(due)), GatewayAction::Poll);
    assert_eq!(reconnect(&mut receiver), resume(READY_SEQUENCE));
}

#[test]
fn an_answered_heartbeat_is_followed_by_the_next() {
    let mut receiver = receiver();
    establish(&mut receiver);
    receiver.step(GatewayObservation::Got(GatewayRead::Nothing));
    let first = receiver.next_heartbeat;
    assert!(matches!(
        receiver.step(poll(first)),
        GatewayAction::Send(GatewaySend::Heartbeat { .. })
    ));
    receiver.step(GatewayObservation::Sent {
        now: first,
        seed: 0,
    });
    assert_eq!(
        receiver.step(payload(11, "null", None, None)),
        GatewayAction::Poll
    );
    assert!(matches!(
        receiver.step(poll(receiver.next_heartbeat)),
        GatewayAction::Send(GatewaySend::Heartbeat { .. })
    ));
    assert_eq!(
        receiver.step(GatewayObservation::NotSent),
        GatewayAction::Poll
    );
    assert_eq!(receiver.phase, ConnectionPhase::Pausing);
}

#[test]
fn a_heartbeat_that_is_asked_for_is_sent() {
    let mut receiver = receiver();
    establish(&mut receiver);
    assert_eq!(
        receiver.step(payload(1, "null", Some(99), None)),
        GatewayAction::Send(GatewaySend::Heartbeat { sequence: Some(99) })
    );
    assert_eq!(
        receiver.step(GatewayObservation::Sent { now: 5, seed: 0 }),
        GatewayAction::Poll
    );
    assert!(!receiver.acknowledged);
    assert_eq!(receiver.next_heartbeat, 5 + 60_000 * NANOS_PER_MILLISECOND);
    assert_eq!(receiver.session.as_ref().unwrap().sequence, 99);
}

#[test]
fn websocket_recovery_missing_hello_returns_resume_within_test_timeout() {
    let mut receiver = receiver();
    receiver.step(poll(0));
    receiver.step(GatewayObservation::Connected { now: 7 });
    assert_eq!(
        receiver.step(poll(6 + GATEWAY_HELLO_TIMEOUT)),
        GatewayAction::Read
    );
    assert_eq!(
        receiver.step(GatewayObservation::Got(GatewayRead::Nothing)),
        GatewayAction::Poll
    );
    assert_eq!(
        receiver.step(poll(7 + GATEWAY_HELLO_TIMEOUT)),
        GatewayAction::Poll
    );
    assert_eq!(receiver.phase, ConnectionPhase::Pausing);
}

fn message_event(bot: Option<bool>, id: &str) -> MessageCreateEvent {
    MessageCreateEvent {
        id: id.to_string(),
        channel_id: "200".to_string(),
        author: DiscordAuthor {
            id: "42".to_string(),
            bot,
        },
        content: "hello".to_string(),
    }
}

#[test]
fn websocket_identifies_and_receives_messages() {
    let mut receiver = receiver();
    assert_eq!(hello_and_auth(&mut receiver, 20), identify());
    listen(&mut receiver);
    assert_eq!(receiver.step(poll(1)), GatewayAction::Read);
    assert_eq!(
        receiver.step(payload(0, "R", Some(1), Some("READY"))),
        GatewayAction::DecodeReady {
            d: "R".to_string()
        }
    );
    assert_eq!(
        receiver.step(GatewayObservation::ReadyDecoded(Some(ReadyEvent {
            session_id: "discord_session".to_string(),
            resume_gateway_url: URL.to_string(),
        }))),
        GatewayAction::Poll
    );
    assert_eq!(receiver.step(poll(1)), GatewayAction::Read);
    assert_eq!(
        receiver.step(payload(0, "M", Some(2), Some("MESSAGE_CREATE"))),
        GatewayAction::DecodeMessage {
            d: "M".to_string()
        }
    );
    assert_eq!(
        receiver.step(GatewayObservation::MessageDecoded(Some(message_event(
            Some(false),
            "300"
        )))),
        GatewayAction::Deliver(DiscordMessage {
            id: 300,
            channel_id: 200,
            author_id: 42,
            content: "hello".to_string()
        })
    );
    assert_eq!(
        receiver.step(GatewayObservation::Delivered),
        GatewayAction::Poll
    );
    assert_eq!(receiver.step(poll(1)), GatewayAction::Read);
    assert_eq!(
        receiver.step(payload(0, "I", Some(3), Some("INTERACTION_CREATE"))),
        GatewayAction::DecodeInteraction {
            d: "I".to_string()
        }
    );
    let interaction = || InteractionCreateEvent {
        id: "400".to_string(),
        application_id: "100".to_string(),
        channel_id: "200".to_string(),
        kind: DISCORD_APPLICATION_COMMAND,
        token: "interaction-token".to_string(),
        data: None,
        member: None,
        user: None,
    };
    assert_eq!(
        receiver.step(GatewayObservation::InteractionDecoded(Some(interaction()))),
        GatewayAction::Handle(interaction())
    );
    assert_eq!(
        receiver.step(GatewayObservation::Handled(Ok(()))),
        GatewayAction::Poll
    );
    assert_eq!(receiver.sequence, Some(3));
    assert_eq!(
        receiver.step(poll(20_000_001)),
        GatewayAction::Send(GatewaySend::Heartbeat { sequence: Some(3) })
    );
    assert_eq!(DISCORD_INTENTS, (1 << 9) | (1 << 12) | (1 << 15));
}

#[test]
fn a_bot_is_not_heard_and_bad_numbers_are_fatal() {
    let mut receiver = receiver();
    establish(&mut receiver);
    receiver.step(payload(0, "M", None, Some("MESSAGE_CREATE")));
    assert_eq!(
        receiver.step(GatewayObservation::MessageDecoded(Some(message_event(
            Some(true),
            "x"
        )))),
        GatewayAction::Poll
    );
    receiver.step(poll(1));
    receiver.step(payload(0, "M", None, Some("MESSAGE_CREATE")));
    assert_eq!(
        receiver.step(GatewayObservation::MessageDecoded(Some(message_event(
            None, "x"
        )))),
        GatewayAction::Finish(Some(AppError::Provider(
            "discord gateway returned an invalid snowflake".to_string()
        )))
    );
}

#[test]
fn words_that_make_no_sense_are_fatal() {
    let invalid = || {
        GatewayAction::Finish(Some(AppError::Provider(
            "discord gateway returned an invalid payload".to_string(),
        )))
    };
    assert!(matches!(
        invalid_gateway_payload(),
        GatewayControl::Fatal(AppError::Provider(_))
    ));
    for (op, d) in [
        (0, "{}"),
        (10, "{}"),
        (10, r#"{"heartbeat_interval": 0}"#),
        (10, r#"{"heartbeat_interval": -1}"#),
        (10, r#"{"heartbeat_interval": "x"}"#),
    ] {
        let mut receiver = receiver();
        receiver.step(poll(0));
        receiver.step(GatewayObservation::Connected { now: 0 });
        receiver.step(poll(1));
        assert_eq!(receiver.step(payload(op, d, None, None)), invalid());
    }
    let mut undecoded = receiver();
    establish(&mut undecoded);
    undecoded.step(payload(0, "{}", None, Some("READY")));
    assert_eq!(
        undecoded.step(GatewayObservation::ReadyDecoded(None)),
        invalid()
    );
    let mut unread = receiver();
    establish(&mut unread);
    assert_eq!(
        unread.step(GatewayObservation::Got(GatewayRead::Invalid)),
        invalid()
    );
    let mut unnumbered = receiver();
    hello_and_auth(&mut unnumbered, 60_000);
    listen(&mut unnumbered);
    unnumbered.step(poll(1));
    unnumbered.step(payload(0, "{}", None, Some("READY")));
    assert_eq!(
        unnumbered.step(GatewayObservation::ReadyDecoded(Some(ReadyEvent {
            session_id: "s".to_string(),
            resume_gateway_url: "u".to_string()
        }))),
        invalid()
    );
}

#[test]
fn addresses_of_the_gateway_are_made_and_checked() {
    assert_eq!(
        gateway_url("wss://gateway.discord.gg"),
        Ok("wss://gateway.discord.gg/?v=10&encoding=json".to_string())
    );
    assert_eq!(
        gateway_url("wss://gateway.discord.gg/?v=9&compress=zlib#x"),
        Ok("wss://gateway.discord.gg/?v=10&encoding=json#x".to_string())
    );
    assert_eq!(
        gateway_url("no url"),
        Err(AppError::Provider(
            "discord gateway returned an invalid websocket URL".to_string()
        ))
    );
    let mut broken = DiscordGatewayReceiver::new("t".to_string(), "no url".to_string());
    assert!(matches!(
        broken.step(poll(0)),
        GatewayAction::Finish(Some(AppError::Provider(_)))
    ));
    let mut refused = receiver();
    refused.step(poll(0));
    assert_eq!(
        refused.step(GatewayObservation::Unreachable),
        GatewayAction::Poll
    );
    assert_eq!(refused.phase, ConnectionPhase::Pausing);
    let mut invalid = receiver();
    invalid.step(poll(0));
    assert!(matches!(
        invalid.step(GatewayObservation::InvalidUrl),
        GatewayAction::Finish(Some(_))
    ));
}

#[test]
fn a_receiver_that_is_stopped_finishes() {
    let stop = || GatewayObservation::Polled { stop: true, now: 0 };
    let mut fresh = receiver();
    assert_eq!(fresh.step(stop()), GatewayAction::Finish(None));
    let mut open = receiver();
    establish(&mut open);
    open.step(GatewayObservation::Got(GatewayRead::Lost));
    assert_eq!(open.step(stop()), GatewayAction::Finish(None));
    let mut unheard = receiver();
    establish(&mut unheard);
    unheard.step(payload(0, "M", None, Some("MESSAGE_CREATE")));
    unheard.step(GatewayObservation::MessageDecoded(Some(message_event(
        None, "300",
    ))));
    assert_eq!(
        unheard.step(GatewayObservation::NotDelivered),
        GatewayAction::Finish(None)
    );
}

#[test]
fn the_first_heartbeat_is_put_off_by_part_of_the_interval() {
    assert_eq!(heartbeat_jitter(0, 5), 0);
    assert_eq!(heartbeat_jitter(20, 19), 19);
    assert_eq!(heartbeat_jitter(20, 41), 1);
}
