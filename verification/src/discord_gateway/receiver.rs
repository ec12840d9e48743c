//! The connection to the Discord gateway: how it is opened, kept alive, resumed and given up. The
//! caller performs one action after the other and reports what came of it.

use crate::discord_gateway::commands;
use crate::discord_gateway::commands::{DiscordAuthor, InteractionCreateEvent, parse_snowflake};
use crate::error;
use crate::error::AppError;
use crate::json;
use crate::text;
use crate::time;
use vstd::prelude::*;

verus! {

/// What the gateway is asked to report: messages in servers and to the application itself, and
/// what they say.
pub const DISCORD_INTENTS: u64 = 37_376;

/// How long the gateway may take for its first word.
pub const GATEWAY_HELLO_TIMEOUT: u128 = 10_000_000_000;

/// How long one read may take.
pub const GATEWAY_READ_TIMEOUT: u128 = 100_000_000;

/// The pause between two connections.
pub const GATEWAY_RECONNECT_DELAY: u128 = 1_000_000_000;

/// What follows from the end of a connection.
#[derive(Debug, PartialEq, Eq)]
pub enum GatewayControl {
    /// Connect again, and go on where the session stands.
    Resume,
    /// Connect again, with a new session.
    Reidentify,
    /// Give up.
    Fatal(AppError),
    /// Stop, since nobody listens.
    Stop,
}

/// What follows from the end of a connection, with the words of an error.
pub enum ControlView {
    Resume,
    Reidentify,
    Fatal(Seq<char>),
    Stop,
}

pub open spec fn is_control(control: GatewayControl, expected: ControlView) -> bool {
    match expected {
        ControlView::Resume => control == GatewayControl::Resume,
        ControlView::Reidentify => control == GatewayControl::Reidentify,
        ControlView::Fatal(message) => control matches GatewayControl::Fatal(found)
            && error::is_provider_error(found, message),
        ControlView::Stop => control == GatewayControl::Stop,
    }
}

/// Whether the gateway closes with this code for good.
pub open spec fn is_fatal_code(code: u16) -> bool {
    code == 4004 || code == 4010 || code == 4011 || code == 4012 || code == 4013 || code == 4014
}

/// What follows from a close of the connection by the gateway.
pub open spec fn close_follows(code: Option<u16>) -> ControlView {
    match code {
        Some(code) => if is_fatal_code(code) {
            ControlView::Fatal(
                "discord gateway closed with fatal code "@ + text::decimal(code as nat),
            )
        } else if code == 4007 || code == 4009 {
            ControlView::Reidentify
        } else {
            ControlView::Resume
        },
        None => ControlView::Resume,
    }
}

/// What follows from a close of the connection by the gateway.
pub fn close_control(code: Option<u16>) -> (result: GatewayControl)
    ensures
        is_control(result, close_follows(code)),
{
    match code {
        Some(code) => {
            if code == 4004 || code == 4010 || code == 4011 || code == 4012 || code == 4013
                || code == 4014 {
                GatewayControl::Fatal(
                    AppError::Provider(
                        text::concat(
                            "discord gateway closed with fatal code ",
                            text::to_decimal(code as u64).as_str(),
                        ),
                    ),
                )
            } else if code == 4007 || code == 4009 {
                GatewayControl::Reidentify
            } else {
                GatewayControl::Resume
            }
        },
        None => GatewayControl::Resume,
    }
}

pub open spec fn invalid_payload() -> ControlView {
    ControlView::Fatal("discord gateway returned an invalid payload"@)
}

/// What follows from a word of the gateway that makes no sense.
pub fn invalid_gateway_payload() -> (result: GatewayControl)
    ensures
        is_control(result, invalid_payload()),
{
    GatewayControl::Fatal(error::provider_error("discord gateway returned an invalid payload"))
}

/// The most bytes of an address that is taken apart.
pub const LONGEST_ADDRESS: usize = 0x1000_0000;

/// What `url::Url` writes of an address after its query was replaced by some pairs, if it reads the
/// address.
pub uninterp spec fn url_with_query(base: Seq<char>, pairs: Seq<(Seq<char>, Seq<char>)>) -> Option<
    Seq<char>,
>;

pub open spec fn pair_texts(pairs: Seq<(&'static str, &'static str)>) -> Seq<
    (Seq<char>, Seq<char>),
> {
    pairs.map_values(|pair: (&'static str, &'static str)| (pair.0@, pair.1@))
}

/// `url::Url::parse` reads the address; `Url::query_pairs_mut`, with `clear` and `extend_pairs`,
/// replaces its query by the pairs; and `to_string` writes it. Nothing comes back where the address
/// cannot be read. An address or pairs so long that the parts of the address cannot be counted in 32
/// bits are left out.
#[verifier::external_body]
fn replace_query(base: &str, pairs: &Vec<(&'static str, &'static str)>) -> (result: Option<String>)
    requires
        text::utf8_len(base@) <= LONGEST_ADDRESS,
        pairs@.len() <= 16,
        forall|i: int|
            0 <= i < pairs@.len() ==> (#[trigger] pairs@[i]).0@.len() <= 256 && pairs@[i].1@.len()
                <= 256,
    ensures
        match result {
            Some(url) => url_with_query(base@, pair_texts(pairs@)) == Some(url@),
            None => url_with_query(base@, pair_texts(pairs@)) is None,
        },
{
    let mut url = url::Url::parse(base).ok()?;
    url.query_pairs_mut().clear().extend_pairs(pairs);
    Some(url.to_string())
}

/// The query of a connection: the version of the gateway and the encoding of its words.
pub open spec fn connection_query() -> Seq<(Seq<char>, Seq<char>)> {
    seq![("v"@, "10"@), ("encoding"@, "json"@)]
}

/// The address of a connection, if the base is one.
pub open spec fn connection_address(base_url: Seq<char>) -> Result<Seq<char>, Seq<char>> {
    match url_with_query(base_url, connection_query()) {
        Some(url) => Ok(url),
        None => Err("discord gateway returned an invalid websocket URL"@),
    }
}

/// The address of a connection.
pub fn gateway_url(base_url: &str) -> (result: Result<String, AppError>)
    requires
        text::utf8_len(base_url@) <= LONGEST_ADDRESS,
    ensures
        match connection_address(base_url@) {
            Ok(url) => result matches Ok(found) && found@ == url,
            Err(message) => result matches Err(found) && error::is_provider_error(found, message),
        },
{
    let pairs: Vec<(&'static str, &'static str)> = vec![("v", "10"), ("encoding", "json")];
    assert(pair_texts(pairs@) =~= connection_query());
    proof {
        reveal_strlit("v");
        reveal_strlit("10");
        reveal_strlit("encoding");
        reveal_strlit("json");
    }
    match replace_query(base_url, &pairs) {
        Some(url) => Ok(url),
        None => Err(error::provider_error("discord gateway returned an invalid websocket URL")),
    }
}

/// How long the first heartbeat is put off, in milliseconds: by some part of the interval.
pub open spec fn jitter(interval_ms: u64, seed: u64) -> u64 {
    if interval_ms == 0 {
        0
    } else {
        seed % interval_ms
    }
}

/// How long the first heartbeat is put off, in milliseconds.
pub fn heartbeat_jitter(interval_ms: u64, seed: u64) -> (result: u64)
    ensures
        result == jitter(interval_ms, seed),
        interval_ms > 0 ==> result < interval_ms,
{
    if interval_ms == 0 {
        0
    } else {
        seed % interval_ms
    }
}

/// A session with the gateway, and the last event of it that was seen.
#[derive(Debug, PartialEq, Eq)]
pub struct DiscordSession {
    pub session_id: String,
    pub resume_gateway_url: String,
    pub sequence: u64,
}

/// One word of the gateway; `d` is JSON.
#[derive(Debug, PartialEq, Eq)]
pub struct GatewayPayload {
    pub op: u8,
    pub d: String,
    pub s: Option<u64>,
    pub t: Option<String>,
}

/// What a read brought.
#[derive(Debug, PartialEq, Eq)]
pub enum GatewayRead {
    Payload(GatewayPayload),
    /// Nothing came in time, or nothing that says anything.
    Nothing,
    /// Something came that is no word of the gateway.
    Invalid,
    Closed(Option<u16>),
    Lost,
}

#[derive(Debug, PartialEq, Eq)]
pub struct ReadyEvent {
    pub session_id: String,
    pub resume_gateway_url: String,
}

#[derive(Debug, PartialEq, Eq)]
pub struct MessageCreateEvent {
    pub id: String,
    pub channel_id: String,
    pub author: DiscordAuthor,
    pub content: String,
}

/// A message in a channel.
#[derive(Debug, PartialEq, Eq)]
pub struct DiscordMessage {
    pub id: u64,
    pub channel_id: u64,
    pub author_id: u64,
    pub content: String,
}

/// What is said to the gateway.
#[derive(Debug, PartialEq, Eq)]
pub enum GatewaySend {
    Identify { token: String, intents: u64 },
    Resume { token: String, session_id: String, sequence: u64 },
    Heartbeat { sequence: Option<u64> },
}

/// What to do next.
#[derive(Debug, PartialEq, Eq)]
pub enum GatewayAction {
    /// Look whether to stop, and at the clock.
    Poll,
    Connect { url: String },
    Read,
    Send(GatewaySend),
    /// Read the JSON as the event that opens a session.
    DecodeReady { d: String },
    /// Read the JSON as a message.
    DecodeMessage { d: String },
    /// Read the JSON as an interaction.
    DecodeInteraction { d: String },
    Deliver(DiscordMessage),
    Handle(InteractionCreateEvent),
    /// Wait before the next connection.
    Wait,
    /// Report an error, if there is one, and stop.
    Finish(Option<AppError>),
}

/// What came of an action.
#[derive(Debug, PartialEq, Eq)]
pub enum GatewayObservation {
    Polled { stop: bool, now: u128 },
    Connected { now: u128 },
    InvalidUrl,
    Unreachable,
    Got(GatewayRead),
    /// The words were sent; `seed` is some number.
    Sent { now: u128, seed: u64 },
    NotSent,
    ReadyDecoded(Option<ReadyEvent>),
    MessageDecoded(Option<MessageCreateEvent>),
    InteractionDecoded(Option<InteractionCreateEvent>),
    Delivered,
    NotDelivered,
    Handled(Result<(), AppError>),
    Waited,
}

/// What the last action was for.
#[derive(Clone, Copy, Debug, PartialEq, Eq, Structural)]
pub enum ConnectionPhase {
    Starting,
    Opening,
    AwaitingHello { deadline: u128 },
    ReadingHello { deadline: u128 },
    Authenticating,
    Turning,
    Beating,
    Reading,
    Echoing,
    DecodingReady,
    DecodingMessage,
    Delivering,
    DecodingInteraction,
    Handling,
    Pausing,
    Waiting,
    Finished,
}

/// The receiver of what the gateway reports.
#[derive(Debug, PartialEq, Eq)]
pub struct DiscordGatewayReceiver {
    pub token: String,
    pub initial_url: String,
    pub session: Option<DiscordSession>,
    pub phase: ConnectionPhase,
    pub heartbeat_ms: u64,
    pub sequence: Option<u64>,
    pub acknowledged: bool,
    pub next_heartbeat: u128,
}

/// An action, with the words of what is made up for it.
pub enum ActionView {
    Same(GatewayAction),
    Connect(Seq<char>),
    Fail(Seq<char>),
}

pub open spec fn is_action(action: GatewayAction, expected: ActionView) -> bool {
    match expected {
        ActionView::Same(same) => action == same,
        ActionView::Connect(url) => action matches GatewayAction::Connect { url: found }
            && found@ == url,
        ActionView::Fail(message) => action matches GatewayAction::Finish(Some(found))
            && error::is_provider_error(found, message),
    }
}

/// The moment some milliseconds later.
pub open spec fn ms_after(now: u128, ms: u64) -> u128 {
    (now + ms * time::NANOS_PER_MILLISECOND) as u128
}

/// Where the next connection goes: to where the session stands, or else to where it all starts.
pub open spec fn base_url(receiver: DiscordGatewayReceiver) -> Seq<char> {
    match receiver.session {
        Some(session) => session.resume_gateway_url@,
        None => receiver.initial_url@,
    }
}

/// What is said first on a connection: which session to go on with, or who asks for a new one.
pub open spec fn first_words(receiver: DiscordGatewayReceiver) -> GatewaySend {
    match receiver.session {
        Some(session) => GatewaySend::Resume {
            token: receiver.token,
            session_id: session.session_id,
            sequence: session.sequence,
        },
        None => GatewaySend::Identify { token: receiver.token, intents: DISCORD_INTENTS },
    }
}

pub open spec fn to_phase(
    receiver: DiscordGatewayReceiver,
    phase: ConnectionPhase,
) -> DiscordGatewayReceiver {
    DiscordGatewayReceiver { phase, ..receiver }
}

/// What follows from the end of a connection.
pub open spec fn ended(receiver: DiscordGatewayReceiver, control: ControlView) -> (
    DiscordGatewayReceiver,
    ActionView,
) {
    match control {
        ControlView::Resume => (
            to_phase(receiver, ConnectionPhase::Pausing),
            ActionView::Same(GatewayAction::Poll),
        ),
        ControlView::Reidentify => (
            DiscordGatewayReceiver { session: None, phase: ConnectionPhase::Pausing, ..receiver },
            ActionView::Same(GatewayAction::Poll),
        ),
        ControlView::Fatal(message) => (
            to_phase(receiver, ConnectionPhase::Finished),
            ActionView::Fail(message),
        ),
        ControlView::Stop => (
            to_phase(receiver, ConnectionPhase::Finished),
            ActionView::Same(GatewayAction::Finish(None)),
        ),
    }
}

/// The connection goes on with its next turn.
pub open spec fn turned(receiver: DiscordGatewayReceiver) -> (DiscordGatewayReceiver, ActionView) {
    (to_phase(receiver, ConnectionPhase::Turning), ActionView::Same(GatewayAction::Poll))
}

/// The receiver after a word that brings its number.
pub open spec fn numbered(receiver: DiscordGatewayReceiver, number: Option<u64>) -> DiscordGatewayReceiver {
    match number {
        None => receiver,
        Some(value) => DiscordGatewayReceiver {
            sequence: number,
            session: match receiver.session {
                Some(session) => Some(DiscordSession { sequence: value, ..session }),
                None => None,
            },
            ..receiver
        },
    }
}

/// The receiver after a heartbeat that awaits its answer.
pub open spec fn beaten(receiver: DiscordGatewayReceiver, now: u128) -> DiscordGatewayReceiver {
    DiscordGatewayReceiver {
        acknowledged: false,
        next_heartbeat: ms_after(now, receiver.heartbeat_ms),
        ..receiver
    }
}

/// The interval of heartbeats that the gateway asks for.
pub open spec fn asked_interval(d: Seq<char>) -> Option<u64> {
    match json::json_at(d, "/heartbeat_interval"@) {
        json::JsonPartView::Number { unsigned: Some(ms), .. } => if ms > 0 {
            Some(ms)
        } else {
            None
        },
        _ => None,
    }
}

/// What follows from the first word of the gateway.
pub open spec fn after_hello(receiver: DiscordGatewayReceiver, payload: GatewayPayload) -> (
    DiscordGatewayReceiver,
    ActionView,
) {
    if payload.op != 10 {
        ended(receiver, invalid_payload())
    } else {
        match asked_interval(payload.d@) {
            Some(ms) => (
                DiscordGatewayReceiver {
                    heartbeat_ms: ms,
                    phase: ConnectionPhase::Authenticating,
                    ..receiver
                },
                ActionView::Same(GatewayAction::Send(first_words(receiver))),
            ),
            None => ended(receiver, invalid_payload()),
        }
    }
}

/// What follows from a word of the gateway, once its number has been taken.
pub open spec fn after_word(receiver: DiscordGatewayReceiver, payload: GatewayPayload) -> (
    DiscordGatewayReceiver,
    ActionView,
) {
    if payload.op == 0 {
        if payload.t is Some && payload.t->0@ == "READY"@ {
            (
                to_phase(receiver, ConnectionPhase::DecodingReady),
                ActionView::Same(GatewayAction::DecodeReady { d: payload.d }),
            )
        } else if payload.t is Some && payload.t->0@ == "MESSAGE_CREATE"@ {
            (
                to_phase(receiver, ConnectionPhase::DecodingMessage),
                ActionView::Same(GatewayAction::DecodeMessage { d: payload.d }),
            )
        } else if payload.t is Some && payload.t->0@ == "INTERACTION_CREATE"@ {
            (
                to_phase(receiver, ConnectionPhase::DecodingInteraction),
                ActionView::Same(GatewayAction::DecodeInteraction { d: payload.d }),
            )
        } else {
            turned(receiver)
        }
    } else if payload.op == 1 {
        (
            to_phase(receiver, ConnectionPhase::Echoing),
            ActionView::Same(
                GatewayAction::Send(GatewaySend::Heartbeat { sequence: receiver.sequence }),
            ),
        )
    } else if payload.op == 7 {
        ended(receiver, ControlView::Resume)
    } else if payload.op == 9 {
        if json::json_at(payload.d@, ""@) == json::JsonPartView::Bool(true) {
            ended(receiver, ControlView::Resume)
        } else {
            ended(receiver, ControlView::Reidentify)
        }
    } else if payload.op == 11 {
        turned(DiscordGatewayReceiver { acknowledged: true, ..receiver })
    } else {
        turned(receiver)
    }
}

/// What follows from a read that brought no word.
pub open spec fn after_no_word(
    receiver: DiscordGatewayReceiver,
    read: GatewayRead,
    waiting: ConnectionPhase,
) -> (DiscordGatewayReceiver, ActionView) {
    match read {
        GatewayRead::Closed(code) => ended(receiver, close_follows(code)),
        GatewayRead::Lost => ended(receiver, ControlView::Resume),
        GatewayRead::Invalid => ended(receiver, invalid_payload()),
        _ => (to_phase(receiver, waiting), ActionView::Same(GatewayAction::Poll)),
    }
}

/// The message that an event reports, unless a bot wrote it, or why it cannot be taken.
pub open spec fn message_of(event: MessageCreateEvent) -> Result<Option<DiscordMessage>, Seq<char>> {
    if event.author.bot == Some(true) {
        Ok(None)
    } else {
        match commands::snowflake(event.id@) {
            Err(message) => Err(message),
            Ok(id) => match commands::snowflake(event.channel_id@) {
                Err(message) => Err(message),
                Ok(channel_id) => match commands::snowflake(event.author.id@) {
                    Err(message) => Err(message),
                    Ok(author_id) => Ok(
                        Some(DiscordMessage { id, channel_id, author_id, content: event.content }),
                    ),
                },
            },
        }
    }
}

/// The next state and action.
pub open spec fn next(receiver: DiscordGatewayReceiver, observation: GatewayObservation) -> (
    DiscordGatewayReceiver,
    ActionView,
) {
    match (receiver.phase, observation) {
        (ConnectionPhase::Starting, GatewayObservation::Polled { stop, .. }) => if stop {
            ended(receiver, ControlView::Stop)
        } else {
            match connection_address(base_url(receiver)) {
                Ok(url) => (
                    to_phase(receiver, ConnectionPhase::Opening),
                    ActionView::Connect(url),
                ),
                Err(message) => ended(receiver, ControlView::Fatal(message)),
            }
        },
        (ConnectionPhase::Opening, GatewayObservation::Connected { now }) => (
            to_phase(
                receiver,
                ConnectionPhase::AwaitingHello {
                    deadline: (now + GATEWAY_HELLO_TIMEOUT) as u128,
                },
            ),
            ActionView::Same(GatewayAction::Poll),
        ),
        (ConnectionPhase::Opening, GatewayObservation::InvalidUrl) => ended(
            receiver,
            ControlView::Fatal("discord gateway returned an invalid websocket URL"@),
        ),
        (ConnectionPhase::AwaitingHello { deadline }, GatewayObservation::Polled { stop, now }) =>
            if stop {
            ended(receiver, ControlView::Stop)
        } else if now >= deadline {
            ended(receiver, ControlView::Resume)
        } else {
            (
                to_phase(receiver, ConnectionPhase::ReadingHello { deadline }),
                ActionView::Same(GatewayAction::Read),
            )
        },
        (ConnectionPhase::ReadingHello { deadline }, GatewayObservation::Got(read)) => match read {
            GatewayRead::Payload(payload) => after_hello(receiver, payload),
            _ => after_no_word(receiver, read, ConnectionPhase::AwaitingHello { deadline }),
        },
        (ConnectionPhase::Authenticating, GatewayObservation::Sent { now, seed }) => turned(
            DiscordGatewayReceiver {
                sequence: match receiver.session {
                    Some(session) => Some(session.sequence),
                    None => None,
                },
                acknowledged: true,
                next_heartbeat: ms_after(now, jitter(receiver.heartbeat_ms, seed)),
                ..receiver
            },
        ),
        (ConnectionPhase::Turning, GatewayObservation::Polled { stop, now }) => if stop {
            ended(receiver, ControlView::Stop)
        } else if now < receiver.next_heartbeat {
            (
                to_phase(receiver, ConnectionPhase::Reading),
                ActionView::Same(GatewayAction::Read),
            )
        } else if !receiver.acknowledged {
            ended(receiver, ControlView::Resume)
        } else {
            (
                to_phase(receiver, ConnectionPhase::Beating),
                ActionView::Same(
                    GatewayAction::Send(GatewaySend::Heartbeat { sequence: receiver.sequence }),
                ),
            )
        },
        (ConnectionPhase::Beating, GatewayObservation::Sent { now, .. }) => (
            to_phase(beaten(receiver, now), ConnectionPhase::Reading),
            ActionView::Same(GatewayAction::Read),
        ),
        (ConnectionPhase::Reading, GatewayObservation::Got(read)) => match read {
            GatewayRead::Payload(payload) => after_word(numbered(receiver, payload.s), payload),
            _ => after_no_word(receiver, read, ConnectionPhase::Turning),
        },
        (ConnectionPhase::Echoing, GatewayObservation::Sent { now, .. }) => turned(
            beaten(receiver, now),
        ),
        (ConnectionPhase::DecodingReady, GatewayObservation::ReadyDecoded(ready)) => match (
            ready,
            receiver.sequence,
        ) {
            (Some(ready), Some(sequence)) => turned(
                DiscordGatewayReceiver {
                    session: Some(
                        DiscordSession {
                            session_id: ready.session_id,
                            resume_gateway_url: ready.resume_gateway_url,
                            sequence,
                        },
                    ),
                    ..receiver
                },
            ),
            _ => ended(receiver, invalid_payload()),
        },
        (ConnectionPhase::DecodingMessage, GatewayObservation::MessageDecoded(event)) =>
            match event {
            None => ended(receiver, invalid_payload()),
            Some(event) => match message_of(event) {
                Err(message) => ended(receiver, ControlView::Fatal(message)),
                Ok(None) => turned(receiver),
                Ok(Some(message)) => (
                    to_phase(receiver, ConnectionPhase::Delivering),
                    ActionView::Same(GatewayAction::Deliver(message)),
                ),
            },
        },
        (ConnectionPhase::Delivering, GatewayObservation::Delivered) => turned(receiver),
        (ConnectionPhase::Delivering, GatewayObservation::NotDelivered) => ended(
            receiver,
            ControlView::Stop,
        ),
        (ConnectionPhase::DecodingInteraction, GatewayObservation::InteractionDecoded(event)) =>
            match event {
            None => ended(receiver, invalid_payload()),
            Some(event) => (
                to_phase(receiver, ConnectionPhase::Handling),
                ActionView::Same(GatewayAction::Handle(event)),
            ),
        },
        (ConnectionPhase::Handling, GatewayObservation::Handled(result)) => match result {
            Ok(()) => turned(receiver),
            Err(failed) => (
                to_phase(receiver, ConnectionPhase::Finished),
                ActionView::Same(GatewayAction::Finish(Some(failed))),
            ),
        },
        (ConnectionPhase::Pausing, GatewayObservation::Polled { stop, .. }) => if stop {
            ended(receiver, ControlView::Stop)
        } else {
            (to_phase(receiver, ConnectionPhase::Waiting), ActionView::Same(GatewayAction::Wait))
        },
        (ConnectionPhase::Waiting, GatewayObservation::Waited) => (
            to_phase(receiver, ConnectionPhase::Starting),
            ActionView::Same(GatewayAction::Poll),
        ),
        _ => ended(receiver, ControlView::Resume),
    }
}

/// Whether an observation is one that the last action can bring.
pub open spec fn fits(receiver: DiscordGatewayReceiver, observation: GatewayObservation) -> bool {
    match receiver.phase {
        ConnectionPhase::Starting => observation is Polled && text::utf8_len(base_url(receiver))
            <= LONGEST_ADDRESS,
        ConnectionPhase::Pausing => observation is Polled,
        ConnectionPhase::Opening => match observation {
            GatewayObservation::Connected { now } => now <= time::LAST_MOMENT,
            _ => observation is InvalidUrl || observation is Unreachable,
        },
        ConnectionPhase::AwaitingHello { .. } => observation is Polled,
        ConnectionPhase::Turning => observation is Polled,
        ConnectionPhase::ReadingHello { .. } => observation is Got,
        ConnectionPhase::Reading => observation is Got,
        ConnectionPhase::Authenticating | ConnectionPhase::Beating | ConnectionPhase::Echoing =>
            match observation {
            GatewayObservation::Sent { now, .. } => now <= time::LAST_MOMENT,
            _ => observation is NotSent,
        },
        ConnectionPhase::DecodingReady => observation is ReadyDecoded,
        ConnectionPhase::DecodingMessage => observation is MessageDecoded,
        ConnectionPhase::Delivering => observation is Delivered || observation is NotDelivered,
        ConnectionPhase::DecodingInteraction => observation is InteractionDecoded,
        ConnectionPhase::Handling => observation is Handled,
        ConnectionPhase::Waiting => observation is Waited,
        ConnectionPhase::Finished => false,
    }
}

fn ms_later(now: u128, ms: u64) -> (result: u128)
    requires
        now <= time::LAST_MOMENT,
    ensures
        result == ms_after(now, ms),
{
    assert(ms * time::NANOS_PER_MILLISECOND <= u64::MAX * 1_000_000) by (nonlinear_arith)
        requires
            ms <= u64::MAX,
            time::NANOS_PER_MILLISECOND == 1_000_000,
    ;
    now + ms as u128 * time::NANOS_PER_MILLISECOND
}

fn interval_asked(d: &str) -> (result: Option<u64>)
    ensures
        result == asked_interval(d@),
{
    match json::part_at(d, "/heartbeat_interval") {
        json::JsonPart::Number { unsigned: Some(ms), .. } => if ms > 0 {
            Some(ms)
        } else {
            None
        },
        _ => None,
    }
}

fn is_event(t: &Option<String>, expected: &str) -> (result: bool)
    ensures
        result == (t is Some && t->0@ == expected@),
{
    match t {
        Some(t) => text::same(t.as_str(), expected),
        None => false,
    }
}

/// The message that an event reports, unless a bot wrote it.
pub fn reported_message(event: MessageCreateEvent) -> (result: Result<
    Option<DiscordMessage>,
    AppError,
>)
    ensures
        commands::comes_to(result, message_of(event)),
{
    if let Some(bot) = event.author.bot {
        if bot {
            return Ok(None);
        }
    }
    let id: u64 = match parse_snowflake(event.id.as_str()) {
        Ok(id) => id,
        Err(failed) => {
            return Err(failed);
        },
    };
    let channel_id: u64 = match parse_snowflake(event.channel_id.as_str()) {
        Ok(channel_id) => channel_id,
        Err(failed) => {
            return Err(failed);
        },
    };
    let author_id: u64 = match parse_snowflake(event.author.id.as_str()) {
        Ok(author_id) => author_id,
        Err(failed) => {
            return Err(failed);
        },
    };
    Ok(Some(DiscordMessage { id, channel_id, author_id, content: event.content }))
}

impl DiscordGatewayReceiver {
    /// A receiver that has not connected yet. Its first action is to poll.
    pub fn new(token: String, initial_url: String) -> (result: Self)
        ensures
            result == (DiscordGatewayReceiver {
                token,
                initial_url,
                session: None,
                phase: ConnectionPhase::Starting,
                heartbeat_ms: 0,
                sequence: None,
                acknowledged: true,
                next_heartbeat: 0,
            }),
    {
        DiscordGatewayReceiver {
            token,
            initial_url,
            session: None,
            phase: ConnectionPhase::Starting,
            heartbeat_ms: 0,
            sequence: None,
            acknowledged: true,
            next_heartbeat: 0,
        }
    }

    fn end(&mut self, control: GatewayControl, Ghost(expected): Ghost<ControlView>) -> (action:
        GatewayAction)
        requires
            is_control(control, expected),
        ensures
            *final(self) == ended(*old(self), expected).0,
            is_action(action, ended(*old(self), expected).1),
    {
        match control {
            GatewayControl::Resume => {
                self.phase = ConnectionPhase::Pausing;
                GatewayAction::Poll
            },
            GatewayControl::Reidentify => {
                self.session = None;
                self.phase = ConnectionPhase::Pausing;
                GatewayAction::Poll
            },
            GatewayControl::Fatal(failed) => {
                self.phase = ConnectionPhase::Finished;
                GatewayAction::Finish(Some(failed))
            },
            GatewayControl::Stop => {
                self.phase = ConnectionPhase::Finished;
                GatewayAction::Finish(None)
            },
        }
    }

    fn turn(&mut self) -> (action: GatewayAction)
        ensures
            *final(self) == turned(*old(self)).0,
            is_action(action, turned(*old(self)).1),
    {
        self.phase = ConnectionPhase::Turning;
        GatewayAction::Poll
    }

    fn open(&mut self) -> (action: GatewayAction)
        requires
            text::utf8_len(base_url(*old(self))) <= LONGEST_ADDRESS,
            old(self).phase == ConnectionPhase::Starting,
        ensures
            *final(self) == next(
                *old(self),
                GatewayObservation::Polled { stop: false, now: 0 },
            ).0,
            is_action(
                action,
                next(*old(self), GatewayObservation::Polled { stop: false, now: 0 }).1,
            ),
    {
        let base = match &self.session {
            Some(session) => session.resume_gateway_url.clone(),
            None => self.initial_url.clone(),
        };
        match gateway_url(base.as_str()) {
            Ok(url) => {
                self.phase = ConnectionPhase::Opening;
                GatewayAction::Connect { url }
            },
            Err(failed) => {
                let ghost message = "discord gateway returned an invalid websocket URL"@;
                self.end(GatewayControl::Fatal(failed), Ghost(ControlView::Fatal(message)))
            },
        }
    }

    fn greet(&mut self, payload: GatewayPayload) -> (action: GatewayAction)
        ensures
            *final(self) == after_hello(*old(self), payload).0,
            is_action(action, after_hello(*old(self), payload).1),
    {
        if payload.op != 10 {
            return self.end(invalid_gateway_payload(), Ghost(invalid_payload()));
        }
        match interval_asked(payload.d.as_str()) {
            Some(ms) => {
                let words = match &self.session {
                    Some(session) => GatewaySend::Resume {
                        token: self.token.clone(),
                        session_id: session.session_id.clone(),
                        sequence: session.sequence,
                    },
                    None => GatewaySend::Identify {
                        token: self.token.clone(),
                        intents: DISCORD_INTENTS,
                    },
                };
                self.heartbeat_ms = ms;
                self.phase = ConnectionPhase::Authenticating;
                GatewayAction::Send(words)
            },
            None => self.end(invalid_gateway_payload(), Ghost(invalid_payload())),
        }
    }

    fn take_number(&mut self, number: Option<u64>)
        ensures
            *final(self) == numbered(*old(self), number),
    {
        if let Some(value) = number {
            self.sequence = Some(value);
            let mut current: Option<DiscordSession> = None;
            std::mem::swap(&mut current, &mut self.session);
            if let Some(session) = current {
                self.session = Some(DiscordSession { sequence: value, ..session });
            }
        }
    }

    fn hear(&mut self, payload: GatewayPayload) -> (action: GatewayAction)
        ensures
            *final(self) == after_word(*old(self), payload).0,
            is_action(action, after_word(*old(self), payload).1),
    {
        if payload.op == 0 {
            if is_event(&payload.t, "READY") {
                self.phase = ConnectionPhase::DecodingReady;
                return GatewayAction::DecodeReady { d: payload.d };
            }
            if is_event(&payload.t, "MESSAGE_CREATE") {
                self.phase = ConnectionPhase::DecodingMessage;
                return GatewayAction::DecodeMessage { d: payload.d };
            }
            if is_event(&payload.t, "INTERACTION_CREATE") {
                self.phase = ConnectionPhase::DecodingInteraction;
                return GatewayAction::DecodeInteraction { d: payload.d };
            }
            return self.turn();
        }
        if payload.op == 1 {
            self.phase = ConnectionPhase::Echoing;
            return GatewayAction::Send(GatewaySend::Heartbeat { sequence: self.sequence });
        }
        if payload.op == 7 {
            return self.end(GatewayControl::Resume, Ghost(ControlView::Resume));
        }
        if payload.op == 9 {
            return match json::part_at(payload.d.as_str(), "") {
                json::JsonPart::Bool(true) => self.end(
                    GatewayControl::Resume,
                    Ghost(ControlView::Resume),
                ),
                _ => self.end(GatewayControl::Reidentify, Ghost(ControlView::Reidentify)),
            };
        }
        if payload.op == 11 {
            self.acknowledged = true;
        }
        self.turn()
    }

    fn hear_nothing(&mut self, read: GatewayRead, waiting: ConnectionPhase) -> (action:
        GatewayAction)
        requires
            !(read is Payload),
        ensures
            *final(self) == after_no_word(*old(self), read, waiting).0,
            is_action(action, after_no_word(*old(self), read, waiting).1),
    {
        match read {
            GatewayRead::Closed(code) => self.end(close_control(code), Ghost(close_follows(code))),
            GatewayRead::Lost => self.end(GatewayControl::Resume, Ghost(ControlView::Resume)),
            GatewayRead::Invalid => self.end(invalid_gateway_payload(), Ghost(invalid_payload())),
            _ => {
                self.phase = waiting;
                GatewayAction::Poll
            },
        }
    }

    fn beat(&mut self, now: u128)
        requires
            now <= time::LAST_MOMENT,
        ensures
            *final(self) == beaten(*old(self), now),
    {
        self.acknowledged = false;
        self.next_heartbeat = ms_later(now, self.heartbeat_ms);
    }

    /// Takes in what came of the last action, and says what to do next.
    pub fn step(&mut self, observation: GatewayObservation) -> (action: GatewayAction)
        requires
            fits(*old(self), observation),
        ensures
            *final(self) == next(*old(self), observation).0,
            is_action(action, next(*old(self), observation).1),
    {
        match (self.phase, observation) {
            (ConnectionPhase::Starting, GatewayObservation::Polled { stop, .. }) => {
                if stop {
                    self.end(GatewayControl::Stop, Ghost(ControlView::Stop))
                } else {
                    self.open()
                }
            },
            (ConnectionPhase::Opening, GatewayObservation::Connected { now }) => {
                let deadline: u128 = now + GATEWAY_HELLO_TIMEOUT;
                self.phase = ConnectionPhase::AwaitingHello { deadline };
                GatewayAction::Poll
            },
            (ConnectionPhase::Opening, GatewayObservation::InvalidUrl) => {
                let failed = error::provider_error(
                    "discord gateway returned an invalid websocket URL",
                );
                let ghost message = "discord gateway returned an invalid websocket URL"@;
                self.end(GatewayControl::Fatal(failed), Ghost(ControlView::Fatal(message)))
            },
            (
                ConnectionPhase::AwaitingHello { deadline },
                GatewayObservation::Polled { stop, now },
            ) => {
                if stop {
                    self.end(GatewayControl::Stop, Ghost(ControlView::Stop))
                } else if now >= deadline {
                    self.end(GatewayControl::Resume, Ghost(ControlView::Resume))
                } else {
                    self.phase = ConnectionPhase::ReadingHello { deadline };
                    GatewayAction::Read
                }
            },
            (ConnectionPhase::ReadingHello { deadline }, GatewayObservation::Got(read)) => {
                match read {
                    GatewayRead::Payload(payload) => self.greet(payload),
                    _ => self.hear_nothing(read, ConnectionPhase::AwaitingHello { deadline }),
                }
            },
            (ConnectionPhase::Authenticating, GatewayObservation::Sent { now, seed }) => {
                self.sequence =
                match &self.session {
                    Some(session) => Some(session.sequence),
                    None => None,
                };
                self.acknowledged = true;
                let delay: u64 = heartbeat_jitter(self.heartbeat_ms, seed);
                self.next_heartbeat = ms_later(now, delay);
                self.turn()
            },
            (ConnectionPhase::Turning, GatewayObservation::Polled { stop, now }) => {
                if stop {
                    self.end(GatewayControl::Stop, Ghost(ControlView::Stop))
                } else if now < self.next_heartbeat {
                    self.phase = ConnectionPhase::Reading;
                    GatewayAction::Read
                } else if !self.acknowledged {
                    self.end(GatewayControl::Resume, Ghost(ControlView::Resume))
                } else {
                    self.phase = ConnectionPhase::Beating;
                    GatewayAction::Send(GatewaySend::Heartbeat { sequence: self.sequence })
                }
            },
            (ConnectionPhase::Beating, GatewayObservation::Sent { now, .. }) => {
                self.beat(now);
                self.phase = ConnectionPhase::Reading;
                GatewayAction::Read
            },
            (ConnectionPhase::Reading, GatewayObservation::Got(read)) => {
                match read {
                    GatewayRead::Payload(payload) => {
                        self.take_number(payload.s);
                        self.hear(payload)
                    },
                    _ => self.hear_nothing(read, ConnectionPhase::Turning),
                }
            },
            (ConnectionPhase::Echoing, GatewayObservation::Sent { now, .. }) => {
                self.beat(now);
                self.turn()
            },
            (ConnectionPhase::DecodingReady, GatewayObservation::ReadyDecoded(ready)) => {
                match (ready, self.sequence) {
                    (Some(ready), Some(sequence)) => {
                        self.session = Some(
                            DiscordSession {
                                session_id: ready.session_id,
                                resume_gateway_url: ready.resume_gateway_url,
                                sequence,
                            },
                        );
                        self.turn()
                    },
                    _ => self.end(invalid_gateway_payload(), Ghost(invalid_payload())),
                }
            },
            (ConnectionPhase::DecodingMessage, GatewayObservation::MessageDecoded(event)) => {
                match event {
                    None => self.end(invalid_gateway_payload(), Ghost(invalid_payload())),
                    Some(event) => {
                        let ghost expected = message_of(event);
                        match reported_message(event) {
                            Err(failed) => self.end(
                                GatewayControl::Fatal(failed),
                                Ghost(ControlView::Fatal(expected->Err_0)),
                            ),
                            Ok(None) => self.turn(),
                            Ok(Some(message)) => {
                                self.phase = ConnectionPhase::Delivering;
                                GatewayAction::Deliver(message)
                            },
                        }
                    },
                }
            },
            (ConnectionPhase::Delivering, GatewayObservation::Delivered) => self.turn(),
            (ConnectionPhase::Delivering, GatewayObservation::NotDelivered) => self.end(
                GatewayControl::Stop,
                Ghost(ControlView::Stop),
            ),
            (
                ConnectionPhase::DecodingInteraction,
                GatewayObservation::InteractionDecoded(event),
            ) => {
                match event {
                    None => self.end(invalid_gateway_payload(), Ghost(invalid_payload())),
                    Some(event) => {
                        self.phase = ConnectionPhase::Handling;
                        GatewayAction::Handle(event)
                    },
                }
            },
            (ConnectionPhase::Handling, GatewayObservation::Handled(result)) => {
                match result {
                    Ok(()) => self.turn(),
                    Err(failed) => {
                        self.phase = ConnectionPhase::Finished;
                        GatewayAction::Finish(Some(failed))
                    },
                }
            },
            (ConnectionPhase::Pausing, GatewayObservation::Polled { stop, .. }) => {
                if stop {
                    self.end(GatewayControl::Stop, Ghost(ControlView::Stop))
                } else {
                    self.phase = ConnectionPhase::Waiting;
                    GatewayAction::Wait
                }
            },
            (ConnectionPhase::Waiting, GatewayObservation::Waited) => {
                self.phase = ConnectionPhase::Starting;
                GatewayAction::Poll
            },
            _ => self.end(GatewayControl::Resume, Ghost(ControlView::Resume)),
        }
    }
}

/// Whether the session, where there is one, stands at the last event that was seen on the
/// connection.
pub open spec fn keeps_place(receiver: DiscordGatewayReceiver) -> bool {
    let listening = match receiver.phase {
        ConnectionPhase::Turning | ConnectionPhase::Beating | ConnectionPhase::Reading
        | ConnectionPhase::Echoing | ConnectionPhase::DecodingReady
        | ConnectionPhase::DecodingMessage | ConnectionPhase::Delivering
        | ConnectionPhase::DecodingInteraction | ConnectionPhase::Handling => true,
        _ => false,
    };
    listening && receiver.session is Some ==> receiver.sequence == Some(
        receiver.session->0.sequence,
    )
}

/// At every moment of a connection its session stands at the last event that was seen.
pub proof fn the_session_keeps_its_place(
    receiver: DiscordGatewayReceiver,
    observation: GatewayObservation,
)
    requires
        fits(receiver, observation),
        keeps_place(receiver),
    ensures
        keeps_place(next(receiver, observation).0),
{
}

/// A connection that ends to be resumed keeps its session, so that the next one is asked to go on
/// behind the last event; one that ends to be identified anew drops it.
pub proof fn resuming_goes_on_where_it_stopped(
    receiver: DiscordGatewayReceiver,
    payload: GatewayPayload,
)
    ensures
        ended(receiver, ControlView::Resume).0.session == receiver.session,
        first_words(ended(receiver, ControlView::Reidentify).0) == (GatewaySend::Identify {
            token: receiver.token,
            intents: DISCORD_INTENTS,
        }),
        receiver.session is Some && payload.s is Some ==> first_words(
            ended(numbered(receiver, payload.s), ControlView::Resume).0,
        ) == (GatewaySend::Resume {
            token: receiver.token,
            session_id: receiver.session->0.session_id,
            sequence: payload.s->0,
        }),
{
}

/// A heartbeat that is not answered before the next one is due ends the connection, and no second
/// one is sent.
pub proof fn an_unanswered_heartbeat_ends_the_connection(
    receiver: DiscordGatewayReceiver,
    sent_at: u128,
    now: u128,
)
    requires
        receiver.phase == ConnectionPhase::Turning,
        now >= beaten(receiver, sent_at).next_heartbeat,
    ensures
        next(beaten(receiver, sent_at), GatewayObservation::Polled { stop: false, now }) == ended(
            beaten(receiver, sent_at),
            ControlView::Resume,
        ),
{
}

/// Who has been told to stop stops: the next poll ends the receiver.
pub proof fn a_stop_is_heeded(receiver: DiscordGatewayReceiver, now: u128)
    requires
        fits(receiver, GatewayObservation::Polled { stop: true, now }),
    ensures
        next(receiver, GatewayObservation::Polled { stop: true, now }).0.phase
            == ConnectionPhase::Finished,
        next(receiver, GatewayObservation::Polled { stop: true, now }).1 == ActionView::Same(
            GatewayAction::Finish(None),
        ),
{
}

} // verus!
