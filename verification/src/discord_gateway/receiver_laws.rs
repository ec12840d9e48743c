//! What holds of the connection to the Discord gateway, whatever the gateway says.

use crate::discord_gateway::commands::{parse_snowflake, InteractionCreateEvent};
use crate::discord_gateway::receiver::{
    close_control, heartbeat_jitter, reported_message, ConnectionPhase, DiscordGatewayReceiver,
    DiscordMessage, GatewayAction, GatewayControl, GatewayObservation, GatewayPayload, GatewayRead,
    GatewaySend, MessageCreateEvent, ReadyEvent,
};
use crate::error::AppError;
use crate::json;
use vstd::prelude::*;

verus! {

/// A close ends the receiver only with a code by which the gateway turns the application away. The
/// session is dropped where the gateway no longer takes its number or its age, and kept otherwise.
pub proof fn a_close_goes_by_its_code(code: Option<u16>, control: GatewayControl)
    requires
        call_ensures(close_control, (code,), control),
    ensures
        control is Fatal <==> (code is Some && (code->0 == 4004 || 4010 <= code->0 <= 4014)),
        control == GatewayControl::Reidentify <==> (code == Some(4007u16) || code == Some(4009u16)),
        control != GatewayControl::Stop,
        code is None ==> control == GatewayControl::Resume,
{
}

/// The first heartbeat comes within its interval, and where the seed is in it, at the seed.
pub proof fn a_first_heartbeat_comes_in_its_interval(interval_ms: u64, seed: u64, wait: u64)
    requires
        call_ensures(heartbeat_jitter, (interval_ms, seed), wait),
    ensures
        interval_ms == 0 ==> wait == 0,
        interval_ms > 0 ==> wait < interval_ms,
        seed < interval_ms ==> wait == seed,
{
    if seed < interval_ms {
        assert(seed % interval_ms == seed) by (nonlinear_arith)
            requires
                seed < interval_ms,
        ;
    }
}

/// A bot's message is passed over. Any other is taken over with its own numbers and words, or is an
/// error where one of them is no number.
pub proof fn a_message_is_taken_over(
    event: MessageCreateEvent,
    result: Result<Option<DiscordMessage>, AppError>,
    id: &str,
    channel_id: &str,
    author_id: &str,
    read_id: Result<u64, AppError>,
    read_channel: Result<u64, AppError>,
    read_author: Result<u64, AppError>,
)
    requires
        call_ensures(reported_message, (event,), result),
        id@ == event.id@ && channel_id@ == event.channel_id@ && author_id@ == event.author.id@,
        call_ensures(parse_snowflake, (id,), read_id),
        call_ensures(parse_snowflake, (channel_id,), read_channel),
        call_ensures(parse_snowflake, (author_id,), read_author),
    ensures
        event.author.bot == Some(true) <==> result == Ok::<Option<DiscordMessage>, AppError>(None),
        event.author.bot != Some(true) ==> (result is Ok <==> read_id is Ok && read_channel is Ok
            && read_author is Ok),
        result matches Ok(Some(message)) ==> {
            &&& message.id == read_id->Ok_0
            &&& message.channel_id == read_channel->Ok_0
            &&& message.author_id == read_author->Ok_0
            &&& message.content == event.content
        },
{
}

/// The first word of the gateway must say how often it wants to hear of the receiver. It is answered
/// with the session that there is, or else with a request for a new one; any other first word ends
/// the connection, and so does none.
pub proof fn a_greeting_is_answered(
    before: DiscordGatewayReceiver,
    after: DiscordGatewayReceiver,
    payload: GatewayPayload,
    action: GatewayAction,
)
    requires
        before.phase is ReadingHello,
        exists|x: &mut DiscordGatewayReceiver|
            *x == before && *final(x) == after && #[trigger] call_ensures(
                DiscordGatewayReceiver::step,
                (x, GatewayObservation::Got(GatewayRead::Payload(payload))),
                action,
            ),
    ensures
        action is Send ==> payload.op == 10 && after.heartbeat_ms > 0 && after.phase
            == ConnectionPhase::Authenticating,
        action is Send ==> (json::json_at(payload.d@, "/heartbeat_interval"@) matches
            json::JsonPartView::Number { unsigned: Some(ms), .. } && after.heartbeat_ms == ms),
        action is Send && before.session is Some ==> action == GatewayAction::Send(
            GatewaySend::Resume {
                token: before.token,
                session_id: before.session->0.session_id,
                sequence: before.session->0.sequence,
            },
        ),
        action is Send && before.session is None ==> action == GatewayAction::Send(
            GatewaySend::Identify { token: before.token, intents: 37_376 },
        ),
        payload.op != 10 ==> !(action is Send),
        payload.op == 10 && (json::json_at(payload.d@, "/heartbeat_interval"@) matches
            json::JsonPartView::Number { unsigned: Some(ms), .. } && ms > 0) ==> action is Send,
        after.session == before.session || after.session is None,
{
}

/// The gateway has ten seconds for its first word; a connection that stays silent is given up and
/// to be resumed.
pub proof fn a_silent_connection_is_given_up(
    before: DiscordGatewayReceiver,
    middle: DiscordGatewayReceiver,
    after: DiscordGatewayReceiver,
    opened: u128,
    now: u128,
    first: GatewayAction,
    second: GatewayAction,
)
    requires
        before.phase == ConnectionPhase::Opening,
        opened <= crate::time::LAST_MOMENT,
        exists|x: &mut DiscordGatewayReceiver|
            *x == before && *final(x) == middle && #[trigger] call_ensures(
                DiscordGatewayReceiver::step,
                (x, GatewayObservation::Connected { now: opened }),
                first,
            ),
        exists|x: &mut DiscordGatewayReceiver|
            *x == middle && *final(x) == after && #[trigger] call_ensures(
                DiscordGatewayReceiver::step,
                (x, GatewayObservation::Polled { stop: false, now }),
                second,
            ),
    ensures
        first is Poll,
        second is Read <==> now < opened + 10_000_000_000,
        !(second is Read) ==> second is Poll && after.phase == ConnectionPhase::Pausing,
        after.session == before.session,
{
}

/// Whether a word reports an event of this name.
pub open spec fn reports(payload: GatewayPayload, name: Seq<char>) -> bool {
    payload.op == 0 && payload.t is Some && payload.t->0@ == name
}

/// A word is followed by what it asks for: an event by its reading, a call for a heartbeat by one
/// with the last number, and a farewell by the end of the connection; an answer to a heartbeat is
/// noted. The session drops only where the gateway says that it is not to be gone on with.
pub proof fn a_word_is_followed(
    before: DiscordGatewayReceiver,
    after: DiscordGatewayReceiver,
    payload: GatewayPayload,
    action: GatewayAction,
)
    requires
        before.phase == ConnectionPhase::Reading,
        exists|x: &mut DiscordGatewayReceiver|
            *x == before && *final(x) == after && #[trigger] call_ensures(
                DiscordGatewayReceiver::step,
                (x, GatewayObservation::Got(GatewayRead::Payload(payload))),
                action,
            ),
    ensures
        after.token == before.token && after.initial_url == before.initial_url,
        payload.s is Some ==> after.sequence == payload.s,
        payload.s is None ==> after.sequence == before.sequence,
        reports(payload, "READY"@) <==> action is DecodeReady,
        reports(payload, "MESSAGE_CREATE"@) <==> action is DecodeMessage,
        reports(payload, "INTERACTION_CREATE"@) <==> action is DecodeInteraction,
        action is DecodeReady ==> action == (GatewayAction::DecodeReady { d: payload.d }),
        action is DecodeMessage ==> action == (GatewayAction::DecodeMessage { d: payload.d }),
        action is DecodeInteraction ==> action == (GatewayAction::DecodeInteraction {
            d: payload.d,
        }),
        payload.op == 1 <==> action is Send,
        action is Send ==> action == GatewayAction::Send(
            GatewaySend::Heartbeat { sequence: after.sequence },
        ),
        payload.op == 11 ==> after.acknowledged,
        payload.op != 11 ==> after.acknowledged == before.acknowledged,
        after.phase == ConnectionPhase::Pausing <==> payload.op == 7 || payload.op == 9,
        before.session is None ==> after.session is None,
        before.session is Some ==> (after.session is None <==> payload.op == 9 && json::json_at(
            payload.d@,
            ""@,
        ) != json::JsonPartView::Bool(true)),
        after.session is Some ==> after.session->0.session_id == before.session->0.session_id
            && after.session->0.resume_gateway_url == before.session->0.resume_gateway_url && (
        payload.s is Some ==> after.session->0.sequence == payload.s->0),
        after.phase != ConnectionPhase::Finished,
{
    reveal_strlit("READY");
    reveal_strlit("MESSAGE_CREATE");
    reveal_strlit("INTERACTION_CREATE");
    assert("READY"@.len() == 5 && "MESSAGE_CREATE"@.len() == 14 && "INTERACTION_CREATE"@.len()
        == 18);
}

/// A read that brings no word: a lost connection is to be resumed, silence is nothing, and a close
/// goes by its code.
pub proof fn no_word_is_followed(
    before: DiscordGatewayReceiver,
    after: DiscordGatewayReceiver,
    read: GatewayRead,
    action: GatewayAction,
)
    requires
        before.phase == ConnectionPhase::Reading,
        !(read is Payload),
        exists|x: &mut DiscordGatewayReceiver|
            *x == before && *final(x) == after && #[trigger] call_ensures(
                DiscordGatewayReceiver::step,
                (x, GatewayObservation::Got(read)),
                action,
            ),
    ensures
        read is Nothing ==> action is Poll && after == (DiscordGatewayReceiver {
            phase: ConnectionPhase::Turning,
            ..before
        }),
        read is Lost ==> action is Poll && after == (DiscordGatewayReceiver {
            phase: ConnectionPhase::Pausing,
            ..before
        }),
        read matches GatewayRead::Closed(Some(code)) && (code == 4004 || 4010 <= code <= 4014) ==> (
        action matches GatewayAction::Finish(Some(_)) && after.phase == ConnectionPhase::Finished),
        read matches GatewayRead::Closed(Some(code)) && (code == 4007 || code == 4009) ==> action
            is Poll && after.session is None && after.phase == ConnectionPhase::Pausing,
        read matches GatewayRead::Closed(None) ==> action is Poll && after.session == before.session
            && after.phase == ConnectionPhase::Pausing,
{
}

/// Between two reads a heartbeat is sent once it is due, with the last number; one that was not
/// answered by then ends the connection, which is to be resumed.
pub proof fn a_heartbeat_is_sent_when_due(
    before: DiscordGatewayReceiver,
    after: DiscordGatewayReceiver,
    now: u128,
    action: GatewayAction,
)
    requires
        before.phase == ConnectionPhase::Turning,
        exists|x: &mut DiscordGatewayReceiver|
            *x == before && *final(x) == after && #[trigger] call_ensures(
                DiscordGatewayReceiver::step,
                (x, GatewayObservation::Polled { stop: false, now }),
                action,
            ),
    ensures
        now < before.next_heartbeat <==> action is Read,
        now >= before.next_heartbeat && before.acknowledged ==> action == GatewayAction::Send(
            GatewaySend::Heartbeat { sequence: before.sequence },
        ),
        now >= before.next_heartbeat && !before.acknowledged ==> action is Poll && after.phase
            == ConnectionPhase::Pausing,
        after.session == before.session,
{
}

/// A sent heartbeat awaits its answer, and the next one is due an interval later.
pub proof fn a_sent_heartbeat_awaits_its_answer(
    before: DiscordGatewayReceiver,
    after: DiscordGatewayReceiver,
    now: u128,
    seed: u64,
    action: GatewayAction,
)
    requires
        before.phase == ConnectionPhase::Beating || before.phase == ConnectionPhase::Echoing,
        now <= crate::time::LAST_MOMENT,
        exists|x: &mut DiscordGatewayReceiver|
            *x == before && *final(x) == after && #[trigger] call_ensures(
                DiscordGatewayReceiver::step,
                (x, GatewayObservation::Sent { now, seed }),
                action,
            ),
    ensures
        !after.acknowledged,
        now + before.heartbeat_ms * 1_000_000 <= u128::MAX ==> after.next_heartbeat == now
            + before.heartbeat_ms * 1_000_000,
        before.phase == ConnectionPhase::Beating ==> action is Read,
        before.phase == ConnectionPhase::Echoing ==> action is Poll,
        after.session == before.session && after.sequence == before.sequence,
{
}

/// The event that opens a session is kept as the session, at the number that it came with.
pub proof fn a_session_is_opened_as_reported(
    before: DiscordGatewayReceiver,
    after: DiscordGatewayReceiver,
    ready: ReadyEvent,
    action: GatewayAction,
)
    requires
        before.phase == ConnectionPhase::DecodingReady,
        before.sequence is Some,
        exists|x: &mut DiscordGatewayReceiver|
            *x == before && *final(x) == after && #[trigger] call_ensures(
                DiscordGatewayReceiver::step,
                (x, GatewayObservation::ReadyDecoded(Some(ready))),
                action,
            ),
    ensures
        action is Poll,
        after.phase == ConnectionPhase::Turning,
        after.session is Some && after.session->0.session_id == ready.session_id
            && after.session->0.resume_gateway_url == ready.resume_gateway_url
            && after.session->0.sequence == before.sequence->0,
{
}

/// A message that was read is delivered as it was reported, unless a bot wrote it; a message that
/// nobody takes stops the receiver.
pub proof fn a_read_message_is_delivered(
    before: DiscordGatewayReceiver,
    after: DiscordGatewayReceiver,
    event: MessageCreateEvent,
    reported: Result<Option<DiscordMessage>, AppError>,
    action: GatewayAction,
)
    requires
        before.phase == ConnectionPhase::DecodingMessage,
        call_ensures(reported_message, (event,), reported),
        exists|x: &mut DiscordGatewayReceiver|
            *x == before && *final(x) == after && #[trigger] call_ensures(
                DiscordGatewayReceiver::step,
                (x, GatewayObservation::MessageDecoded(Some(event))),
                action,
            ),
    ensures
        reported matches Ok(Some(message)) ==> action == GatewayAction::Deliver(message)
            && after.phase == ConnectionPhase::Delivering,
        reported matches Ok(None) ==> action is Poll && after.phase == ConnectionPhase::Turning,
        reported is Err ==> (action matches GatewayAction::Finish(Some(_))),
        after.session == before.session,
{
}

/// An interaction that was read is handled as it is; where that fails, the receiver ends with the
/// error, and else it goes on.
pub proof fn an_interaction_is_handled(
    before: DiscordGatewayReceiver,
    after: DiscordGatewayReceiver,
    event: InteractionCreateEvent,
    action: GatewayAction,
    handled: Result<(), AppError>,
    later: DiscordGatewayReceiver,
    then_done: GatewayAction,
)
    requires
        before.phase == ConnectionPhase::DecodingInteraction,
        exists|x: &mut DiscordGatewayReceiver|
            *x == before && *final(x) == after && #[trigger] call_ensures(
                DiscordGatewayReceiver::step,
                (x, GatewayObservation::InteractionDecoded(Some(event))),
                action,
            ),
        exists|x: &mut DiscordGatewayReceiver|
            *x == after && *final(x) == later && #[trigger] call_ensures(
                DiscordGatewayReceiver::step,
                (x, GatewayObservation::Handled(handled)),
                then_done,
            ),
    ensures
        action == GatewayAction::Handle(event),
        handled is Ok ==> then_done is Poll && later.phase == ConnectionPhase::Turning,
        handled matches Err(failed) ==> then_done == GatewayAction::Finish(Some(failed))
            && later.phase == ConnectionPhase::Finished,
        later.session == before.session && later.sequence == before.sequence,
{
}

/// A connection that ended is followed by a pause and then by another, unless the receiver is to
/// stop; the session stays.
pub proof fn a_pause_is_followed_by_another_connection(
    before: DiscordGatewayReceiver,
    after: DiscordGatewayReceiver,
    stop: bool,
    now: u128,
    action: GatewayAction,
)
    requires
        before.phase == ConnectionPhase::Pausing,
        exists|x: &mut DiscordGatewayReceiver|
            *x == before && *final(x) == after && #[trigger] call_ensures(
                DiscordGatewayReceiver::step,
                (x, GatewayObservation::Polled { stop, now }),
                action,
            ),
    ensures
        stop <==> action == GatewayAction::Finish(None),
        !stop ==> action is Wait,
        after.session == before.session,
{
}

} // verus!
