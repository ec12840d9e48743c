//! What holds of the work on a message, on a command and on what a channel is shown, whatever comes
//! of its actions.

use crate::daemon::protocol::{HelloResult, RunStateName, SessionSummary, TranscriptReadResult};
use crate::discord_gateway::command_work::{
    CommandAction, CommandObservation, CommandPhase, CommandWork,
};
use crate::discord_gateway::commands::{
    daemon_status, CommandRequest, DaemonStatus, DiscordCommandHandler,
};
use crate::discord_gateway::delivery::{
    EffectAction, EffectObservation, EffectPhase, EffectWork, MessageSend, SendAction,
};
use crate::discord_gateway::gateway::{self, require_capabilities, terminal_message};
use crate::discord_gateway::message::{
    MessageAction, MessageObservation, MessageWork, WorkPhase,
};
use crate::discord_gateway::presentation::{Emoji, PresentationEffect};
use crate::discord_gateway::rest::{DiscordRestClient, RestFailure};
use crate::discord_gateway::rest_laws::is_past;
use crate::discord_gateway::run_wait::{RunWait, WaitAction, WaitObservation};
use crate::error::AppError;
use crate::text;
use vstd::prelude::*;

verus! {

/// The work on a message takes its steps in order: first a sign in the channel, whatever comes of
/// it, then the daemon, then a run, then the wait for its events from the first one on.
pub proof fn a_message_is_worked_on_in_order(
    before: MessageWork,
    after: MessageWork,
    observation: MessageObservation,
    action: MessageAction,
)
    requires
        before.phase == WorkPhase::Greeting && observation is Shown || before.phase
            == WorkPhase::Connecting && observation is Connected || before.phase
            == WorkPhase::Starting && observation is Started,
        exists|x: &mut MessageWork|
            *x == before && *final(x) == after && #[trigger] call_ensures(
                MessageWork::step,
                (x, observation),
                action,
            ),
    ensures
        before.phase == WorkPhase::Greeting ==> action is ConnectDaemon && after.phase
            == WorkPhase::Connecting,
        before.phase == WorkPhase::Connecting ==> action is StartRun && after.phase
            == WorkPhase::Starting,
        observation matches MessageObservation::Started { run_id } ==> action
            == MessageAction::Wait(WaitAction::FetchEvents { run_id, from_offset: Some(0u64) })
            && after.phase == WorkPhase::Waiting && after@.wait is Some && after@.wait->0.run_id
            == run_id,
        after.presentation == before.presentation,
        after.failure == before.failure,
{
    assert(after@.phase == after.phase && after@.presentation == after.presentation);
    assert(after@.failure == after.failure);
}

/// A failure takes the first sign back, shows the sign of a failure, and only then ends the work
/// with its error.
pub proof fn a_failure_is_shown_first(
    before: MessageWork,
    middle: MessageWork,
    later: MessageWork,
    last: MessageWork,
    observation: MessageObservation,
    error: AppError,
    first: MessageAction,
    second: MessageAction,
    third: MessageAction,
)
    requires
        before.phase == WorkPhase::Connecting && observation == MessageObservation::ConnectFailed(
            error,
        ) || before.phase == WorkPhase::Starting && observation
            == MessageObservation::StartFailed(error) || before.phase is Replying && observation
            == MessageObservation::ReplyFailed(error),
        exists|x: &mut MessageWork|
            *x == before && *final(x) == middle && #[trigger] call_ensures(
                MessageWork::step,
                (x, observation),
                first,
            ),
        exists|x: &mut MessageWork|
            *x == middle && *final(x) == later && #[trigger] call_ensures(
                MessageWork::step,
                (x, MessageObservation::Shown),
                second,
            ),
        exists|x: &mut MessageWork|
            *x == later && *final(x) == last && #[trigger] call_ensures(
                MessageWork::step,
                (x, MessageObservation::Shown),
                third,
            ),
    ensures
        first == MessageAction::Show(PresentationEffect::RemoveReaction(Emoji::Eyes)),
        second == MessageAction::Show(PresentationEffect::AddReaction(Emoji::Failure)),
        third == MessageAction::Done(Err::<(), AppError>(error)),
        last.phase == WorkPhase::Ended,
{
    assert(middle@.phase == middle.phase && later@.phase == later.phase && last@.phase
        == last.phase);
    assert(middle@.to_show =~= seq![PresentationEffect::AddReaction(Emoji::Failure)]);
    assert(later@.to_show =~= Seq::<PresentationEffect>::empty());
}

/// What the wait for a run asks for is asked for as it is; when the wait ends, its transcript
/// decides: the words about its end are posted where there are any, and the run's end is shown at
/// once where there are none.
pub proof fn the_end_of_a_wait_is_told(
    before: MessageWork,
    after: MessageWork,
    seen: WaitObservation,
    transcript: TranscriptReadResult,
    told: Result<Option<String>, AppError>,
    wait_before: RunWait,
    wait_after: RunWait,
    asked: WaitAction,
    action: MessageAction,
)
    requires
        before.phase == WorkPhase::Waiting,
        before.wait == Some(wait_before),
        exists|x: &mut MessageWork|
            *x == before && *final(x) == after && #[trigger] call_ensures(
                MessageWork::step,
                (x, MessageObservation::Waited(seen)),
                action,
            ),
        exists|x: &mut RunWait|
            *x == wait_before && *final(x) == wait_after && #[trigger] call_ensures(
                RunWait::step,
                (x, seen),
                asked,
            ),
        asked is Done ==> asked == WaitAction::Done(transcript),
        call_ensures(terminal_message, (transcript,), told),
    ensures
        !(asked is Done) && !(asked is Fail) ==> after.phase == WorkPhase::Waiting
            && after@.wait == Some(wait_after@) && (action matches MessageAction::Wait(same) && (
        asked is FetchEvents || asked is TriggerTyping || asked is Sleep || asked is Connect || asked
            is Delay || asked is ListSessions || asked is ReadTranscript ==> same == asked) && (
        asked matches WaitAction::SendMessage(words) ==> (same matches WaitAction::SendMessage(
            sent,
        ) && sent@ == words@))),
        asked is Done && (told matches Ok(Some(words))) ==> (action matches MessageAction::Reply(
            said,
        ) && said@ == told->Ok_0->0@) && after.phase == (WorkPhase::Replying {
            status: transcript.status,
        }),
        asked is Done && (told matches Ok(None)) ==> action is Show && after.phase
            == WorkPhase::Closing && after.failure is None,
        asked is Done && told is Err ==> action == MessageAction::Show(
            PresentationEffect::RemoveReaction(Emoji::Eyes),
        ) && after.failure is Some,
        asked is Fail ==> action == MessageAction::Show(
            PresentationEffect::RemoveReaction(Emoji::Eyes),
        ) && after.failure is Some && after.phase == WorkPhase::Closing,
{
    assert(after@.phase == after.phase && after@.failure == after.failure);
    assert(before@.wait == Some(wait_before@));
}

/// The success of a reply shows how the run ended, and the work ends well after that.
pub proof fn a_reply_is_followed_by_the_end(
    before: MessageWork,
    after: MessageWork,
    action: MessageAction,
)
    requires
        before.phase is Replying,
        exists|x: &mut MessageWork|
            *x == before && *final(x) == after && #[trigger] call_ensures(
                MessageWork::step,
                (x, MessageObservation::Replied),
                action,
            ),
    ensures
        after.failure is None,
        after.phase == WorkPhase::Closing || action == MessageAction::Done(Ok::<(), AppError>(())),
        action matches MessageAction::Done(result) ==> result is Ok,
        after.presentation.next_typing_at is None,
        before.phase == (WorkPhase::Replying { status: RunStateName::Finished }) ==> action
            == MessageAction::Show(PresentationEffect::RemoveReaction(Emoji::Eyes)),
{
    assert(after@.phase == after.phase && after@.failure == after.failure);
    assert(after@.presentation == after.presentation);
}

/// The three signs are told apart by what is shown.
pub proof fn the_signs_differ(eyes: &'static str, success: &'static str, failure: &'static str)
    requires
        call_ensures(Emoji::as_str, (Emoji::Eyes,), eyes),
        call_ensures(Emoji::as_str, (Emoji::Success,), success),
        call_ensures(Emoji::as_str, (Emoji::Failure,), failure),
    ensures
        eyes@ == "\u{1F440}"@ && success@ == "\u{2705}"@ && failure@ == "\u{274C}"@,
{
}

/// The parts of a text are posted one after the other: each that was posted is followed by the
/// next, and the last by the end. A part is not posted while the service wants no request at all,
/// and one that fails ends the sending.
pub proof fn parts_are_posted_in_order(
    before: MessageSend,
    after: MessageSend,
    client_before: DiscordRestClient,
    client_after: DiscordRestClient,
    answer: Result<(), RestFailure>,
    now: u128,
    action: SendAction,
)
    requires
        before.sent < before.parts@.len(),
        exists|x: &mut MessageSend, y: &mut DiscordRestClient|
            *x == before && *final(x) == after && *y == client_before && *final(y) == client_after
                && #[trigger] call_ensures(MessageSend::step, (x, y, answer, now), action),
    ensures
        after.parts == before.parts,
        answer is Err ==> action is Fail && after.sent == before.sent,
        answer is Ok ==> after.sent == before.sent + 1 && client_after == client_before,
        answer is Ok ==> (action is Done <==> after.sent == before.parts@.len()),
        action is Post ==> action == SendAction::Post(before.parts@[before.sent + 1]) && is_past(
            client_before.rate_limits.global_not_before,
            now,
        ),
        answer is Ok && after.sent < before.parts@.len() ==> (action is Post <==> is_past(
            client_before.rate_limits.global_not_before,
            now,
        )),
{
}

/// Something is shown only while neither limit of the service keeps it back; else it is left out,
/// which is no failure.
pub proof fn an_effect_waits_for_no_limit(
    client: &DiscordRestClient,
    effect: PresentationEffect,
    now: u128,
    result: (EffectWork, EffectAction),
)
    requires
        call_ensures(EffectWork::start, (client, effect, now), result),
    ensures
        result.0.effect == effect,
        result.1 is Request <==> is_past(client.rate_limits.global_not_before, now) && is_past(
            client.rate_limits.presentation_not_before,
            now,
        ),
        !(result.1 is Request) ==> result.1 == EffectAction::Done(Ok::<(), AppError>(())),
{
}

/// What was shown is done. A failure is passed on, but for the sign that ends the work: where the
/// service names a time for that, it is waited for once, for two seconds at most.
pub proof fn only_the_last_sign_is_tried_again(
    before: EffectWork,
    after: EffectWork,
    client_before: DiscordRestClient,
    client_after: DiscordRestClient,
    answer: Result<(), RestFailure>,
    now: u128,
    action: EffectAction,
)
    requires
        before.phase == EffectPhase::Requested || before.phase == EffectPhase::Retried,
        exists|x: &mut EffectWork, y: &mut DiscordRestClient|
            *x == before && *final(x) == after && *y == client_before && *final(y) == client_after
                && #[trigger] call_ensures(
                EffectWork::step,
                (x, y, EffectObservation::Answered { answer, now }),
                action,
            ),
    ensures
        after.effect == before.effect,
        answer is Ok <==> action == EffectAction::Done(Ok::<(), AppError>(())),
        action is Sleep ==> before.phase == EffectPhase::Requested && before.effect
            is AddTerminalReaction && (answer matches Err(RestFailure::TooManyRequests(asked)) && (
        asked.header_retry_after is Some || asked.body_retry_after is Some)),
        action matches EffectAction::Sleep(wait) ==> wait <= 2_000_000_000,
        action is Sleep || after.phase == EffectPhase::Ended,
        action !is Request,
        answer is Ok ==> client_after == client_before,
        client_after.token == client_before.token && client_after.api_base
            == client_before.api_base,
{
}

/// After the wait the sign is asked for once more, unless a limit has come up meanwhile.
pub proof fn a_wait_is_followed_by_the_last_try(
    before: EffectWork,
    after: EffectWork,
    client_before: DiscordRestClient,
    client_after: DiscordRestClient,
    now: u128,
    action: EffectAction,
)
    requires
        before.phase == EffectPhase::Sleeping,
        exists|x: &mut EffectWork, y: &mut DiscordRestClient|
            *x == before && *final(x) == after && *y == client_before && *final(y) == client_after
                && #[trigger] call_ensures(
                EffectWork::step,
                (x, y, EffectObservation::Slept { now }),
                action,
            ),
    ensures
        after.effect == before.effect && client_after == client_before,
        action is Request <==> is_past(client_before.rate_limits.global_not_before, now) && is_past(
            client_before.rate_limits.presentation_not_before,
            now,
        ),
        action is Request ==> after.phase == EffectPhase::Retried,
        !(action is Request) ==> action == EffectAction::Done(Ok::<(), AppError>(())),
{
}

/// A command is answered at the place of its own interaction: first the service is told that the
/// answer comes, for the owner's eyes alone.
pub proof fn a_command_is_deferred_first(
    handler: &DiscordCommandHandler,
    request: CommandRequest,
    result: (CommandWork, CommandAction),
)
    requires
        call_ensures(CommandWork::start, (handler, request), result),
    ensures
        result.0.request == request,
        result.1 matches CommandAction::Defer { url, kind, flags } && kind == 5 && flags == 64
            && url@ == handler.api_base@ + "/interactions/"@ + text::decimal(
            request.interaction_id as nat,
        ) + "/"@ + request.token@ + "/callback"@,
{
}

/// A command of which the service knows is carried out: a question for the status asks the daemon,
/// and changes nothing; the others are answered at once, as the handler answers them, and only a
/// model that cannot be is an error.
pub proof fn a_deferred_command_is_carried_out(
    before: CommandWork,
    after: CommandWork,
    handler_before: DiscordCommandHandler,
    handler_after: DiscordCommandHandler,
    action: CommandAction,
)
    requires
        before.phase == CommandPhase::Deferring,
        exists|x: &mut CommandWork, y: &mut DiscordCommandHandler|
            *x == before && *final(x) == after && *y == handler_before && *final(y)
                == handler_after && #[trigger] call_ensures(
                CommandWork::step,
                (x, y, CommandObservation::Answered(Ok(()))),
                action,
            ),
    ensures
        after.request == before.request,
        action is GreetDaemon <==> before.request.command is Status,
        action is GreetDaemon ==> handler_after == handler_before && action
            == (CommandAction::GreetDaemon { timeout: 2_000_000_000 }),
        before.request.command is Reasoning ==> action is Edit,
        before.request.command is Model ==> action is Edit || (action matches CommandAction::Done(
            Err(_),
        )),
        action matches CommandAction::Edit { url, .. } ==> after.phase == CommandPhase::Editing
            && url@ == handler_before.api_base@ + "/webhooks/"@ + text::decimal(
            handler_before.application_id as nat,
        ) + "/"@ + before.request.token@ + "/messages/@original"@,
{
}

/// The status is told as the handler tells it: with the daemon's own report where the daemon can do
/// what is needed and says how it is, and as unknown otherwise.
pub proof fn a_status_is_told_as_reported(
    before: CommandWork,
    after: CommandWork,
    handler_before: DiscordCommandHandler,
    handler_after: DiscordCommandHandler,
    hello: HelloResult,
    sessions: Option<Vec<SessionSummary>>,
    report: Option<DaemonStatus>,
    content: String,
    action: CommandAction,
)
    requires
        before.phase == CommandPhase::ListingSessions(hello),
        sessions is None ==> report is None,
        sessions is Some ==> exists|read: Result<DaemonStatus, AppError>| #[trigger]
            call_ensures(daemon_status, (&hello, &sessions->0), read) && report == (match read {
                Ok(status) => Some(status),
                Err(_) => None,
            }),
        call_ensures(
            DiscordCommandHandler::status_content,
            (&handler_before, before.request.channel_id, &report),
            content,
        ),
        exists|x: &mut CommandWork, y: &mut DiscordCommandHandler|
            *x == before && *final(x) == after && *y == handler_before && *final(y)
                == handler_after && #[trigger] call_ensures(
                CommandWork::step,
                (x, y, CommandObservation::Sessions(sessions)),
                action,
            ),
    ensures
        handler_after == handler_before,
        action matches CommandAction::Edit { content: told, .. } && told@ == content@,
{
}

/// Only a daemon that can do what is needed is asked for its sessions.
pub proof fn only_an_able_daemon_is_asked(
    before: CommandWork,
    after: CommandWork,
    handler_before: DiscordCommandHandler,
    handler_after: DiscordCommandHandler,
    hello: Option<HelloResult>,
    able: Result<(), AppError>,
    action: CommandAction,
)
    requires
        before.phase == CommandPhase::GreetingDaemon,
        hello is Some ==> call_ensures(require_capabilities, (&hello->0,), able),
        exists|x: &mut CommandWork, y: &mut DiscordCommandHandler|
            *x == before && *final(x) == after && *y == handler_before && *final(y)
                == handler_after && #[trigger] call_ensures(
                CommandWork::step,
                (x, y, CommandObservation::Greeted(hello)),
                action,
            ),
    ensures
        handler_after == handler_before,
        action is ListSessions <==> hello is Some && able is Ok,
        action is ListSessions ==> after.phase == CommandPhase::ListingSessions(hello->0),
        !(action is ListSessions) ==> action is Edit,
{
}

/// Whether a daemon says that it can do something.
pub open spec fn can(hello: HelloResult, what: Seq<char>) -> bool {
    exists|i: int| 0 <= i < hello.capabilities@.len() && (#[trigger] hello.capabilities@[i])@ == what
}

/// A daemon is able where it says that it can do each of the six things that a channel needs.
pub proof fn a_daemon_must_say_what_it_can_do(hello: &HelloResult, able: Result<(), AppError>)
    requires
        call_ensures(require_capabilities, (hello,), able),
    ensures
        able is Ok <==> can(*hello, "hello"@) && can(*hello, "run.start"@) && can(
            *hello,
            "message.append"@,
        ) && can(*hello, "events.stream"@) && can(*hello, "sessions.list"@) && can(
            *hello,
            "transcript.read"@,
        ),
        able matches Err(error) ==> error is DaemonProtocol,
{
    let needed = gateway::required_capabilities();
    assert(needed[0] == "hello"@ && needed[1] == "run.start"@ && needed[2] == "message.append"@
        && needed[3] == "events.stream"@ && needed[4] == "sessions.list"@ && needed[5]
        == "transcript.read"@);
    assert(forall|what: Seq<char>| can(*hello, what) == #[trigger] gateway::advertises(
        *hello,
        what,
    ));
    if gateway::capable(*hello) {
        assert(gateway::advertises(*hello, needed[0]) && gateway::advertises(*hello, needed[1])
            && gateway::advertises(*hello, needed[2]) && gateway::advertises(*hello, needed[3])
            && gateway::advertises(*hello, needed[4]) && gateway::advertises(*hello, needed[5]));
    }
}

/// An answer that was brought ends the work well; a request that failed ends it with an error, and
/// changes no setting.
pub proof fn a_failed_request_ends_the_command(
    before: CommandWork,
    after: CommandWork,
    handler_before: DiscordCommandHandler,
    handler_after: DiscordCommandHandler,
    answer: Result<(), RestFailure>,
    action: CommandAction,
)
    requires
        before.phase == CommandPhase::Editing || before.phase == CommandPhase::Deferring
            && answer is Err,
        exists|x: &mut CommandWork, y: &mut DiscordCommandHandler|
            *x == before && *final(x) == after && *y == handler_before && *final(y)
                == handler_after && #[trigger] call_ensures(
                CommandWork::step,
                (x, y, CommandObservation::Answered(answer)),
                action,
            ),
    ensures
        handler_after == handler_before,
        after.phase == CommandPhase::Ended,
        action matches CommandAction::Done(result) && (result is Ok <==> answer is Ok),
{
}

} // verus!
