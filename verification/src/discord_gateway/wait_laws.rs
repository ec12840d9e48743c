//! What holds of every wait for a run, and of the approvals that a channel is told of meanwhile.

use crate::daemon::protocol::{RunStateName, SessionSummary, TranscriptReadResult};
use crate::discord_gateway::approvals::{
    self, approval_notification, event_facts, truncate_chars, ApprovalNotifications, EventFacts,
    NotificationsView,
};
use crate::discord_gateway::gateway::reconnectable;
use crate::discord_gateway::presentation::MessagePresentation;
use crate::discord_gateway::run_wait::{
    self, EventPage, ReconnectPurpose, RunWait, WaitAction, WaitObservation, WaitPhase,
};
use crate::error::AppError;
use crate::json;
use vstd::prelude::*;

verus! {

/// A text that fits is kept. One that does not is cut to the limit: it ends in dots, three of them
/// where there is room, and the rest is how it starts.
pub proof fn a_long_text_is_cut(value: &str, limit: usize, result: String)
    requires
        call_ensures(truncate_chars, (value, limit), result),
    ensures
        value@.len() <= limit ==> result@ == value@,
        value@.len() > limit ==> {
            &&& result@.len() == limit
            &&& forall|i: int| 0 <= i < limit - 3 ==> #[trigger] result@[i] == value@[i]
            &&& forall|i: int| 0 <= i < limit && limit - 3 <= i ==> #[trigger] result@[i] == '.'
        },
{
    reveal_strlit("...");
}

/// A notification that has room for everything holds the tool, the effect and the preview as they
/// are, and says where to decide.
pub proof fn a_short_notification_is_whole(
    tool_name: &str,
    effect: &str,
    preview: &str,
    message: String,
)
    requires
        call_ensures(approval_notification, (tool_name, effect, preview), message),
        tool_name@.len() <= 80,
        effect@.len() <= 80,
        preview@.len() <= 1_700,
    ensures
        message@ == "Approval required: `"@ + tool_name@ + "` ("@ + effect@ + ")\nPreview:\n"@
            + preview@ + "\nGrant or deny it locally in `plato-tui`."@,
{
    reveal_strlit("Approval required: `");
    reveal_strlit("` (");
    reveal_strlit(")\nPreview:\n");
    reveal_strlit("\nGrant or deny it locally in `plato-tui`.");
}

/// A notification fits into one message, and says where to decide, whatever it tells.
pub proof fn every_notification_fits(
    tool_name: &str,
    effect: &str,
    preview: &str,
    message: String,
)
    requires
        call_ensures(approval_notification, (tool_name, effect, preview), message),
    ensures
        message@.len() <= 2_000,
        message@.len() >= 41,
        message@.skip(message@.len() - 41) == "\nGrant or deny it locally in `plato-tui`."@,
        preview@.len() >= 2_000 ==> message@.len() == 2_000,
{
    approvals::a_notification_fits_one_message(tool_name@, effect@, preview@);
    reveal_strlit("\nGrant or deny it locally in `plato-tui`.");
    reveal_strlit("...");
    reveal_strlit("Approval required: `");
    reveal_strlit("` (");
    reveal_strlit(")\nPreview:\n");
    approvals::truncated_fits(tool_name@, 80);
    approvals::truncated_fits(effect@, 80);
    assert(message@.skip(message@.len() - 41) =~= "\nGrant or deny it locally in `plato-tui`."@);
}

/// Whether a value is the string that stands in an entry, or is missing with it.
pub open spec fn is_string_at(value: Option<String>, entry: Seq<char>, place: Seq<char>) -> bool {
    match (value, json::string_in(json::json_at(entry, place))) {
        (Some(found), Some(stands)) => found@ == stands,
        (None, None) => true,
        _ => false,
    }
}

/// The facts of an event are read where they stand: of an entry with an event in it, in that event.
pub proof fn facts_are_read_where_they_stand(entry: &str, facts: EventFacts)
    requires
        call_ensures(event_facts, (entry,), facts),
        !(json::json_at(entry@, "/event"@) is Missing),
    ensures
        is_string_at(facts.kind, entry@, "/event/kind"@),
        is_string_at(facts.ledger_event, entry@, "/event/record/event/event"@),
        is_string_at(facts.proposed_call, entry@, "/event/record/event/call/id"@),
        is_string_at(facts.decided_call, entry@, "/event/record/event/call_id"@),
        is_string_at(facts.tool_call_id, entry@, "/event/tool_call_id"@),
        is_string_at(facts.tool_name, entry@, "/event/tool_name"@),
        is_string_at(facts.effect, entry@, "/event/effect"@),
        is_string_at(facts.diff_preview, entry@, "/event/diff_preview"@),
        is_string_at(facts.approval_preview, entry@, "/event/approval_preview"@),
{
    reveal_strlit("/event");
    reveal_strlit("/kind");
    reveal_strlit("/event/kind");
    reveal_strlit("/record/event/event");
    reveal_strlit("/event/record/event/event");
    reveal_strlit("/record/event/call/id");
    reveal_strlit("/event/record/event/call/id");
    reveal_strlit("/record/event/call_id");
    reveal_strlit("/event/record/event/call_id");
    reveal_strlit("/tool_call_id");
    reveal_strlit("/event/tool_call_id");
    reveal_strlit("/tool_name");
    reveal_strlit("/event/tool_name");
    reveal_strlit("/effect");
    reveal_strlit("/event/effect");
    reveal_strlit("/diff_preview");
    reveal_strlit("/event/diff_preview");
    reveal_strlit("/approval_preview");
    reveal_strlit("/event/approval_preview");
    assert("/event"@ + "/kind"@ =~= "/event/kind"@);
    assert("/event"@ + "/record/event/event"@ =~= "/event/record/event/event"@);
    assert("/event"@ + "/record/event/call/id"@ =~= "/event/record/event/call/id"@);
    assert("/event"@ + "/record/event/call_id"@ =~= "/event/record/event/call_id"@);
    assert("/event"@ + "/tool_call_id"@ =~= "/event/tool_call_id"@);
    assert("/event"@ + "/tool_name"@ =~= "/event/tool_name"@);
    assert("/event"@ + "/effect"@ =~= "/event/effect"@);
    assert("/event"@ + "/diff_preview"@ =~= "/event/diff_preview"@);
    assert("/event"@ + "/approval_preview"@ =~= "/event/approval_preview"@);
    assert(facts@ == approvals::facts_in(entry@));
    assert(facts@.kind == approvals::event_string(entry@, "/kind"@));
    assert(facts@.effect == approvals::event_string(entry@, "/effect"@));
}

/// Whether a value is these words.
pub open spec fn is_said(value: Option<String>, words: Seq<char>) -> bool {
    value is Some && value->0@ == words
}

/// A request for an approval becomes the pending one, and the owner has not been told of it. Its
/// preview is the difference that the call would make, or else its own preview; an empty one is
/// none. What the calls were proposed with stays known.
pub proof fn a_request_becomes_the_pending_one(
    before: ApprovalNotifications,
    after: ApprovalNotifications,
    event: EventFacts,
    canceled: bool,
)
    requires
        is_said(event.kind, "approval_requested"@),
        exists|x: &mut ApprovalNotifications|
            *x == before && *final(x) == after && #[trigger] call_ensures(
                ApprovalNotifications::observe,
                (x, event),
                canceled,
            ),
    ensures
        !canceled,
        after@.previews == before@.previews,
        event.tool_call_id is None ==> after@.pending == before@.pending,
        event.tool_call_id matches Some(call_id) ==> {
            &&& after@.pending is Some
            &&& after@.pending->0.call_id == call_id@
            &&& !after@.pending->0.notified
            &&& event.tool_name matches Some(name) ==> after@.pending->0.tool_name == name@
            &&& event.tool_name is None ==> after@.pending->0.tool_name == "unknown tool"@
            &&& event.effect matches Some(effect) ==> after@.pending->0.effect == effect@
            &&& event.effect is None ==> after@.pending->0.effect == "unknown effect"@
            &&& event.diff_preview is Some && event.diff_preview->0@.len() > 0 ==> (
            after@.pending->0.preview == Some(event.diff_preview->0@))
            &&& (event.diff_preview is None || event.diff_preview->0@.len() == 0)
                && event.approval_preview is Some && event.approval_preview->0@.len() > 0 ==> (
            after@.pending->0.preview == Some(event.approval_preview->0@))
            &&& (event.diff_preview is None || event.diff_preview->0@.len() == 0) && (
            event.approval_preview is None || event.approval_preview->0@.len() == 0) ==> (
            after@.pending->0.preview is None)
        },
{
    reveal_strlit("approval_requested");
    reveal_strlit("canceled");
    assert("approval_requested"@.len() != "canceled"@.len());
}

/// A cancellation leaves nothing of what was seen, and only it is reported as one.
pub proof fn only_a_cancellation_cancels(
    before: ApprovalNotifications,
    after: ApprovalNotifications,
    event: EventFacts,
    canceled: bool,
)
    requires
        exists|x: &mut ApprovalNotifications|
            *x == before && *final(x) == after && #[trigger] call_ensures(
                ApprovalNotifications::observe,
                (x, event),
                canceled,
            ),
    ensures
        canceled <==> is_said(event.kind, "canceled"@),
        canceled ==> after@.pending is None && forall|call_id: Seq<char>|
            !#[trigger] after@.previews.dom().contains(call_id),
{
}

/// The input of a proposed call is known from then on, until the call is decided on; the decision
/// ends the request about that call and leaves any other.
pub proof fn a_call_is_known_until_it_is_decided_on(
    before: ApprovalNotifications,
    after: ApprovalNotifications,
    event: EventFacts,
    canceled: bool,
    call_id: Seq<char>,
)
    requires
        is_said(event.kind, "ledger"@),
        exists|x: &mut ApprovalNotifications|
            *x == before && *final(x) == after && #[trigger] call_ensures(
                ApprovalNotifications::observe,
                (x, event),
                canceled,
            ),
    ensures
        is_said(event.ledger_event, "tool_call_proposed"@) && is_said(event.proposed_call, call_id)
            && event.proposed_input is Some ==> {
            &&& after@.pending == before@.pending
            &&& after@.previews.dom().contains(call_id)
            &&& after@.previews[call_id] == event.proposed_input->0@
        },
        (is_said(event.ledger_event, "approval_granted"@) || is_said(
            event.ledger_event,
            "approval_denied"@,
        )) && is_said(event.decided_call, call_id) ==> {
            &&& !after@.previews.dom().contains(call_id)
            &&& before@.pending is Some && before@.pending->0.call_id == call_id
                ==> after@.pending is None
            &&& before@.pending is Some && before@.pending->0.call_id != call_id ==> (after@.pending
                == before@.pending)
        },
{
    reveal_strlit("ledger");
    reveal_strlit("canceled");
    reveal_strlit("approval_requested");
    reveal_strlit("tool_call_proposed");
    reveal_strlit("approval_granted");
    reveal_strlit("approval_denied");
    assert("ledger"@.len() == 6 && "canceled"@.len() == 8 && "approval_requested"@.len() == 18);
    assert("tool_call_proposed"@.len() == 18 && "approval_granted"@.len() == 16
        && "approval_denied"@.len() == 15);
}

/// What there is to show of a pending approval.
pub open spec fn has_something_to_show(seen: NotificationsView, preview: Seq<char>) -> bool {
    &&& seen.pending is Some
    &&& seen.pending->0.preview == Some(preview) || (seen.pending->0.preview is None
        && seen.previews.dom().contains(seen.pending->0.call_id)
        && seen.previews[seen.pending->0.call_id] == preview)
}

/// The owner is told of a pending approval exactly where there is something to show of it and they
/// have not been told: in the words of a notification, and then not again.
pub proof fn the_owner_is_told_of_what_is_pending(
    before: ApprovalNotifications,
    after: ApprovalNotifications,
    result: Option<String>,
    tool_name: &str,
    effect: &str,
    preview: &str,
    message: String,
)
    requires
        exists|x: &mut ApprovalNotifications|
            *x == before && *final(x) == after && #[trigger] call_ensures(
                ApprovalNotifications::take_notification,
                (x,),
                result,
            ),
        call_ensures(approval_notification, (tool_name, effect, preview), message),
    ensures
        before@.pending is None ==> result is None,
        before@.pending is Some && before@.pending->0.notified ==> result is None,
        before@.pending is Some && !before@.pending->0.notified && before@.pending->0.tool_name
            == tool_name@ && before@.pending->0.effect == effect@ && has_something_to_show(
            before@,
            preview@,
        ) ==> result is Some && result->0@ == message@,
        result is Some ==> after@.pending is Some && after@.pending->0.notified
            && after@.pending->0.call_id == before@.pending->0.call_id,
        result is None ==> after@ == before@,
        after@.previews == before@.previews,
{
}

/// Whether more events wait behind a page.
pub open spec fn is_full(page: EventPage) -> bool {
    page.entries@.len() == 64 && page.next_offset > page.from_offset
}

/// Behind a full page the next one is asked for at once, from where it ended and of the same run.
/// Behind another one the transcript of a run that has ended is read.
pub proof fn a_page_is_followed_up(
    before: RunWait,
    after: RunWait,
    page: EventPage,
    now: u128,
    action: WaitAction,
)
    requires
        before.phase is Fetching,
        exists|x: &mut RunWait|
            *x == before && *final(x) == after && #[trigger] call_ensures(
                RunWait::step,
                (x, WaitObservation::Events { page, now }),
                action,
            ),
    ensures
        after.run_id == before.run_id,
        after.next_offset == Some(page.next_offset),
        is_full(page) ==> action == (WaitAction::FetchEvents {
            run_id: before.run_id,
            from_offset: Some(page.next_offset),
        }),
        action is ReadTranscript <==> !is_full(page) && page.status != RunStateName::Running
            && page.status != RunStateName::CancelRequested,
        action is ReadTranscript ==> action == (WaitAction::ReadTranscript {
            run_id: before.run_id,
        }) && after@.approvals.pending is None && after.phase == (WaitPhase::Reading {
            retried: false,
        }),
        action is TriggerTyping ==> page.status == RunStateName::Running && !after.canceling
            && after@.approvals.pending is None,
        action is Sleep ==> page.entries@.len() == 0,
        page.status == RunStateName::CancelRequested && !is_full(page) ==> after.canceling
            && after.presentation.next_typing_at is None,
        before.canceling && !(action is ReadTranscript) ==> after.canceling,
        !(action is Done) && !(action is Fail) && !(action is Connect),
{
    assert(after@.run_id == after.run_id && after@.next_offset == after.next_offset);
    assert(after@.canceling == after.canceling && after@.presentation == after.presentation);
    assert(after@.phase == after.phase);
}

/// What was read back of the run ends the wait as it is.
pub proof fn a_transcript_ends_the_wait(
    before: RunWait,
    after: RunWait,
    transcript: TranscriptReadResult,
    action: WaitAction,
)
    requires
        before.phase is Reading,
        exists|x: &mut RunWait|
            *x == before && *final(x) == after && #[trigger] call_ensures(
                RunWait::step,
                (x, WaitObservation::Transcript(transcript)),
                action,
            ),
    ensures
        action == WaitAction::Done(transcript),
        after.phase is Ended,
{
    assert(after@.phase == after.phase);
}

/// Where events were missed the wait starts over with its run; where the connection broke it is
/// made anew, in up to forty attempts; any other error ends the wait.
pub proof fn a_lost_stream_is_found_again(
    before: RunWait,
    after: RunWait,
    error: AppError,
    broken: bool,
    action: WaitAction,
)
    requires
        before.phase is Fetching,
        call_ensures(reconnectable, (&error,), broken),
        exists|x: &mut RunWait|
            *x == before && *final(x) == after && #[trigger] call_ensures(
                RunWait::step,
                (x, WaitObservation::EventsFailed(error)),
                action,
            ),
    ensures
        after.run_id == before.run_id,
        (error matches AppError::DaemonResponse(answer) && answer.code@ == "lagged"@) ==> {
            &&& action == (WaitAction::FetchEvents { run_id: before.run_id, from_offset: None })
            &&& after.phase is Fetching
            &&& after.next_offset is None
            &&& after@.approvals.pending is None
            &&& !after.canceling
        },
        broken ==> action is Connect && after.phase == (WaitPhase::Connecting {
            left: 40,
            purpose: ReconnectPurpose::Status,
        }),
        !broken && !(error matches AppError::DaemonResponse(answer) && answer.code@ == "lagged"@)
            ==> action == WaitAction::Fail(error) && after.phase is Ended,
{
    reveal_strlit("lagged");
    reveal_strlit("not_found");
    assert("lagged"@.len() != "not_found"@.len());
    assert(after@.run_id == after.run_id && after@.next_offset == after.next_offset);
    assert(after@.canceling == after.canceling && after@.phase == after.phase);
}

/// A transcript is tried twice at most: after the first failure over a new connection, if that may
/// help; after the second one the wait ends with the error.
pub proof fn a_transcript_is_tried_twice(
    before: RunWait,
    after: RunWait,
    error: AppError,
    broken: bool,
    action: WaitAction,
)
    requires
        before.phase is Reading,
        call_ensures(reconnectable, (&error,), broken),
        exists|x: &mut RunWait|
            *x == before && *final(x) == after && #[trigger] call_ensures(
                RunWait::step,
                (x, WaitObservation::TranscriptFailed(error)),
                action,
            ),
    ensures
        before.phase == (WaitPhase::Reading { retried: true }) || !broken ==> action
            == WaitAction::Fail(error) && after.phase is Ended,
        before.phase == (WaitPhase::Reading { retried: false }) && broken ==> action is Connect
            && after.phase == (WaitPhase::Connecting {
            left: 40,
            purpose: ReconnectPurpose::Transcript,
        }),
{
    assert(after@.phase == after.phase);
}

/// A new connection is used for what it was made for: to see where the run stands, with nothing seen
/// of it, or to read its transcript.
pub proof fn a_connection_is_made_for_its_purpose(
    before: RunWait,
    after: RunWait,
    left: u32,
    purpose: ReconnectPurpose,
    action: WaitAction,
)
    requires
        before.phase == (WaitPhase::Connecting { left, purpose }),
        exists|x: &mut RunWait|
            *x == before && *final(x) == after && #[trigger] call_ensures(
                RunWait::step,
                (x, WaitObservation::Connected),
                action,
            ),
    ensures
        purpose == ReconnectPurpose::Status ==> action is ListSessions && after.phase is Listing
            && after@.approvals.pending is None && !after.canceling,
        purpose == ReconnectPurpose::Transcript ==> action == (WaitAction::ReadTranscript {
            run_id: before.run_id,
        }) && after.phase == (WaitPhase::Reading { retried: true }),
        after.run_id == before.run_id,
{
    assert(after@.run_id == after.run_id && after@.canceling == after.canceling);
    assert(after@.phase == after.phase);
}

/// A failed attempt to connect is followed by a pause where another may help, with one attempt less
/// left, and else ends the wait with its error.
pub proof fn a_failed_attempt_counts(
    before: RunWait,
    after: RunWait,
    left: u32,
    purpose: ReconnectPurpose,
    error: AppError,
    broken: bool,
    action: WaitAction,
)
    requires
        before.phase == (WaitPhase::Connecting { left, purpose }),
        left > 0,
        call_ensures(reconnectable, (&error,), broken),
        exists|x: &mut RunWait|
            *x == before && *final(x) == after && #[trigger] call_ensures(
                RunWait::step,
                (x, WaitObservation::ConnectFailed(error)),
                action,
            ),
    ensures
        broken ==> action is Delay && (after.phase matches WaitPhase::Delaying {
            left: fewer,
            purpose: same,
        } && fewer == left - 1 && same == purpose),
        !broken ==> action == WaitAction::Fail(error) && after.phase is Ended,
{
    assert(after@.phase == after.phase);
}

/// After the pause another attempt is made for the same purpose while some are left; then the
/// daemon counts as gone.
pub proof fn attempts_end(
    before: RunWait,
    after: RunWait,
    left: u32,
    purpose: ReconnectPurpose,
    action: WaitAction,
)
    requires
        before.phase == (WaitPhase::Delaying { left, purpose }),
        exists|x: &mut RunWait|
            *x == before && *final(x) == after && #[trigger] call_ensures(
                RunWait::step,
                (x, WaitObservation::Delayed),
                action,
            ),
    ensures
        left > 0 ==> action is Connect && after.phase == (WaitPhase::Connecting { left, purpose }),
        left == 0 ==> (action matches WaitAction::Fail(AppError::DaemonProtocol(message))
            && message@ == "daemon unavailable during gateway recovery"@),
{
    assert(after@.phase == after.phase);
}

proof fn the_first_of_its_run_counts(sessions: Seq<SessionSummary>, run_id: Seq<char>, at: int)
    requires
        0 <= at < sessions.len(),
        sessions[at].run_id@ == run_id,
        forall|i: int| 0 <= i < at ==> (#[trigger] sessions[i]).run_id@ != run_id,
    ensures
        run_wait::status_of(sessions, run_id) == Some(sessions[at].status),
    decreases at,
{
    if at > 0 {
        assert(sessions[0].run_id@ != run_id);
        assert forall|i: int| 0 <= i < at - 1 implies (
        #[trigger] sessions.drop_first()[i]).run_id@ != run_id by {
            assert(sessions.drop_first()[i] == sessions[i + 1]);
        }
        the_first_of_its_run_counts(sessions.drop_first(), run_id, at - 1);
    }
}

proof fn an_unknown_run_has_no_state(sessions: Seq<SessionSummary>, run_id: Seq<char>)
    requires
        forall|i: int| 0 <= i < sessions.len() ==> (#[trigger] sessions[i]).run_id@ != run_id,
    ensures
        run_wait::status_of(sessions, run_id) is None,
    decreases sessions.len(),
{
    if sessions.len() > 0 {
        assert(sessions[0].run_id@ != run_id);
        assert forall|i: int| 0 <= i < sessions.drop_first().len() implies (
        #[trigger] sessions.drop_first()[i]).run_id@ != run_id by {
            assert(sessions.drop_first()[i] == sessions[i + 1]);
        }
        an_unknown_run_has_no_state(sessions.drop_first(), run_id);
    }
}

/// After a new connection the first session of the run counts: one that goes on is followed again
/// from its start, and the transcript of any other is read.
pub proof fn a_listed_run_is_followed(
    before: RunWait,
    after: RunWait,
    sessions: Vec<SessionSummary>,
    at: int,
    action: WaitAction,
)
    requires
        before.phase is Listing,
        0 <= at < sessions@.len(),
        sessions@[at].run_id@ == before.run_id@,
        forall|i: int| 0 <= i < at ==> (#[trigger] sessions@[i]).run_id@ != before.run_id@,
        exists|x: &mut RunWait|
            *x == before && *final(x) == after && #[trigger] call_ensures(
                RunWait::step,
                (x, WaitObservation::Sessions(sessions)),
                action,
            ),
    ensures
        sessions@[at].status == RunStateName::Running || sessions@[at].status
            == RunStateName::CancelRequested ==> action == (WaitAction::FetchEvents {
            run_id: before.run_id,
            from_offset: None,
        }),
        sessions@[at].status != RunStateName::Running && sessions@[at].status
            != RunStateName::CancelRequested ==> action == (WaitAction::ReadTranscript {
            run_id: before.run_id,
        }),
{
    the_first_of_its_run_counts(sessions@, before.run_id@, at);
}

/// The transcript of a run that is not listed is read.
pub proof fn an_unlisted_run_is_read_back(
    before: RunWait,
    after: RunWait,
    sessions: Vec<SessionSummary>,
    action: WaitAction,
)
    requires
        before.phase is Listing,
        forall|i: int|
            0 <= i < sessions@.len() ==> (#[trigger] sessions@[i]).run_id@ != before.run_id@,
        exists|x: &mut RunWait|
            *x == before && *final(x) == after && #[trigger] call_ensures(
                RunWait::step,
                (x, WaitObservation::Sessions(sessions)),
                action,
            ),
    ensures
        action == (WaitAction::ReadTranscript { run_id: before.run_id }),
{
    an_unknown_run_has_no_state(sessions@, before.run_id@);
}

/// A wait starts with the first event of its run, with nothing seen of it.
pub proof fn a_wait_starts_at_the_start(
    run_id: String,
    presentation: MessagePresentation,
    result: (RunWait, WaitAction),
)
    requires
        call_ensures(RunWait::start, (run_id, presentation), result),
    ensures
        result.1 == (WaitAction::FetchEvents { run_id, from_offset: Some(0u64) }),
        result.0.run_id == run_id,
        result.0.phase is Fetching,
        result.0.presentation == presentation,
        result.0@.approvals.pending is None,
        !result.0.canceling,
{
    assert(result.0@.run_id == result.0.run_id && result.0@.phase == result.0.phase);
    assert(result.0@.presentation == result.0.presentation);
    assert(result.0@.canceling == result.0.canceling);
}

} // verus!
