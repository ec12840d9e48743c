//! What holds of the events that a run keeps for its readers, and of what the daemon remembers of a
//! session.

use crate::app::session::ApprovalRequest;
use crate::daemon::events::EventBuffer;
use crate::daemon::protocol::{BufferedStreamEvent, PendingApprovalSnapshot, StreamEvent};
use crate::daemon::runtime::{self, approval_requested_event, DaemonRuntime, PendingApproval};
use vstd::prelude::*;

verus! {

/// A pushed event is the latest, at the next place. The others stay in their order and at their
/// places; only where two hundred and fifty-six are kept already does the oldest go.
pub proof fn a_pushed_event_is_the_latest(
    before: EventBuffer,
    after: EventBuffer,
    event: StreamEvent,
)
    requires
        before.well_formed(),
        exists|x: &mut EventBuffer|
            *x == before && *final(x) == after && #[trigger] call_ensures(
                EventBuffer::push,
                (x, event),
                (),
            ),
    ensures
        after.next_offset == before.next_offset + 1,
        after@.events.len() > 0 && after@.events.last() == event,
        after@.first + after@.events.len() == after.next_offset,
        before@.events.len() < 256 ==> after@.first == before@.first && after@.events.drop_last()
            == before@.events,
        before@.events.len() == 256 ==> after@.first == before@.first + 1
            && after@.events.drop_last() == before@.events.skip(1),
        after@.events.len() <= 256,
{
    assert(after@.events.len() == after.events@.len());
    assert(before@.events.len() == before.events@.len());
    if before@.events.len() == 256 {
        assert(after@.events.drop_last() =~= before@.events.skip(1));
    } else {
        assert(after@.events.drop_last() =~= before@.events);
    }
}

/// A page holds the kept events from its place on, each with its place, and as many as there are up
/// to its limit; only what is kept no more cannot be had.
pub proof fn a_page_holds_what_is_kept(
    buffer: &EventBuffer,
    from_offset: u64,
    limit: usize,
    page: Option<Vec<BufferedStreamEvent>>,
)
    requires
        buffer.well_formed(),
        call_ensures(EventBuffer::page, (buffer, from_offset, limit), page),
    ensures
        page is None <==> from_offset < buffer.first_offset,
        page matches Some(events) ==> {
            let left = buffer.next_offset - from_offset;
            &&& events@.len() <= limit
            &&& left <= 0 ==> events@.len() == 0
            &&& 0 <= left <= limit ==> events@.len() == left
            &&& left > limit ==> events@.len() == limit
            &&& forall|i: int|
                0 <= i < events@.len() ==> (#[trigger] events@[i]).offset == from_offset + i
                    && events@[i].event == buffer@.events[from_offset - buffer.first_offset + i]
        },
{
    if let Some(events) = page {
        let bare = events@.map_values(|e: BufferedStreamEvent| e.event);
        assert(bare.len() == events@.len());
        assert(buffer@.events.len() == buffer.events@.len());
        assert forall|i: int| 0 <= i < events@.len() implies (#[trigger] events@[i]).offset
            == from_offset + i && events@[i].event == buffer@.events[from_offset
            - buffer.first_offset + i] by {
            assert(bare[i] == events@[i].event);
        }
    }
}

/// What a reader is shown of a call that waits is the call: nothing of it is left out or taken from
/// elsewhere.
pub proof fn a_waiting_call_is_shown_as_it_is(
    pending: &PendingApproval,
    shown: PendingApprovalSnapshot,
)
    requires
        call_ensures(PendingApproval::snapshot, (pending,), shown),
    ensures
        shown.run_id == pending.request.run_id,
        shown.tool_call_id == pending.request.call_id,
        shown.tool_name == pending.request.tool_name,
        shown.effect == pending.request.effect,
        shown.reason == Some(pending.request.reason),
        shown.input_preview == pending.request.input_preview,
        shown.approval_preview == pending.request.approval_preview,
        shown.diff_preview == pending.request.diff_preview,
{
}

/// Those who follow a run are told of the call that waits, with its name, its effect and its
/// previews.
pub proof fn followers_are_told_of_the_call(request: &ApprovalRequest, event: StreamEvent)
    requires
        call_ensures(approval_requested_event, (request,), event),
    ensures
        event matches StreamEvent::ApprovalRequested {
            run_id,
            tool_call_id,
            tool_name,
            effect,
            reason,
            approval_preview,
            diff_preview,
        } && run_id == request.run_id && tool_call_id == request.call_id && tool_name
            == request.tool_name && effect == request.effect && reason == request.reason
            && approval_preview == request.approval_preview && diff_preview
            == request.diff_preview,
{
}

/// A run is found by its identifier, and none where none has it.
pub proof fn a_run_is_found_by_its_identifier(
    daemon: &DaemonRuntime,
    run_id: &str,
    found: Option<usize>,
)
    requires
        call_ensures(DaemonRuntime::find_index, (daemon, run_id), found),
    ensures
        found matches Some(at) ==> at < daemon.runs@.len() && daemon.runs@[at as int].run_id@
            == run_id@,
        found is None ==> forall|i: int|
            0 <= i < daemon.runs@.len() ==> (#[trigger] daemon.runs@[i]).run_id@ != run_id@,
{
}

/// A grant for a session is remembered for that session and for no other, and is new only once.
pub proof fn a_grant_is_for_its_session(
    before: DaemonRuntime,
    after: DaemonRuntime,
    session_id: &str,
    new_one: bool,
    other: &str,
    held_before: bool,
    held_after: bool,
)
    requires
        before.well_formed(),
        exists|x: &mut DaemonRuntime|
            *x == before && *final(x) == after && #[trigger] call_ensures(
                DaemonRuntime::install_shell_session_grant,
                (x, session_id),
                new_one,
            ),
        call_ensures(DaemonRuntime::has_shell_session_grant, (&before, other), held_before),
        call_ensures(DaemonRuntime::has_shell_session_grant, (&after, other), held_after),
    ensures
        other@ == session_id@ ==> held_after && new_one == !held_before,
        other@ != session_id@ ==> held_after == held_before,
        after.runs == before.runs && after.shutdown_accepted == before.shutdown_accepted,
{
    assert(runtime::granted(after.session_tool_grants@, other@) <==> (runtime::granted(
        before.session_tool_grants@,
        other@,
    ) || other@ == session_id@));
}

/// The time that a daemon has been up is told in full, up to the largest number that can be.
pub proof fn the_time_up_is_told(elapsed_millis: u128, told: u64)
    requires
        call_ensures(DaemonRuntime::uptime_ms, (elapsed_millis,), told),
    ensures
        elapsed_millis <= u64::MAX ==> told == elapsed_millis,
        elapsed_millis > u64::MAX ==> told == u64::MAX,
{
}

} // verus!
