//! What holds of the requests that a client makes, of the lines that it reads, and of what the
//! daemon does about a session or an issue.

use crate::daemon::client::{self, ClientRequest, DaemonClient, LineStep};
use crate::daemon::handlers::{
    self, finish_issue_prep, handle_issue_prep_start, handle_message_append, IssuePrepOptions,
    Method,
};
use crate::daemon::protocol::{
    ApprovalDecideParams, ApprovalDecision, Envelope, EventsStreamParams, IssuePrepResult,
    IssuePrepStartParams, IssuePrepStartResult,
};
use crate::daemon::runtime::DaemonRuntime;
use crate::daemon::wire_laws::is_refusal;
use crate::error::AppError;
use crate::text;
use vstd::prelude::*;

verus! {

proof fn a_line_ends_at_its_feed(available: Seq<u8>)
    requires
        available.len() > 0,
    ensures
        ({
            let n = client::line_part(available);
            &&& 0 < n <= available.len()
            &&& forall|j: int| 0 <= j < n - 1 ==> #[trigger] available[j] != 10u8
            &&& available[n - 1] == 10u8 || n == available.len()
        }),
    decreases available.len(),
{
    if available[0] != 10u8 {
        let behind = available.drop_first();
        if behind.len() > 0 {
            a_line_ends_at_its_feed(behind);
            let n = client::line_part(available);
            assert forall|j: int| 0 <= j < n - 1 implies #[trigger] available[j] != 10u8 by {
                if j > 0 {
                    assert(behind[j - 1] == available[j]);
                }
            }
            assert(behind[n - 2] == available[n - 1]);
        } else {
            assert(client::line_part(behind) == 0);
        }
    }
}

/// A line takes the bytes up to its feed and with it, and no more; it is complete with the feed, or
/// where nothing comes any more. One that grows beyond its limit is refused, and no other.
pub proof fn a_line_takes_what_belongs_to_it(
    method: Method,
    limit: Option<u64>,
    before: Vec<u8>,
    after: Vec<u8>,
    available: &Vec<u8>,
    result: Result<LineStep, AppError>,
)
    requires
        limit matches Some(most) ==> most < u64::MAX,
        exists|x: &mut Vec<u8>|
            *x == before && *final(x) == after && #[trigger] call_ensures(
                DaemonClient::read_line_until_deadline,
                (method, limit, x, available),
                result,
            ),
    ensures
        available@.len() == 0 ==> after@ == before@ && result == Ok::<LineStep, AppError>(
            LineStep { consumed: 0, done: true },
        ),
        result matches Ok(step) ==> step.consumed <= available@.len() && (available@.len() > 0 ==> (
        step.done <==> available@.take(step.consumed as int).contains(10u8))),
        result is Ok && limit is None ==> after@ == before@ + available@.take(
            result->Ok_0.consumed as int,
        ),
        result is Ok && limit is Some && available@.len() > 0 && before@.len() <= limit->0 ==> after@ == before@
            + available@.take(result->Ok_0.consumed as int),
        result is Err ==> limit is Some && after@.len() > limit->0,
        result is Err ==> result->Err_0 is DaemonProtocol,
        limit is Some && available@.len() > 0 && after@.len() > limit->0 ==> result is Err,
{
    if available@.len() > 0 {
        a_line_ends_at_its_feed(available@);
        let n = client::line_part(available@);
        let taken = available@.take(n);
        if available@[n - 1] == 10u8 {
            assert(taken[n - 1] == 10u8);
            assert(taken.contains(10u8));
        }
        if taken.contains(10u8) {
            let at = choose|at: int| 0 <= at < taken.len() && taken[at] == 10u8;
            assert(available@[at] == 10u8);
        }
    } else {
        assert(before@ + available@.take(0) =~= before@);
    }
}

/// A request is told apart from every other of its client: its identifier ends in a number, and the
/// next request gets the next one.
pub proof fn a_request_has_a_number_of_its_own(
    before: DaemonClient,
    middle: DaemonClient,
    after: DaemonClient,
    method: Method,
    other: Method,
    first: String,
    second: String,
)
    requires
        before.next_id < u64::MAX - 1,
        exists|x: &mut DaemonClient|
            *x == before && *final(x) == middle && #[trigger] call_ensures(
                DaemonClient::next_request_id,
                (x, method),
                first,
            ),
        exists|x: &mut DaemonClient|
            *x == middle && *final(x) == after && #[trigger] call_ensures(
                DaemonClient::next_request_id,
                (x, other),
                second,
            ),
    ensures
        first@ != second@,
        middle.next_id == before.next_id + 1,
        middle.response_limit == before.response_limit && middle.response_deadline
            == before.response_deadline,
{
    text::numbered_texts_differ(
        client::underscored(handlers::method_text(method)),
        before.next_id as nat,
        client::underscored(handlers::method_text(other)),
        middle.next_id as nat,
    );
}

/// A decision names the run and the call that it is about; only a refusal carries a reason.
pub proof fn a_decision_is_sent_as_taken(
    before: DaemonClient,
    after: DaemonClient,
    run_id: &str,
    call_id: &str,
    reason: String,
    granted: ClientRequest<ApprovalDecideParams>,
    denied: ClientRequest<ApprovalDecideParams>,
    later: DaemonClient,
)
    requires
        before.next_id < u64::MAX - 1,
        exists|x: &mut DaemonClient|
            *x == before && *final(x) == after && #[trigger] call_ensures(
                DaemonClient::approval_grant,
                (x, run_id, call_id),
                granted,
            ),
        exists|x: &mut DaemonClient|
            *x == after && *final(x) == later && #[trigger] call_ensures(
                DaemonClient::approval_deny,
                (x, run_id, call_id, reason),
                denied,
            ),
    ensures
        granted.method == Method::ApprovalDecide && denied.method == Method::ApprovalDecide,
        granted.params matches Some(params) && params.run_id@ == run_id@ && params.tool_call_id@
            == call_id@ && params.decision == ApprovalDecision::Grant && params.reason is None,
        denied.params matches Some(params) && params.run_id@ == run_id@ && params.tool_call_id@
            == call_id@ && params.decision == ApprovalDecision::Deny && params.reason == Some(
            reason,
        ),
{
}

/// A page of events is asked for as it is wanted.
pub proof fn a_page_is_asked_for_as_wanted(
    before: DaemonClient,
    after: DaemonClient,
    run_id: &str,
    from_offset: Option<u64>,
    limit: usize,
    request: ClientRequest<EventsStreamParams>,
)
    requires
        before.next_id < u64::MAX,
        exists|x: &mut DaemonClient|
            *x == before && *final(x) == after && #[trigger] call_ensures(
                DaemonClient::events_stream,
                (x, run_id, from_offset, limit),
                request,
            ),
    ensures
        request.method == Method::EventsStream,
        request.params matches Some(params) && params.run_id@ == run_id@ && params.from_offset
            == from_offset && params.limit == Some(limit),
{
}

/// Time is left until the deadline, and none from then on.
pub proof fn time_runs_out_at_the_deadline(
    method: Method,
    deadline: u128,
    now: u128,
    left: Result<u128, AppError>,
)
    requires
        call_ensures(DaemonClient::remaining, (method, deadline, now), left),
    ensures
        left is Ok <==> now < deadline,
        left matches Ok(span) ==> now + span == deadline,
        left matches Err(error) ==> error is Io,
{
}

/// A message goes to the session that is named, or else to the latest one; without any there is
/// nothing to go on with, and while the daemon shuts down nothing is taken.
pub proof fn a_message_goes_to_its_session(
    daemon: &DaemonRuntime,
    id: Option<String>,
    session_id: Option<String>,
    latest: Result<String, AppError>,
    result: Result<String, Envelope>,
)
    requires
        call_ensures(handle_message_append, (daemon, id, session_id, latest), result),
    ensures
        result is Ok <==> !daemon.shutdown_accepted && (session_id is Some || latest is Ok),
        result is Ok && session_id is Some ==> result->Ok_0 == session_id->0,
        result is Ok && session_id is None ==> result->Ok_0 == latest->Ok_0,
        result is Err && !daemon.shutdown_accepted ==> is_refusal(
            result->Err_0,
            id,
            "not_found"@,
        ),
        result is Err ==> result->Err_0.id == id,
{
}

/// One issue is prepared at a time: a second one is refused until the first has ended, and while the
/// daemon shuts down none is taken. What is prepared is what was asked for.
pub proof fn one_issue_is_prepared_at_a_time(
    before: DaemonRuntime,
    after: DaemonRuntime,
    id: Option<String>,
    params: IssuePrepStartParams,
    run_id: String,
    result: Result<IssuePrepOptions, Envelope>,
)
    requires
        before.well_formed(),
        exists|x: &mut DaemonRuntime|
            *x == before && *final(x) == after && #[trigger] call_ensures(
                handle_issue_prep_start,
                (x, id, params, run_id),
                result,
            ),
    ensures
        result is Ok <==> !before.shutdown_accepted && !before.issue_prep_active,
        result is Ok ==> after.issue_prep_active,
        result is Err ==> after == before,
        result is Err && !before.shutdown_accepted ==> is_refusal(
            result->Err_0,
            id,
            "overload"@,
        ),
        after.runs == before.runs,
        result matches Ok(options) ==> options.input == params.input && options.config_path
            == params.config_path && options.workspace_root == before.paths.workspace_root,
{
}

/// The end of a preparation frees the place for another, and is answered with what came of it.
pub proof fn a_prepared_issue_frees_its_place(
    before: DaemonRuntime,
    after: DaemonRuntime,
    id: Option<String>,
    run_dir: String,
    outcome: Result<IssuePrepResult, AppError>,
    result: Result<IssuePrepStartResult, Envelope>,
)
    requires
        before.well_formed(),
        exists|x: &mut DaemonRuntime|
            *x == before && *final(x) == after && #[trigger] call_ensures(
                finish_issue_prep,
                (x, id, run_dir, outcome),
                result,
            ),
    ensures
        !after.issue_prep_active,
        after.runs == before.runs && after.shutdown_accepted == before.shutdown_accepted,
        result is Ok <==> outcome is Ok,
        result matches Ok(answer) ==> answer.run_dir == run_dir && answer.outcome == outcome->Ok_0,
        result is Err ==> is_refusal(result->Err_0, id, "issue_prep_failed"@),
{
}

} // verus!
