//! What holds of the daemon's answers, and of the daemon after it answered.

use crate::app::model::RunOverrides;
use crate::app::policy::ApprovalMode;
use crate::app::session::{RunLedger, RunOptions, RunOutcome, RunSession};
use crate::daemon::handlers::{
    answer_start, decide_shutdown, finish_run_after_event_collection, handle_approval_decide,
    handle_events_stream, handle_hello, handle_run_cancel, start_run,
};
use crate::daemon::protocol::{
    ApprovalDecideParams, ApprovalDecision, CommandAcceptedResult, Envelope, EventsStreamParams,
    EventsStreamResult, HelloParams, HelloResult, RunCancelParams, RunStartResult, RunStateName,
    ShutdownIfIdleResult, ShutdownIfIdleResultName,
};
use crate::daemon::readback_laws;
use crate::daemon::runtime::{
    self, DaemonRuntime, IssuePrepAdmissionError, RunAdmissionError, RunRecord, RunStatus,
};
use crate::error::AppError;
use crate::{error, tool_catalog};
use vstd::prelude::*;

verus! {

/// Whether an answer is an error of this kind.
pub open spec fn answers_with(reply: Envelope, id: Option<String>, code: Seq<char>) -> bool {
    reply.id == id && (reply.error matches Some(error) && error.code@ == code)
}

/// Whether a run of a session has not ended.
pub open spec fn busy(runs: Seq<RunRecord>, session_id: Seq<char>) -> bool {
    exists|i: int|
        0 <= i < runs.len() && readback_laws::on_its_way(#[trigger] runs[i]) && runs[i].session_id@
            == session_id
}

/// The identifier of a session.
pub open spec fn session_name(session: RunSession) -> Seq<char> {
    match session {
        RunSession::Fresh { session_id } => session_id@,
        RunSession::Continue { session_id } => session_id@,
    }
}

proof fn active_found(runs: Seq<RunRecord>, session_id: Seq<char>)
    ensures
        ({
            let i = runtime::active_index(runs, session_id);
            &&& 0 <= i <= runs.len()
            &&& i < runs.len() <==> busy(runs, session_id)
            &&& i < runs.len() ==> runtime::runs_in_session(runs[i], session_id)
        }),
    decreases runs.len(),
{
    if runs.len() > 0 {
        let rest = runs.drop_first();
        active_found(rest, session_id);
        if runtime::runs_in_session(runs[0], session_id) {
            assert(readback_laws::on_its_way(runs[0]));
        } else {
            if busy(rest, session_id) {
                let i = choose|i: int|
                    0 <= i < rest.len() && readback_laws::on_its_way(#[trigger] rest[i])
                        && rest[i].session_id@ == session_id;
                assert(runs[i + 1] == rest[i]);
            }
            if busy(runs, session_id) {
                let i = choose|i: int|
                    0 <= i < runs.len() && readback_laws::on_its_way(#[trigger] runs[i])
                        && runs[i].session_id@ == session_id;
                assert(rest[i - 1] == runs[i]);
            }
        }
    }
}

proof fn run_found(runs: Seq<RunRecord>, run_id: Seq<char>)
    ensures
        ({
            let i = runtime::run_index(runs, run_id);
            &&& 0 <= i <= runs.len()
            &&& i < runs.len() <==> runtime::has_run(runs, run_id)
            &&& i < runs.len() ==> runs[i].run_id@ == run_id
            &&& forall|j: int| 0 <= j < i ==> (#[trigger] runs[j]).run_id@ != run_id
        }),
    decreases runs.len(),
{
    if runs.len() > 0 {
        let rest = runs.drop_first();
        run_found(rest, run_id);
        let i = runtime::run_index(runs, run_id);
        if runs[0].run_id@ != run_id {
            if runtime::has_run(rest, run_id) {
                assert(runs[i].run_id@ == run_id);
            }
            if runtime::has_run(runs, run_id) {
                let k = choose|k: int| 0 <= k < runs.len() && (#[trigger] runs[k]).run_id@ == run_id;
                assert(rest[k - 1].run_id@ == run_id);
            }
            assert forall|j: int| 0 <= j < i implies (#[trigger] runs[j]).run_id@ != run_id by {
                if j > 0 {
                    assert(runs[j] == rest[j - 1]);
                }
            }
        }
    }
}

/// A run is started exactly where the daemon is not shutting down and no run of its session is on its
/// way. It is then known as running, asks the daemon for its approvals, and is about the question
/// that was asked; otherwise nothing changes.
pub proof fn a_run_is_started_where_its_session_is_free(
    before: DaemonRuntime,
    after: DaemonRuntime,
    id: Option<String>,
    run_id: String,
    question: String,
    session: RunSession,
    config_path: Option<String>,
    overrides: RunOverrides,
    result: Result<RunOptions, Envelope>,
)
    requires
        exists|daemon: &mut DaemonRuntime|
            *daemon == before && *final(daemon) == after && #[trigger] call_ensures(
                start_run,
                (daemon, id, run_id, question, session, config_path, overrides),
                result,
            ),
    ensures
        result is Ok <==> !before.shutdown_accepted && !busy(before.runs@, session_name(session)),
        result matches Ok(options) ==> {
            &&& options.question == question
            &&& options.config_path == config_path
            &&& options.overrides == overrides
            &&& options.run_id == Some(run_id)
            &&& options.session == Some(session)
            &&& options.workspace_root == before.paths.workspace_root
            &&& options.ledger == RunLedger::DefaultSqlite(before.paths.ledger_path)
            &&& options.approval_mode matches ApprovalMode::External { actor } && actor@
                == "daemon"@
            &&& after.runs@.len() == before.runs@.len() + 1
            &&& after.runs@[before.runs@.len() as int].run_id == run_id
            &&& after.runs@[before.runs@.len() as int].session_id@ == session_name(session)
            &&& after.runs@[before.runs@.len() as int].status.state == RunStateName::Running
            &&& !after.runs@[before.runs@.len() as int].cancel
            &&& after.runs@[before.runs@.len() as int].approvals@.len() == 0
            &&& forall|i: int|
                0 <= i < before.runs@.len() ==> #[trigger] after.runs@[i] == before.runs@[i]
        },
        result matches Err(reply) ==> {
            &&& after == before
            &&& before.shutdown_accepted ==> answers_with(reply, id, "daemon_shutting_down"@)
            &&& !before.shutdown_accepted ==> answers_with(reply, id, "overload"@)
        },
{
    active_found(before.runs@, session_name(session));
    if result is Ok {
        let n = before.runs@.len() as int;
        assert(after.runs@.last() == after.runs@[n]);
        assert forall|i: int| 0 <= i < n implies #[trigger] after.runs@[i] == before.runs@[i] by {
            assert(after.runs@.drop_last()[i] == before.runs@[i]);
        }
    }
}

/// What a client that started a run is told: how the run stands, and where it asked to wait, nothing
/// before the run has an outcome and the failure of one that failed.
pub proof fn a_starter_is_told_how_the_run_stands(
    wait: Option<bool>,
    id: Option<String>,
    session: &RunSession,
    record: &RunRecord,
    outcome: Option<&Result<RunOutcome, AppError>>,
    told: Option<Result<RunStartResult, Envelope>>,
)
    requires
        call_ensures(answer_start, (wait, id, session, record, outcome), told),
    ensures
        told is None <==> wait == Some(true) && outcome is None,
        told matches Some(Ok(start)) ==> {
            &&& start.run_id == record.run_id
            &&& start.session_id == record.session_id
            &&& start.status == record.status.state
            &&& start.final_answer == record.status.final_answer
            &&& start.ledger_path == record.ledger_path
        },
        told matches Some(Err(reply)) ==> wait == Some(true) && outcome is Some && outcome->0
            is Err && answers_with(reply, id, "run_failed"@),
        wait == Some(true) && outcome is Some && outcome->0 is Err ==> told matches Some(Err(_)),
{
}

/// Whether a run is known with this end.
pub open spec fn known_with(runs: Seq<RunRecord>, run_id: Seq<char>, status: RunStatus) -> bool {
    exists|i: int|
        0 <= i < runs.len() && (#[trigger] runs[i]).run_id@ == run_id && runs[i].status == status
}

proof fn completed_is_known(
    before: DaemonRuntime,
    after: DaemonRuntime,
    run_id: Seq<char>,
    status: RunStatus,
)
    requires
        before.well_formed(),
        runtime::has_run(before.runs@, run_id),
        !runtime::remembers_end(before.terminal_runs@, run_id),
        runtime::completes(before, after, run_id, status),
    ensures
        known_with(after.runs@, run_id, status),
{
    run_found(before.runs@, run_id);
    let n = runtime::run_index(before.runs@, run_id);
    let ended = choose|ended: RunRecord|
        {
            let full = before.terminal_runs@.len() == runtime::MAX_TERMINAL_RUNS;
            &&& #[trigger] runtime::run_completed(before.runs@[n], ended, status)
            &&& after.runs@ == (if full {
                let updated = before.runs@.update(n, ended);
                updated.remove(runtime::run_index(updated, before.terminal_runs@[0]@))
            } else {
                before.runs@.update(n, ended)
            })
        };
    let updated = before.runs@.update(n, ended);
    assert(updated[n] == ended);
    if before.terminal_runs@.len() == runtime::MAX_TERMINAL_RUNS {
        let oldest = before.terminal_runs@[0]@;
        assert(oldest != run_id);
        run_found(updated, oldest);
        let m = runtime::run_index(updated, oldest);
        assert(runtime::known_ended(before.runs@, before.terminal_runs@[0]@));
        let k = choose|k: int|
            0 <= k < before.runs@.len() && (#[trigger] before.runs@[k]).run_id@ == oldest;
        assert(k != n);
        assert(updated[k].run_id@ == oldest);
        assert(m < updated.len());
        assert(m != n);
        if m < n {
            assert(after.runs@[n - 1] == ended);
        } else {
            assert(after.runs@[n] == ended);
        }
    } else {
        assert(after.runs@[n] == ended);
    }
}

/// A run ends with what came of it: finished with its answer, canceled where it says so, failed with
/// its error otherwise, and failed as well where its events were not collected.
pub proof fn a_run_ends_with_what_came_of_it(
    before: DaemonRuntime,
    after: DaemonRuntime,
    run_id: &str,
    outcome: Result<RunOutcome, AppError>,
    collected: bool,
    result: Result<RunOutcome, AppError>,
)
    requires
        before.well_formed(),
        runtime::has_run(before.runs@, run_id@),
        !runtime::remembers_end(before.terminal_runs@, run_id@),
        exists|daemon: &mut DaemonRuntime|
            *daemon == before && *final(daemon) == after && #[trigger] call_ensures(
                finish_run_after_event_collection,
                (daemon, run_id, outcome, collected),
                result,
            ),
    ensures
        collected ==> result == outcome,
        !collected ==> result matches Err(AppError::RunFailed(_)),
        (collected && outcome is Ok) ==> known_with(
            after.runs@,
            run_id@,
            RunStatus {
                state: RunStateName::Finished,
                final_answer: Some(outcome->Ok_0.final_answer),
                error: None,
            },
        ),
        result matches Err(failure) ==> exists|i: int|
            {
                &&& 0 <= i < after.runs@.len()
                &&& (#[trigger] after.runs@[i]).run_id@ == run_id@
                &&& after.runs@[i].status.final_answer is None
                &&& failure is RunCanceled ==> after.runs@[i].status.state == RunStateName::Canceled
                &&& failure !is RunCanceled ==> after.runs@[i].status.state == RunStateName::Failed
                &&& after.runs@[i].status.error matches Some(words) && words@
                    == error::error_text(failure)
            },
{
    match result {
        Ok(done) => {
            completed_is_known(
                before,
                after,
                run_id@,
                RunStatus {
                    state: RunStateName::Finished,
                    final_answer: Some(done.final_answer),
                    error: None,
                },
            );
        },
        Err(failure) => {
            let words = choose|words: String|
                {
                    &&& words@ == error::error_text(failure)
                    &&& runtime::completes(
                        before,
                        after,
                        run_id@,
                        #[trigger] runtime::failed_status(failure, words),
                    )
                };
            let status = runtime::failed_status(failure, words);
            completed_is_known(before, after, run_id@, status);
            let i = choose|i: int|
                0 <= i < after.runs@.len() && (#[trigger] after.runs@[i]).run_id@ == run_id@
                    && after.runs@[i].status == status;
            assert(after.runs@[i].status.error == Some(words));
        },
    }
}

/// A request to stop is accepted exactly where the run is known and has not ended; the run is then to
/// stop, and every other run stays as it is.
pub proof fn a_known_run_is_stopped(
    before: DaemonRuntime,
    after: DaemonRuntime,
    id: Option<String>,
    params: RunCancelParams,
    result: Result<CommandAcceptedResult, Envelope>,
    i: int,
)
    requires
        before.well_formed(),
        0 <= i < before.runs@.len(),
        exists|daemon: &mut DaemonRuntime|
            *daemon == before && *final(daemon) == after && #[trigger] call_ensures(
                handle_run_cancel,
                (daemon, id, params),
                result,
            ),
    ensures
        after.runs@.len() == before.runs@.len(),
        before.runs@[i].run_id@ != params.run_id@ ==> after.runs@[i] == before.runs@[i],
        before.runs@[i].run_id@ == params.run_id@ ==> {
            &&& result is Ok <==> readback_laws::on_its_way(before.runs@[i])
            &&& result matches Ok(accepted) ==> accepted.run_id == before.runs@[i].run_id
                && accepted.status == RunStateName::CancelRequested && after.runs@[i].status.state
                == RunStateName::CancelRequested
            &&& before.runs@[i].status.state == RunStateName::Running ==> after.runs@[i].cancel
            &&& result matches Err(reply) ==> answers_with(reply, id, "not_found"@)
                && after.runs@[i] == before.runs@[i]
        },
        result is Ok ==> runtime::has_run(before.runs@, params.run_id@),
        after.paths == before.paths,
        after.shutdown_accepted == before.shutdown_accepted,
{
    run_found(before.runs@, params.run_id@);
    let n = runtime::run_index(before.runs@, params.run_id@);
    if before.runs@[i].run_id@ == params.run_id@ {
        assert(runtime::has_run(before.runs@, params.run_id@));
        assert(n == i);
    }
}

/// Whether a call of a run waits for a decision.
pub open spec fn can_be_decided(record: RunRecord, call_id: Seq<char>) -> bool {
    !record.cancel && exists|k: int|
        0 <= k < record.approvals@.len() && (#[trigger] record.approvals@[k]).request.call_id@
            == call_id && record.approvals@[k].decision is None
}

proof fn approval_place(record: RunRecord, call_id: Seq<char>, k: int)
    requires
        record.well_formed(),
        0 <= k < record.approvals@.len(),
        record.approvals@[k].request.call_id@ == call_id,
    ensures
        runtime::approval_index(record.approvals@, call_id) == k,
{
    approval_place_in(record.approvals@, call_id, k);
}

proof fn approval_place_in(
    approvals: Seq<runtime::PendingApproval>,
    call_id: Seq<char>,
    k: int,
)
    requires
        0 <= k < approvals.len(),
        approvals[k].request.call_id@ == call_id,
        forall|i: int| 0 <= i < k ==> (#[trigger] approvals[i]).request.call_id@ != call_id,
    ensures
        runtime::approval_index(approvals, call_id) == k,
    decreases k,
{
    if k > 0 {
        assert(approvals[0].request.call_id@ != call_id);
        let rest = approvals.drop_first();
        assert forall|i: int| 0 <= i < k - 1 implies (#[trigger] rest[i]).request.call_id@
            != call_id by {
            assert(rest[i] == approvals[i + 1]);
        }
        approval_place_in(rest, call_id, k - 1);
    }
}

proof fn approval_missing(approvals: Seq<runtime::PendingApproval>, call_id: Seq<char>)
    ensures
        ({
            let i = runtime::approval_index(approvals, call_id);
            &&& 0 <= i <= approvals.len()
            &&& i < approvals.len() ==> approvals[i].request.call_id@ == call_id
        }),
    decreases approvals.len(),
{
    if approvals.len() > 0 && approvals[0].request.call_id@ != call_id {
        approval_missing(approvals.drop_first(), call_id);
    }
}

/// A decision on a call is taken exactly where the call waits in the run that is named, and what is
/// kept of it is what was decided; every other run stays as it is.
pub proof fn a_waiting_call_is_decided_on(
    before: DaemonRuntime,
    after: DaemonRuntime,
    id: Option<String>,
    params: ApprovalDecideParams,
    result: Result<CommandAcceptedResult, Envelope>,
    i: int,
    k: int,
)
    requires
        before.well_formed(),
        0 <= i < before.runs@.len(),
        0 <= k < before.runs@[i].approvals@.len(),
        exists|daemon: &mut DaemonRuntime|
            *daemon == before && *final(daemon) == after && #[trigger] call_ensures(
                handle_approval_decide,
                (daemon, id, params),
                result,
            ),
    ensures
        before.runs@[i].run_id@ != params.run_id@ ==> after.runs@[i] == before.runs@[i],
        before.runs@[i].run_id@ == params.run_id@ ==> {
            &&& result is Ok <==> can_be_decided(before.runs@[i], params.tool_call_id@)
            &&& after.runs@[i].status == before.runs@[i].status
            &&& before.runs@[i].approvals@[k].request.call_id@ != params.tool_call_id@
                ==> after.runs@[i].approvals@[k] == before.runs@[i].approvals@[k]
            &&& result is Ok && before.runs@[i].approvals@[k].request.call_id@
                == params.tool_call_id@ ==> {
                let kept = after.runs@[i].approvals@[k];
                &&& kept.request == before.runs@[i].approvals@[k].request
                &&& params.decision == ApprovalDecision::Grant ==> (kept.decision matches Some(
                    outcome,
                ) && outcome is Granted)
                &&& params.decision == ApprovalDecision::Deny ==> (kept.decision matches Some(
                    outcome,
                ) && outcome is Denied)
            }
            &&& result matches Err(reply) ==> answers_with(reply, id, "not_found"@)
        },
{
    run_found(before.runs@, params.run_id@);
    let call = params.tool_call_id@;
    if before.runs@[i].run_id@ == params.run_id@ {
        let record = before.runs@[i];
        assert(record.well_formed());
        assert(runtime::has_run(before.runs@, params.run_id@));
        assert(runtime::run_index(before.runs@, params.run_id@) == i);
        approval_missing(record.approvals@, call);
        if record.approvals@[k].request.call_id@ == call {
            approval_place(record, call, k);
        }
        if can_be_decided(record, call) {
            let m = choose|m: int|
                0 <= m < record.approvals@.len() && (#[trigger] record.approvals@[m]).request.call_id@
                    == call && record.approvals@[m].decision is None;
            approval_place(record, call, m);
        }
    }
}

/// A page of events is of the run that is named and goes on where it was asked to: each event stands
/// at its own place, none is left out in between, and the next page starts where this one ends.
pub proof fn a_page_goes_on_where_it_was_asked_to(
    daemon: &DaemonRuntime,
    id: Option<String>,
    params: EventsStreamParams,
    result: Result<EventsStreamResult, Envelope>,
    i: int,
)
    requires
        daemon.well_formed(),
        0 <= i < daemon.runs@.len(),
        daemon.runs@[i].run_id@ == params.run_id@,
        call_ensures(handle_events_stream, (daemon, id, params), result),
    ensures
        result matches Ok(page) ==> {
            let kept = daemon.runs@[i].events;
            &&& page.run_id == daemon.runs@[i].run_id
            &&& page.status == daemon.runs@[i].status.state
            &&& params.from_offset matches Some(from) ==> page.from_offset == from
            &&& page.next_offset == page.from_offset + page.events@.len()
            &&& page.from_offset >= kept.first_offset
            &&& forall|k: int|
                0 <= k < page.events@.len() ==> {
                    &&& (#[trigger] page.events@[k]).offset == page.from_offset + k
                    &&& page.from_offset + k - kept.first_offset < kept.events@.len()
                    &&& page.events@[k].event == kept.events@[page.from_offset + k
                        - kept.first_offset].event
                }
            &&& params.limit matches Some(limit) ==> page.events@.len() <= limit
        },
        (params.from_offset is Some && params.from_offset->0 < daemon.runs@[i].events.first_offset
            && params.limit == Some(128usize)) ==> (result matches Err(reply) && answers_with(
            reply,
            id,
            "lagged"@,
        )),
        (params.limit is Some && params.limit->0 > 128) ==> (result matches Err(reply)
            && answers_with(reply, id, "overload"@)),
        (params.from_offset is Some && params.from_offset->0 >= daemon.runs@[i].events.first_offset
            && params.limit is Some && params.limit->0 <= 128) ==> result is Ok,
{
    run_found(daemon.runs@, params.run_id@);
    assert(runtime::has_run(daemon.runs@, params.run_id@));
    let n = runtime::run_index(daemon.runs@, params.run_id@);
    assert(n == i);
    if let Ok(page) = result {
        let kept = daemon.runs@[i].events;
        let told = page.events@.map_values(
            |e: crate::daemon::protocol::BufferedStreamEvent| e.event,
        );
        let window = kept@;
        assert(told.len() == page.events@.len());
        assert forall|k: int| 0 <= k < page.events@.len() implies {
            &&& (#[trigger] page.events@[k]).offset == page.from_offset + k
            &&& page.from_offset + k - kept.first_offset < kept.events@.len()
            &&& page.events@[k].event == kept.events@[page.from_offset + k
                - kept.first_offset].event
        } by {
            assert(told[k] == page.events@[k].event);
            assert(window.events.len() == kept.events@.len());
            assert(told[k] == window.events[page.from_offset + k - kept.first_offset]);
        }
    }
}

/// The daemon greets exactly those who ask for its own workspace, and says what it is and that it
/// understands every request that it answers.
pub proof fn only_its_own_workspace_is_greeted(
    daemon: &DaemonRuntime,
    id: Option<String>,
    params: HelloParams,
    resolved: Result<String, String>,
    version: String,
    result: Result<HelloResult, Envelope>,
)
    requires
        call_ensures(handle_hello, (daemon, id, params, resolved, version), result),
    ensures
        result is Ok <==> params.workspace_id@ == daemon.paths.workspace_id@ && (
        resolved matches Ok(root) && root@ == daemon.paths.workspace_root@),
        result matches Ok(hello) ==> {
            &&& hello.daemon_version == version
            &&& hello.workspace_id == daemon.paths.workspace_id
            &&& hello.ledger_path == daemon.paths.ledger_path
            &&& hello.capabilities@.len() == 10
            &&& hello.capabilities@[0]@ == "hello"@
            &&& hello.capabilities@[1]@ == "run.start"@
            &&& hello.capabilities@[2]@ == "message.append"@
            &&& hello.capabilities@[3]@ == "issue-prep.start"@
            &&& hello.capabilities@[4]@ == "events.stream"@
            &&& hello.capabilities@[5]@ == "approval.decide"@
            &&& hello.capabilities@[6]@ == "run.cancel"@
            &&& hello.capabilities@[7]@ == "sessions.list"@
            &&& hello.capabilities@[8]@ == "daemon.shutdown_if_idle"@
            &&& hello.capabilities@[9]@ == "transcript.read"@
        },
        result matches Err(reply) ==> answers_with(reply, id, "workspace_mismatch"@),
{
    if let Ok(hello) = result {
        let names = tool_catalog::texts(hello.capabilities@);
        assert(names.len() == hello.capabilities@.len());
        assert forall|i: int| 0 <= i < names.len() implies names[i] == (
        #[trigger] hello.capabilities@[i])@ by {}
    }
}

/// The daemon shuts down exactly where it is asked to for the first time and nothing is on its way,
/// and it never goes back on that.
pub proof fn only_an_idle_daemon_shuts_down(
    before: DaemonRuntime,
    after: DaemonRuntime,
    id: Option<String>,
    method: Option<String>,
    params_ok: bool,
    result: Result<ShutdownIfIdleResult, Envelope>,
)
    requires
        exists|daemon: &mut DaemonRuntime|
            *daemon == before && *final(daemon) == after && #[trigger] call_ensures(
                decide_shutdown,
                (daemon, id, method, params_ok),
                result,
            ),
    ensures
        before.shutdown_accepted ==> after.shutdown_accepted,
        after.shutdown_accepted && !before.shutdown_accepted <==> params_ok
            && !before.shutdown_accepted && !before.issue_prep_active && forall|i: int|
            0 <= i < before.runs@.len() ==> !readback_laws::on_its_way(#[trigger] before.runs@[i]),
        after.runs == before.runs,
        (result matches Ok(told) && told.result == ShutdownIfIdleResultName::Shutdown) <==> (
        after.shutdown_accepted && !before.shutdown_accepted),
        !params_ok ==> result is Err && after == before,
        params_ok ==> (result is Err <==> before.shutdown_accepted),
{
    if runtime::any_active(before.runs@) {
        let i = choose|i: int|
            0 <= i < before.runs@.len() && crate::daemon::protocol::is_active(
                (#[trigger] before.runs@[i]).status.state,
            );
        assert(readback_laws::on_its_way(before.runs@[i]));
    } else {
        assert forall|i: int| 0 <= i < before.runs@.len() implies !readback_laws::on_its_way(
            #[trigger] before.runs@[i],
        ) by {
            assert(!crate::daemon::protocol::is_active(before.runs@[i].status.state));
        }
    }
}

/// After a daemon has accepted its shutdown it admits neither a run nor issue preparation; before
/// that it admits one of issue preparation at a time.
pub proof fn admissions_end_with_the_shutdown(
    before: DaemonRuntime,
    after: DaemonRuntime,
    record: RunRecord,
    admitted: Result<(), RunAdmissionError>,
    prepared: DaemonRuntime,
    preparing: Result<(), IssuePrepAdmissionError>,
)
    requires
        exists|daemon: &mut DaemonRuntime|
            *daemon == before && *final(daemon) == after && #[trigger] call_ensures(
                DaemonRuntime::reserve_run,
                (daemon, record),
                admitted,
            ),
        exists|daemon: &mut DaemonRuntime|
            *daemon == before && *final(daemon) == prepared && #[trigger] call_ensures(
                DaemonRuntime::reserve_issue_prep,
                (daemon,),
                preparing,
            ),
    ensures
        admitted is Ok <==> !before.shutdown_accepted && !busy(before.runs@, record.session_id@),
        admitted is Ok ==> after.runs@.len() == before.runs@.len() + 1
            && after.runs@[before.runs@.len() as int] == record,
        admitted is Err ==> after == before,
        before.shutdown_accepted ==> admitted == Err::<(), RunAdmissionError>(
            RunAdmissionError::ShuttingDown,
        ),
        (admitted matches Err(RunAdmissionError::SessionActive { run_id })) ==> exists|i: int|
            0 <= i < before.runs@.len() && (#[trigger] before.runs@[i]).run_id
                == admitted->Err_0->SessionActive_run_id && readback_laws::on_its_way(
                before.runs@[i],
            ) && before.runs@[i].session_id@ == record.session_id@,
        preparing is Ok <==> !before.shutdown_accepted && !before.issue_prep_active,
        preparing is Ok ==> prepared.issue_prep_active,
        prepared.runs == before.runs,
{
    active_found(before.runs@, record.session_id@);
}

} // verus!
