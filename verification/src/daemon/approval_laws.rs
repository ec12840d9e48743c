//! What holds of the decisions on calls and of requests to stop, one after the other.

use crate::app::session::ApprovalRequest;
use crate::daemon::protocol::{
    ApprovalDecision, PendingApprovalSnapshot, RunStateName, StreamEvent,
};
use crate::daemon::runtime::{
    self, ApprovalStart, CancelOutcome, ExternalApprovalOutcome, GrantActor, OutsideDenial,
    PendingApproval, RunRecord, RunStatus,
};
use crate::tool_catalog::EffectClass;
use vstd::prelude::*;

verus! {

/// A run that goes on takes the first request to stop and gives up what waits; a second one changes
/// nothing, and a run that has ended takes none. Which run it is never changes.
pub proof fn a_run_is_asked_to_stop_once(before: RunRecord, after: RunRecord, outcome: CancelOutcome)
    requires
        exists|record: &mut RunRecord|
            *record == before && *final(record) == after && #[trigger] call_ensures(
                RunRecord::request_cancel,
                (record,),
                outcome,
            ),
    ensures
        after.run_id == before.run_id,
        after.session_id == before.session_id,
        after.ledger_path == before.ledger_path,
        after.status.final_answer == before.status.final_answer,
        after.status.error == before.status.error,
        before.status.state == RunStateName::Running ==> {
            &&& outcome == CancelOutcome::Accepted
            &&& after.cancel
            &&& after.status.state == RunStateName::CancelRequested
            &&& after.approvals@.len() == 0
            &&& after.events@.first + after.events@.events.len() == before.events@.first
                + before.events@.events.len() + 1
            &&& after.events@.events.last() == (StreamEvent::Canceled { run_id: before.run_id })
        },
        before.status.state == RunStateName::CancelRequested ==> outcome
            == CancelOutcome::AlreadyRequested && after == before,
        before.status.state != RunStateName::Running && before.status.state
            != RunStateName::CancelRequested ==> outcome == CancelOutcome::NotActive && after
            == before,
{
}

proof fn approval_found(approvals: Seq<PendingApproval>, call_id: Seq<char>)
    ensures
        ({
            let i = runtime::approval_index(approvals, call_id);
            &&& 0 <= i <= approvals.len()
            &&& i < approvals.len() ==> approvals[i].request.call_id@ == call_id
            &&& forall|j: int| 0 <= j < i ==> (#[trigger] approvals[j]).request.call_id@ != call_id
        }),
    decreases approvals.len(),
{
    if approvals.len() > 0 && approvals[0].request.call_id@ != call_id {
        let rest = approvals.drop_first();
        approval_found(rest, call_id);
        let i = runtime::approval_index(approvals, call_id);
        assert forall|j: int| 0 <= j < i implies (#[trigger] approvals[j]).request.call_id@
            != call_id by {
            if j > 0 {
                assert(approvals[j] == rest[j - 1]);
            }
        }
    }
}

/// Whether a call waits for a decision.
pub open spec fn waits(record: RunRecord, call_id: Seq<char>) -> bool {
    exists|i: int|
        0 <= i < record.approvals@.len() && (#[trigger] record.approvals@[i]).request.call_id@
            == call_id && record.approvals@[i].decision is None
}

/// A call of another run is refused, one of a run that is to stop or has ended is denied, and the
/// shell is granted where its session was; every other call waits for a client, who is told.
pub proof fn a_call_waits_for_a_client(
    before: RunRecord,
    after: RunRecord,
    request: ApprovalRequest,
    granted: bool,
    result: ApprovalStart,
)
    requires
        exists|record: &mut RunRecord|
            *record == before && *final(record) == after && #[trigger] call_ensures(
                RunRecord::begin_approval,
                (record, request, granted),
                result,
            ),
    ensures
        request.run_id@ != before.run_id@ ==> result is Refused && after == before,
        request.run_id@ == before.run_id@ ==> {
            &&& before.cancel ==> result == ApprovalStart::Decided(
                ExternalApprovalOutcome::Denied {
                    actor: GrantActor::Daemon,
                    reason: OutsideDenial::RunCanceled,
                },
            ) && after == before
            &&& !before.cancel && before.status.state != RunStateName::Running ==> result
                == ApprovalStart::Decided(
                ExternalApprovalOutcome::Denied {
                    actor: GrantActor::Daemon,
                    reason: OutsideDenial::RunInactive,
                },
            ) && after == before
            &&& !before.cancel && before.status.state == RunStateName::Running ==> {
                let shell = request.tool_name@ == "shell.exec"@ && request.effect
                    == EffectClass::ExternalSideEffect;
                &&& shell && granted ==> result == ApprovalStart::Decided(
                    ExternalApprovalOutcome::Granted { actor: GrantActor::SessionGrant },
                ) && after == before
                &&& !(shell && granted) ==> {
                    &&& result is Waiting
                    &&& waits(after, request.call_id@)
                    &&& after.status == before.status
                    &&& !after.cancel
                    &&& after.events@.first + after.events@.events.len() == before.events@.first
                + before.events@.events.len() + 1
                    &&& after.events@.events.last() matches StreamEvent::ApprovalRequested {
                        run_id,
                        tool_call_id,
                        tool_name,
                        ..
                    } && run_id == request.run_id && tool_call_id == request.call_id
                        && tool_name == request.tool_name
                }
            }
        },
{
    approval_found(before.approvals@, request.call_id@);
    let i = runtime::approval_index(before.approvals@, request.call_id@);
    if result is Waiting {
        assert(after.approvals@[i].request.call_id@ == request.call_id@);
    }
}

/// A decision is taken exactly where the call waits in a run that is not to stop. Whoever polls then
/// learns that decision, with its reason where there is one; a second decision is not taken, and the
/// other calls stay as they are.
pub proof fn a_decision_is_taken_once(
    before: RunRecord,
    decided: RunRecord,
    after: RunRecord,
    call_id: &str,
    decision: ApprovalDecision,
    reason: Option<String>,
    taken: bool,
    learned: Option<ExternalApprovalOutcome>,
)
    requires
        before.well_formed(),
        exists|record: &mut RunRecord|
            *record == before && *final(record) == decided && #[trigger] call_ensures(
                RunRecord::decide,
                (record, call_id, decision, reason),
                taken,
            ),
        exists|record: &mut RunRecord|
            *record == decided && *final(record) == after && #[trigger] call_ensures(
                RunRecord::poll_approval,
                (record, call_id),
                learned,
            ),
    ensures
        taken <==> !before.cancel && waits(before, call_id@),
        !taken ==> decided.approvals@ == before.approvals@,
        taken ==> {
            &&& decision == ApprovalDecision::Grant ==> learned == Some(
                ExternalApprovalOutcome::Granted { actor: GrantActor::Daemon },
            )
            &&& decision == ApprovalDecision::Deny ==> (learned matches Some(
                ExternalApprovalOutcome::Denied { actor, reason: told },
            ) && actor == GrantActor::Daemon && (reason matches Some(words) ==> told
                == OutsideDenial::Given(words)) && (reason is None ==> told
                == OutsideDenial::ByClient))
            &&& !waits(decided, call_id@)
            &&& decided.approvals@.len() == before.approvals@.len()
            &&& forall|j: int|
                0 <= j < before.approvals@.len() && (
                #[trigger] before.approvals@[j]).request.call_id@ != call_id@
                    ==> decided.approvals@[j] == before.approvals@[j]
        },
        decided.status == before.status,
        decided.events == before.events,
        decided.cancel == before.cancel,
{
    approval_found(before.approvals@, call_id@);
    approval_found(decided.approvals@, call_id@);
    let i = runtime::approval_index(before.approvals@, call_id@);
    let k = runtime::approval_index(decided.approvals@, call_id@);
    if taken {
        assert(before.approvals@[i].decision is None);
        assert(decided.approvals@[i].request.call_id@ == call_id@);
        assert forall|j: int|
            0 <= j < decided.approvals@.len() && (
            #[trigger] decided.approvals@[j]).request.call_id@ == call_id@ implies j == i by {
            assert(before.approvals@[j].request.call_id@ == call_id@);
        }
        assert(k == i);
    }
    if waits(before, call_id@) {
        let j = choose|j: int|
            0 <= j < before.approvals@.len() && (#[trigger] before.approvals@[j]).request.call_id@
                == call_id@ && before.approvals@[j].decision is None;
        assert(j == i);
    }
}

/// Whoever waits for a decision on a call is told to give up where the run is to stop or has ended,
/// and otherwise goes on waiting as long as nobody has decided.
pub proof fn a_wait_ends_with_the_run(
    before: RunRecord,
    after: RunRecord,
    call_id: &str,
    learned: Option<ExternalApprovalOutcome>,
)
    requires
        before.well_formed(),
        waits(before, call_id@),
        exists|record: &mut RunRecord|
            *record == before && *final(record) == after && #[trigger] call_ensures(
                RunRecord::poll_approval,
                (record, call_id),
                learned,
            ),
    ensures
        before.cancel ==> learned == Some(
            ExternalApprovalOutcome::Denied {
                actor: GrantActor::Daemon,
                reason: OutsideDenial::RunCanceled,
            },
        ),
        !before.cancel && before.status.state != RunStateName::Running ==> learned == Some(
            ExternalApprovalOutcome::Denied {
                actor: GrantActor::Daemon,
                reason: OutsideDenial::RunInactive,
            },
        ),
        !before.cancel && before.status.state == RunStateName::Running ==> learned is None
            && after.approvals@ == before.approvals@,
{
    approval_found(before.approvals@, call_id@);
    let i = runtime::approval_index(before.approvals@, call_id@);
    let j = choose|j: int|
        0 <= j < before.approvals@.len() && (#[trigger] before.approvals@[j]).request.call_id@
            == call_id@ && before.approvals@[j].decision is None;
    assert(j == i);
}

proof fn undecided_found(approvals: Seq<PendingApproval>)
    ensures
        ({
            let i = runtime::undecided_index(approvals);
            &&& 0 <= i <= approvals.len()
            &&& i < approvals.len() ==> approvals[i].decision is None
            &&& forall|j: int| 0 <= j < i ==> (#[trigger] approvals[j]).decision is Some
        }),
    decreases approvals.len(),
{
    if approvals.len() > 0 && approvals[0].decision is Some {
        let rest = approvals.drop_first();
        undecided_found(rest);
        let i = runtime::undecided_index(approvals);
        assert forall|j: int| 0 <= j < i implies (#[trigger] approvals[j]).decision is Some by {
            if j > 0 {
                assert(approvals[j] == rest[j - 1]);
            }
        }
    }
}

/// A call is shown as waiting exactly where one waits in a run that goes on and is not to stop, and
/// the one that is shown is the first that waits, as it was asked for.
pub proof fn the_first_waiting_call_is_shown(
    record: &RunRecord,
    shown: Option<PendingApprovalSnapshot>,
)
    requires
        call_ensures(RunRecord::pending_approval, (record,), shown),
    ensures
        shown is Some <==> !record.cancel && record.status.state == RunStateName::Running && exists|
            i: int,
        |
            0 <= i < record.approvals@.len() && (#[trigger] record.approvals@[i]).decision is None,
        shown matches Some(told) ==> exists|i: int|
            0 <= i < record.approvals@.len() && (#[trigger] record.approvals@[i]).decision is None
                && told.tool_call_id == record.approvals@[i].request.call_id && told.tool_name
                == record.approvals@[i].request.tool_name && told.effect
                == record.approvals@[i].request.effect && told.reason
                == Some(record.approvals@[i].request.reason) && forall|j: int|
                0 <= j < i ==> (#[trigger] record.approvals@[j]).decision is Some,
{
    undecided_found(record.approvals@);
    let i = runtime::undecided_index(record.approvals@);
    if i < record.approvals@.len() {
        assert(record.approvals@[i].decision is None);
    }
}

/// A run that ends has the state, the answer and the error that it ends with; its decisions stay, and
/// nothing waits in it any more.
pub proof fn an_ended_run_keeps_its_decisions(
    before: RunRecord,
    after: RunRecord,
    status: RunStatus,
)
    requires
        exists|record: &mut RunRecord|
            *record == before && *final(record) == after && #[trigger] call_ensures(
                RunRecord::complete,
                (record, status),
                (),
            ),
    ensures
        after.status == status,
        after.run_id == before.run_id,
        after.session_id == before.session_id,
        after.ledger_path == before.ledger_path,
        after.events == before.events,
        after.cancel == before.cancel,
        forall|i: int|
            0 <= i < after.approvals@.len() ==> (#[trigger] after.approvals@[i]).decision is Some,
        forall|i: int|
            0 <= i < before.approvals@.len() && (#[trigger] before.approvals@[i]).decision is Some
                ==> after.approvals@.contains(before.approvals@[i]),
        after.approvals@.len() <= before.approvals@.len(),
{
    let decided = |p: PendingApproval| p.decision is Some;
    before.approvals@.lemma_filter_len(decided);
    assert forall|i: int| 0 <= i < after.approvals@.len() implies (
    #[trigger] after.approvals@[i]).decision is Some by {
        before.approvals@.lemma_filter_pred(decided, i);
    }
    assert forall|i: int|
        0 <= i < before.approvals@.len() && (#[trigger] before.approvals@[i]).decision
            is Some implies after.approvals@.contains(before.approvals@[i]) by {
        before.approvals@.lemma_filter_contains(decided, i);
    }
}

} // verus!
