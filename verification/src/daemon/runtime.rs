//! The runs that the daemon knows, and who may start, stop and steer them.

use crate::app::session::{ApprovalRequest, AssistantDeltaEvent};
use crate::daemon::events::{self, EventBuffer};
use crate::daemon::protocol::{
    self, ApprovalDecision, PendingApprovalSnapshot, RunStateName, StreamEvent,
};
use crate::daemon::DaemonPaths;
use crate::error::AppError;
use crate::tool_catalog::{self, EffectClass};
use crate::{error, text};
use vstd::prelude::*;

verus! {

/// The most runs that are kept after their end.
pub const MAX_TERMINAL_RUNS: usize = 32;

/// Who approved a call from outside its run.
#[derive(Clone, Copy, Debug, PartialEq, Eq, Structural)]
pub enum GrantActor {
    Daemon,
    /// An earlier approval that holds for the whole session.
    SessionGrant,
}

/// The name under which an approval from outside is stored.
pub open spec fn grant_actor_text(actor: GrantActor) -> Seq<char> {
    match actor {
        GrantActor::Daemon => "daemon"@,
        GrantActor::SessionGrant => "session_grant"@,
    }
}

impl GrantActor {
    pub fn as_str(self) -> (result: &'static str)
        ensures
            result@ == grant_actor_text(self),
    {
        match self {
            GrantActor::Daemon => "daemon",
            GrantActor::SessionGrant => "session_grant",
        }
    }
}

/// Why a call was not approved from outside its run.
#[derive(Debug, PartialEq, Eq)]
pub enum OutsideDenial {
    RunCanceled,
    RunInactive,
    /// The client gave a reason.
    Given(String),
    /// The client gave none.
    ByClient,
}

/// A reason in words.
pub open spec fn outside_denial_text(reason: OutsideDenial) -> Seq<char> {
    match reason {
        OutsideDenial::RunCanceled => "run canceled"@,
        OutsideDenial::RunInactive => "run is no longer active"@,
        OutsideDenial::Given(words) => words@,
        OutsideDenial::ByClient => "approval denied by daemon client"@,
    }
}

impl OutsideDenial {
    /// The reason in words.
    pub fn message(&self) -> (result: String)
        ensures
            result@ == outside_denial_text(*self),
    {
        match self {
            OutsideDenial::RunCanceled => "run canceled".to_owned(),
            OutsideDenial::RunInactive => "run is no longer active".to_owned(),
            OutsideDenial::Given(words) => words.clone(),
            OutsideDenial::ByClient => "approval denied by daemon client".to_owned(),
        }
    }
}

/// What was decided on a call from outside its run. It is the daemon that denies.
#[derive(Debug, PartialEq, Eq)]
pub enum ExternalApprovalOutcome {
    Granted { actor: GrantActor },
    Denied { actor: GrantActor, reason: OutsideDenial },
}

impl Clone for OutsideDenial {
    fn clone(&self) -> (result: Self)
        ensures
            result == *self,
    {
        match self {
            OutsideDenial::RunCanceled => OutsideDenial::RunCanceled,
            OutsideDenial::RunInactive => OutsideDenial::RunInactive,
            OutsideDenial::Given(words) => OutsideDenial::Given(words.clone()),
            OutsideDenial::ByClient => OutsideDenial::ByClient,
        }
    }
}

impl Clone for ExternalApprovalOutcome {
    fn clone(&self) -> (result: Self)
        ensures
            result == *self,
    {
        match self {
            ExternalApprovalOutcome::Granted { actor } => ExternalApprovalOutcome::Granted {
                actor: *actor,
            },
            ExternalApprovalOutcome::Denied { actor, reason } => ExternalApprovalOutcome::Denied {
                actor: *actor,
                reason: reason.clone(),
            },
        }
    }
}

#[derive(Debug, PartialEq, Eq)]
pub struct RunStatus {
    pub state: RunStateName,
    pub final_answer: Option<String>,
    pub error: Option<String>,
}

impl Clone for RunStatus {
    fn clone(&self) -> (result: Self)
        ensures
            result == *self,
    {
        RunStatus {
            state: self.state,
            final_answer: self.final_answer.clone(),
            error: self.error.clone(),
        }
    }
}

/// A call that waits for a decision, or the decision that it got.
#[derive(Debug, PartialEq, Eq)]
pub struct PendingApproval {
    pub session_id: String,
    pub request: ApprovalRequest,
    pub decision: Option<ExternalApprovalOutcome>,
}

/// What a reader of a run is shown of a call that waits.
pub open spec fn snapshot_of(request: ApprovalRequest) -> PendingApprovalSnapshot {
    PendingApprovalSnapshot {
        run_id: request.run_id,
        tool_call_id: request.call_id,
        tool_name: request.tool_name,
        effect: request.effect,
        reason: Some(request.reason),
        input_preview: request.input_preview,
        approval_preview: request.approval_preview,
        diff_preview: request.diff_preview,
    }
}

impl PendingApproval {
    pub fn new(session_id: String, request: ApprovalRequest) -> (result: Self)
        ensures
            result == (PendingApproval { session_id, request, decision: None }),
    {
        PendingApproval { session_id, request, decision: None }
    }

    /// What a reader of the run is shown of the call.
    pub fn snapshot(&self) -> (result: PendingApprovalSnapshot)
        ensures
            result == snapshot_of(self.request),
    {
        let request = &self.request;
        PendingApprovalSnapshot {
            run_id: request.run_id.clone(),
            tool_call_id: request.call_id.clone(),
            tool_name: request.tool_name.clone(),
            effect: request.effect,
            reason: Some(request.reason.clone()),
            input_preview: request.input_preview.clone(),
            approval_preview: request.approval_preview.clone(),
            diff_preview: request.diff_preview.clone(),
        }
    }
}

/// What those who follow a run are told of a call that waits.
pub open spec fn requested_event(request: ApprovalRequest) -> StreamEvent {
    StreamEvent::ApprovalRequested {
        run_id: request.run_id,
        tool_call_id: request.call_id,
        tool_name: request.tool_name,
        effect: request.effect,
        reason: request.reason,
        diff_preview: request.diff_preview,
        approval_preview: request.approval_preview,
    }
}

/// What those who follow a run are told of a call that waits.
pub fn approval_requested_event(request: &ApprovalRequest) -> (result: StreamEvent)
    ensures
        result == requested_event(*request),
{
    StreamEvent::ApprovalRequested {
        run_id: request.run_id.clone(),
        tool_call_id: request.call_id.clone(),
        tool_name: request.tool_name.clone(),
        effect: request.effect,
        reason: request.reason.clone(),
        diff_preview: request.diff_preview.clone(),
        approval_preview: request.approval_preview.clone(),
    }
}

/// The index of the first call with this identifier, or the length.
pub open spec fn approval_index(approvals: Seq<PendingApproval>, call_id: Seq<char>) -> int
    decreases approvals.len(),
{
    if approvals.len() == 0 {
        0
    } else if approvals[0].request.call_id@ == call_id {
        0
    } else {
        1 + approval_index(approvals.drop_first(), call_id)
    }
}

/// The index of the first call that has no decision, or the length.
pub open spec fn undecided_index(approvals: Seq<PendingApproval>) -> int
    decreases approvals.len(),
{
    if approvals.len() == 0 {
        0
    } else if approvals[0].decision is None {
        0
    } else {
        1 + undecided_index(approvals.drop_first())
    }
}

proof fn approval_index_is_first(approvals: Seq<PendingApproval>, call_id: Seq<char>, i: int)
    requires
        0 <= i <= approvals.len(),
        forall|j: int| 0 <= j < i ==> (#[trigger] approvals[j]).request.call_id@ != call_id,
        i < approvals.len() ==> approvals[i].request.call_id@ == call_id,
    ensures
        approval_index(approvals, call_id) == i,
    decreases approvals.len(),
{
    if i > 0 {
        let rest = approvals.drop_first();
        assert(approvals[0].request.call_id@ != call_id);
        assert forall|j: int| 0 <= j < i - 1 implies (#[trigger] rest[j]).request.call_id@
            != call_id by {
            assert(rest[j] == approvals[j + 1]);
        }
        approval_index_is_first(rest, call_id, i - 1);
    }
}

proof fn undecided_index_is_first(approvals: Seq<PendingApproval>, i: int)
    requires
        0 <= i <= approvals.len(),
        forall|j: int| 0 <= j < i ==> (#[trigger] approvals[j]).decision is Some,
        i < approvals.len() ==> approvals[i].decision is None,
    ensures
        undecided_index(approvals) == i,
    decreases approvals.len(),
{
    if i > 0 {
        let rest = approvals.drop_first();
        assert(approvals[0].decision is Some);
        assert forall|j: int| 0 <= j < i - 1 implies (#[trigger] rest[j]).decision is Some by {
            assert(rest[j] == approvals[j + 1]);
        }
        undecided_index_is_first(rest, i - 1);
    }
}

/// The calls that have a decision, in their order.
pub open spec fn decided_only(approvals: Seq<PendingApproval>) -> Seq<PendingApproval> {
    approvals.filter(|p: PendingApproval| p.decision is Some)
}

/// A run that the daemon knows.
#[derive(Debug)]
pub struct RunRecord {
    pub run_id: String,
    pub session_id: String,
    pub ledger_path: String,
    pub cancel: bool,
    pub status: RunStatus,
    pub events: EventBuffer,
    /// The calls that wait or waited for a decision; no two have the same identifier.
    pub approvals: Vec<PendingApproval>,
}

/// What comes of asking for a decision.
#[derive(Debug, PartialEq, Eq)]
pub enum ApprovalStart {
    /// The request does not belong to the run.
    Refused(AppError),
    /// The decision stands already.
    Decided(ExternalApprovalOutcome),
    /// A client has to decide.
    Waiting,
}

/// What comes of asking to cancel a run.
#[derive(Clone, Copy, Debug, PartialEq, Eq, Structural)]
pub enum CancelOutcome {
    Accepted,
    AlreadyRequested,
    NotActive,
}

/// Whether a run differs from what it was by a request to stop: the first one is passed on, and
/// the calls that wait are given up; later ones, and those to a run that has ended, change nothing.
pub open spec fn cancels(before: RunRecord, after: RunRecord, outcome: CancelOutcome) -> bool {
    match before.status.state {
        RunStateName::Running => {
            &&& outcome == CancelOutcome::Accepted
            &&& after == (RunRecord {
                cancel: true,
                status: RunStatus { state: RunStateName::CancelRequested, ..before.status },
                events: after.events,
                approvals: after.approvals,
                ..before
            })
            &&& after.approvals@ == Seq::<PendingApproval>::empty()
            &&& after.events@ == events::pushed(
                before.events@,
                StreamEvent::Canceled { run_id: before.run_id },
            )
        },
        RunStateName::CancelRequested => outcome == CancelOutcome::AlreadyRequested && after
            == before,
        _ => outcome == CancelOutcome::NotActive && after == before,
    }
}

/// Asking a run to stop a second time is accepted and changes nothing.
pub proof fn canceling_twice_is_canceling_once(
    before: RunRecord,
    once: RunRecord,
    twice: RunRecord,
    first: CancelOutcome,
    second: CancelOutcome,
)
    requires
        cancels(before, once, first),
        cancels(once, twice, second),
    ensures
        twice == once,
        first == CancelOutcome::Accepted ==> second == CancelOutcome::AlreadyRequested,
        first == CancelOutcome::NotActive ==> second == CancelOutcome::NotActive && once == before,
{
}

/// After a run was asked to stop, no call of it is approved any more: one that waits is denied,
/// and a new one is denied at once.
pub proof fn a_canceled_run_gets_no_approval(
    before: RunRecord,
    after: RunRecord,
    request: ApprovalRequest,
    session_granted: bool,
)
    requires
        before.status.state == RunStateName::Running,
        cancels(before, after, CancelOutcome::Accepted),
    ensures
        standing_decision(after, request, session_granted) == Some(
            ExternalApprovalOutcome::Denied { actor: GrantActor::Daemon, reason: OutsideDenial::RunCanceled },
        ),
        current_decision(after, request.call_id@) == Some(
            ExternalApprovalOutcome::Denied { actor: GrantActor::Daemon, reason: OutsideDenial::RunCanceled },
        ),
{
}

/// The decision on a request that needs no client, if there is one.
pub open spec fn standing_decision(
    record: RunRecord,
    request: ApprovalRequest,
    session_granted: bool,
) -> Option<ExternalApprovalOutcome> {
    if record.cancel {
        Some(ExternalApprovalOutcome::Denied { actor: GrantActor::Daemon, reason: OutsideDenial::RunCanceled })
    } else if record.status.state != RunStateName::Running {
        Some(ExternalApprovalOutcome::Denied { actor: GrantActor::Daemon, reason: OutsideDenial::RunInactive })
    } else if request.tool_name@ == tool_catalog::SHELL_EXEC@ && request.effect
        == EffectClass::ExternalSideEffect && session_granted {
        Some(ExternalApprovalOutcome::Granted { actor: GrantActor::SessionGrant })
    } else {
        None
    }
}

/// Whether a client has to decide on a request: it belongs to the run, and no decision stands.
pub open spec fn asks_a_client(
    record: RunRecord,
    request: ApprovalRequest,
    session_granted: bool,
) -> bool {
    request.run_id@ == record.run_id@ && standing_decision(record, request, session_granted) is None
}

/// Whether a run differs from what it was by a request for a decision, and what came of it.
pub open spec fn approval_begun(
    before: RunRecord,
    request: ApprovalRequest,
    session_granted: bool,
    after: RunRecord,
    result: ApprovalStart,
) -> bool {
    if request.run_id@ != before.run_id@ {
        &&& result matches ApprovalStart::Refused(AppError::RunFailed(words)) && words@
            == "approval request does not match daemon run"@
        &&& after == before
    } else {
        match standing_decision(before, request, session_granted) {
            Some(outcome) => result == ApprovalStart::Decided(outcome) && after == before,
            None => {
                let i = approval_index(before.approvals@, request.call_id@);
                let pending = PendingApproval {
                    session_id: before.session_id,
                    request,
                    decision: None,
                };
                &&& result is Waiting
                &&& after == (RunRecord {
                    events: after.events,
                    approvals: after.approvals,
                    ..before
                })
                &&& after.events@ == events::pushed(before.events@, requested_event(request))
                &&& after.approvals@ == (if i < before.approvals@.len() {
                    before.approvals@.update(i, pending)
                } else {
                    before.approvals@.push(pending)
                })
            },
        }
    }
}

/// The decision on a call that waits, if there is one by now.
pub open spec fn current_decision(record: RunRecord, call_id: Seq<char>) -> Option<
    ExternalApprovalOutcome,
> {
    let i = approval_index(record.approvals@, call_id);
    if i < record.approvals@.len() && record.approvals@[i].decision is Some {
        record.approvals@[i].decision
    } else if record.cancel {
        Some(ExternalApprovalOutcome::Denied { actor: GrantActor::Daemon, reason: OutsideDenial::RunCanceled })
    } else if record.status.state != RunStateName::Running {
        Some(ExternalApprovalOutcome::Denied { actor: GrantActor::Daemon, reason: OutsideDenial::RunInactive })
    } else {
        None
    }
}

impl RunRecord {
    /// What holds of every run: its events are without gaps, and no two calls have the same
    /// identifier.
    pub open spec fn well_formed(self) -> bool {
        &&& self.events.well_formed()
        &&& forall|i: int, j: int|
            0 <= i < j < self.approvals@.len() ==> (#[trigger] self.approvals@[i]).request.call_id@
                != (#[trigger] self.approvals@[j]).request.call_id@
    }

    pub fn new(run_id: String, session_id: String, ledger_path: String) -> (result: Self)
        ensures
            result.well_formed(),
            result.run_id == run_id,
            result.session_id == session_id,
            result.ledger_path == ledger_path,
            !result.cancel,
            result.status == (RunStatus {
                state: RunStateName::Running,
                final_answer: None,
                error: None,
            }),
            result.events@ == events::window_of(Seq::empty()),
            result.events.next_offset == 0,
            result.approvals@ == Seq::<PendingApproval>::empty(),
    {
        RunRecord {
            run_id,
            session_id,
            ledger_path,
            cancel: false,
            status: RunStatus { state: RunStateName::Running, final_answer: None, error: None },
            events: EventBuffer::new(),
            approvals: Vec::new(),
        }
    }

    /// Tells those who follow the run.
    pub fn push_event(&mut self, event: StreamEvent)
        requires
            old(self).well_formed(),
            old(self).events.next_offset < u64::MAX,
        ensures
            final(self).well_formed(),
            *final(self) == (RunRecord { events: final(self).events, ..*old(self) }),
            final(self).events@ == events::pushed(old(self).events@, event),
            final(self).events.next_offset == old(self).events.next_offset + 1,
    {
        self.events.push(event);
    }

    /// Tells those who follow the run of an entry of its ledger, given as JSON.
    pub fn push_recorded_event(&mut self, record: String)
        requires
            old(self).well_formed(),
            old(self).events.next_offset < u64::MAX,
        ensures
            final(self).well_formed(),
            *final(self) == (RunRecord { events: final(self).events, ..*old(self) }),
            final(self).events@ == events::pushed(
                old(self).events@,
                StreamEvent::Ledger { record },
            ),
    {
        self.push_event(StreamEvent::Ledger { record });
    }

    /// Tells those who follow the run of a piece of the answer.
    pub fn push_assistant_delta(&mut self, delta: AssistantDeltaEvent)
        requires
            old(self).well_formed(),
            old(self).events.next_offset < u64::MAX,
        ensures
            final(self).well_formed(),
            *final(self) == (RunRecord { events: final(self).events, ..*old(self) }),
            final(self).events@ == events::pushed(
                old(self).events@,
                StreamEvent::AssistantDelta {
                    run_id: delta.run_id,
                    turn_id: delta.turn_id,
                    step: delta.step,
                    delta_index: delta.delta_index,
                    text: delta.text,
                },
            ),
    {
        self.push_event(
            StreamEvent::AssistantDelta {
                run_id: delta.run_id,
                turn_id: delta.turn_id,
                step: delta.step,
                delta_index: delta.delta_index,
                text: delta.text,
            },
        );
    }

    fn find_approval(&self, call_id: &str) -> (result: usize)
        ensures
            result == approval_index(self.approvals@, call_id@),
            result <= self.approvals@.len(),
            result < self.approvals@.len() ==> self.approvals@[result as int].request.call_id@
                == call_id@,
            forall|j: int|
                0 <= j < result ==> (#[trigger] self.approvals@[j]).request.call_id@ != call_id@,
    {
        let mut i: usize = 0;
        while i < self.approvals.len()
            invariant
                i <= self.approvals@.len(),
                forall|j: int|
                    0 <= j < i ==> (#[trigger] self.approvals@[j]).request.call_id@ != call_id@,
            decreases self.approvals@.len() - i,
        {
            if text::same(self.approvals[i].request.call_id.as_str(), call_id) {
                proof {
                    approval_index_is_first(self.approvals@, call_id@, i as int);
                }
                return i;
            }
            i = i + 1;
        }
        proof {
            approval_index_is_first(self.approvals@, call_id@, i as int);
        }
        i
    }

    /// The call that waits for a decision, if the run can still use one.
    pub fn pending_approval(&self) -> (result: Option<PendingApprovalSnapshot>)
        ensures
            result == (if self.cancel || self.status.state != RunStateName::Running
                || undecided_index(self.approvals@) >= self.approvals@.len() {
                None
            } else {
                Some(
                    snapshot_of(self.approvals@[undecided_index(self.approvals@)].request),
                )
            }),
    {
        if self.cancel || self.status.state != RunStateName::Running {
            return None;
        }
        let mut i: usize = 0;
        while i < self.approvals.len()
            invariant
                i <= self.approvals@.len(),
                !self.cancel,
                self.status.state == RunStateName::Running,
                forall|j: int| 0 <= j < i ==> (#[trigger] self.approvals@[j]).decision is Some,
            decreases self.approvals@.len() - i,
        {
            if self.approvals[i].decision.is_none() {
                proof {
                    undecided_index_is_first(self.approvals@, i as int);
                }
                return Some(self.approvals[i].snapshot());
            }
            i = i + 1;
        }
        proof {
            undecided_index_is_first(self.approvals@, i as int);
        }
        None
    }

    /// Asks for a decision on a call: it may stand already, else a client is told and has to
    /// decide.
    pub fn begin_approval(&mut self, request: ApprovalRequest, session_granted: bool) -> (result:
        ApprovalStart)
        requires
            old(self).well_formed(),
            asks_a_client(*old(self), request, session_granted) ==> old(self).events.next_offset
                < u64::MAX,
        ensures
            final(self).well_formed(),
            approval_begun(*old(self), request, session_granted, *final(self), result),
    {
        if !text::same(request.run_id.as_str(), self.run_id.as_str()) {
            return ApprovalStart::Refused(
                AppError::RunFailed("approval request does not match daemon run".to_owned()),
            );
        }
        if self.cancel {
            return ApprovalStart::Decided(
                ExternalApprovalOutcome::Denied { actor: GrantActor::Daemon, reason: OutsideDenial::RunCanceled },
            );
        }
        if self.status.state != RunStateName::Running {
            return ApprovalStart::Decided(
                ExternalApprovalOutcome::Denied { actor: GrantActor::Daemon, reason: OutsideDenial::RunInactive },
            );
        }
        if text::same(request.tool_name.as_str(), tool_catalog::SHELL_EXEC) && request.effect
            == EffectClass::ExternalSideEffect && session_granted {
            return ApprovalStart::Decided(
                ExternalApprovalOutcome::Granted { actor: GrantActor::SessionGrant },
            );
        }
        let i = self.find_approval(request.call_id.as_str());
        let event = approval_requested_event(&request);
        let pending = PendingApproval::new(self.session_id.clone(), request);
        if i < self.approvals.len() {
            self.approvals.set(i, pending);
        } else {
            self.approvals.push(pending);
        }
        self.push_event(event);
        ApprovalStart::Waiting
    }

    /// The decision on a call that waits, if there is one by now. A call of a run that was
    /// canceled or has ended is given up.
    pub fn poll_approval(&mut self, call_id: &str) -> (result: Option<ExternalApprovalOutcome>)
        requires
            old(self).well_formed(),
        ensures
            final(self).well_formed(),
            result == current_decision(*old(self), call_id@),
            ({
                let i = approval_index(old(self).approvals@, call_id@);
                let gone = i < old(self).approvals@.len() && old(self).approvals@[i].decision is None
                    && (old(self).cancel || old(self).status.state != RunStateName::Running);
                &&& *final(self) == (RunRecord {
                    approvals: final(self).approvals,
                    ..*old(self)
                })
                &&& final(self).approvals@ == (if gone {
                    old(self).approvals@.remove(i)
                } else {
                    old(self).approvals@
                })
            }),
    {
        let i = self.find_approval(call_id);
        let known = i < self.approvals.len();
        if known {
            if let Some(outcome) = &self.approvals[i].decision {
                return Some(outcome.clone());
            }
        }
        if !self.cancel && self.status.state == RunStateName::Running {
            return None;
        }
        if known {
            let ghost before = self.approvals@;
            let _ = self.approvals.remove(i);
            assert(self.approvals@ == before.remove(i as int));
        }
        if self.cancel {
            Some(ExternalApprovalOutcome::Denied { actor: GrantActor::Daemon, reason: OutsideDenial::RunCanceled })
        } else {
            Some(ExternalApprovalOutcome::Denied { actor: GrantActor::Daemon, reason: OutsideDenial::RunInactive })
        }
    }

    /// Decides on a call that waits; false where there is none to decide on.
    pub fn decide(
        &mut self,
        call_id: &str,
        decision: ApprovalDecision,
        reason: Option<String>,
    ) -> (result: bool)
        requires
            old(self).well_formed(),
        ensures
            final(self).well_formed(),
            ({
                let i = approval_index(old(self).approvals@, call_id@);
                let outcome = match (decision, reason) {
                    (ApprovalDecision::Grant, _) => ExternalApprovalOutcome::Granted {
                        actor: GrantActor::Daemon,
                    },
                    (ApprovalDecision::Deny, Some(words)) => ExternalApprovalOutcome::Denied {
                        actor: GrantActor::Daemon,
                        reason: OutsideDenial::Given(words),
                    },
                    (ApprovalDecision::Deny, None) => ExternalApprovalOutcome::Denied {
                        actor: GrantActor::Daemon,
                        reason: OutsideDenial::ByClient,
                    },
                };
                &&& result == (!old(self).cancel && i < old(self).approvals@.len() && old(
                    self,
                ).approvals@[i].decision is None)
                &&& *final(self) == (RunRecord {
                    approvals: final(self).approvals,
                    ..*old(self)
                })
                &&& final(self).approvals@ == (if result {
                    old(self).approvals@.update(
                        i,
                        PendingApproval {
                            decision: Some(outcome),
                            ..old(self).approvals@[i]
                        },
                    )
                } else {
                    old(self).approvals@
                })
            }),
    {
        if self.cancel {
            return false;
        }
        let i = self.find_approval(call_id);
        if i >= self.approvals.len() || self.approvals[i].decision.is_some() {
            return false;
        }
        let outcome = match decision {
            ApprovalDecision::Grant => ExternalApprovalOutcome::Granted {
                actor: GrantActor::Daemon,
            },
            ApprovalDecision::Deny => match reason {
                Some(words) => ExternalApprovalOutcome::Denied {
                    actor: GrantActor::Daemon,
                    reason: OutsideDenial::Given(words),
                },
                None => ExternalApprovalOutcome::Denied { actor: GrantActor::Daemon, reason: OutsideDenial::ByClient },
            },
        };
        self.approvals[i].decision = Some(outcome);
        true
    }

    /// Asks the run to stop. The first request is passed on, and the calls that wait are given up;
    /// later ones change nothing.
    pub fn request_cancel(&mut self) -> (result: CancelOutcome)
        requires
            old(self).well_formed(),
            old(self).status.state == RunStateName::Running ==> old(self).events.next_offset
                < u64::MAX,
        ensures
            final(self).well_formed(),
            cancels(*old(self), *final(self), result),
    {
        match self.status.state {
            RunStateName::Running => {
                self.status.state = RunStateName::CancelRequested;
                self.cancel = true;
                let run_id = self.run_id.clone();
                self.push_event(StreamEvent::Canceled { run_id });
                self.approvals.clear();
                CancelOutcome::Accepted
            },
            RunStateName::CancelRequested => CancelOutcome::AlreadyRequested,
            _ => CancelOutcome::NotActive,
        }
    }

    /// Ends the run. The calls that wait are given up; those with a decision keep it.
    pub fn complete(&mut self, status: RunStatus)
        requires
            old(self).well_formed(),
        ensures
            final(self).well_formed(),
            *final(self) == (RunRecord { status, approvals: final(self).approvals, ..*old(self) }),
            final(self).approvals@ == decided_only(old(self).approvals@),
    {
        self.status = status;
        let ghost all = self.approvals@;
        let ghost chosen = |p: PendingApproval| p.decision is Some;
        let mut kept: Vec<PendingApproval> = Vec::new();
        let mut waiting: Vec<PendingApproval> = Vec::new();
        std::mem::swap(&mut waiting, &mut self.approvals);
        let mut i: usize = 0;
        while i < waiting.len()
            invariant
                i <= waiting@.len(),
                waiting@ == all,
                chosen == (|p: PendingApproval| p.decision is Some),
                kept@ == all.take(i as int).filter(chosen),
            decreases waiting@.len() - i,
        {
            proof {
                reveal(Seq::filter);
            }
            assert(all.take(i + 1).drop_last() =~= all.take(i as int));
            if waiting[i].decision.is_some() {
                let pending = PendingApproval {
                    session_id: waiting[i].session_id.clone(),
                    request: waiting[i].request.clone(),
                    decision: waiting[i].decision.clone(),
                };
                kept.push(pending);
            }
            i = i + 1;
        }
        assert(all.take(i as int) =~= all);
        self.approvals = kept;
        proof {
            filtered_ids_differ(all);
        }
    }
}

/// Leaving calls out keeps their identifiers different.
proof fn filtered_ids_differ(approvals: Seq<PendingApproval>)
    requires
        forall|i: int, j: int|
            0 <= i < j < approvals.len() ==> (#[trigger] approvals[i]).request.call_id@ != (
            #[trigger] approvals[j]).request.call_id@,
    ensures
        ({
            let kept = decided_only(approvals);
            &&& forall|i: int, j: int|
                0 <= i < j < kept.len() ==> (#[trigger] kept[i]).request.call_id@ != (
                #[trigger] kept[j]).request.call_id@
            &&& forall|i: int|
                0 <= i < kept.len() ==> exists|k: int|
                    0 <= k < approvals.len() && #[trigger] approvals[k] == #[trigger] kept[i]
        }),
    decreases approvals.len(),
{
    reveal(Seq::filter);
    if approvals.len() > 0 {
        let front = approvals.drop_last();
        assert forall|i: int, j: int| 0 <= i < j < front.len() implies (
        #[trigger] front[i]).request.call_id@ != (#[trigger] front[j]).request.call_id@ by {
            assert(front[i] == approvals[i] && front[j] == approvals[j]);
        }
        filtered_ids_differ(front);
        let kept_front = decided_only(front);
        let kept = decided_only(approvals);
        assert forall|i: int| 0 <= i < kept.len() implies exists|k: int|
            0 <= k < approvals.len() && #[trigger] approvals[k] == #[trigger] kept[i] by {
            if i < kept_front.len() {
                let k = choose|k: int| 0 <= k < front.len() && #[trigger] front[k] == kept_front[i];
                assert(approvals[k] == kept[i]);
            } else {
                assert(approvals[approvals.len() - 1] == kept[i]);
            }
        }
        assert forall|i: int, j: int| 0 <= i < j < kept.len() implies (
        #[trigger] kept[i]).request.call_id@ != (#[trigger] kept[j]).request.call_id@ by {
            if j < kept_front.len() {
                assert(kept[i] == kept_front[i] && kept[j] == kept_front[j]);
            } else {
                let k = choose|k: int| 0 <= k < front.len() && #[trigger] front[k] == kept_front[i];
                assert(approvals[k] == kept[i]);
                assert(approvals[approvals.len() - 1] == kept[j]);
            }
        }
    }
}

/// Why a run was not admitted.
#[derive(Debug, PartialEq, Eq)]
pub enum RunAdmissionError {
    ShuttingDown,
    SessionActive { run_id: String },
}

/// Why issue preparation was not admitted.
#[derive(Clone, Copy, Debug, PartialEq, Eq, Structural)]
pub enum IssuePrepAdmissionError {
    ShuttingDown,
    Active,
}

/// What comes of asking the daemon to shut down.
#[derive(Clone, Copy, Debug, PartialEq, Eq, Structural)]
pub enum ShutdownIfIdleDecision {
    Shutdown,
    RefusedActive,
    AlreadyShuttingDown,
}

/// Everything that the daemon keeps while it runs.
#[derive(Debug)]
pub struct DaemonRuntime {
    pub paths: DaemonPaths,
    /// The runs that are on their way and those that ended last; no two have the same identifier.
    pub runs: Vec<RunRecord>,
    /// The runs that have ended, in the order in which they did.
    pub terminal_runs: Vec<String>,
    pub shutdown_accepted: bool,
    pub issue_prep_active: bool,
    /// The sessions in which the shell may run without being asked for again.
    pub session_tool_grants: Vec<String>,
}

/// The index of the first run with this identifier, or the length.
pub open spec fn run_index(runs: Seq<RunRecord>, run_id: Seq<char>) -> int
    decreases runs.len(),
{
    if runs.len() == 0 {
        0
    } else if runs[0].run_id@ == run_id {
        0
    } else {
        1 + run_index(runs.drop_first(), run_id)
    }
}

/// Whether a run with this identifier is known.
pub open spec fn has_run(runs: Seq<RunRecord>, run_id: Seq<char>) -> bool {
    exists|i: int| 0 <= i < runs.len() && (#[trigger] runs[i]).run_id@ == run_id
}

/// Whether a run is on its way in this session.
pub open spec fn runs_in_session(record: RunRecord, session_id: Seq<char>) -> bool {
    record.session_id@ == session_id && protocol::is_active(record.status.state)
}

/// The index of the first run that is on its way in this session, or the length.
pub open spec fn active_index(runs: Seq<RunRecord>, session_id: Seq<char>) -> int
    decreases runs.len(),
{
    if runs.len() == 0 {
        0
    } else if runs_in_session(runs[0], session_id) {
        0
    } else {
        1 + active_index(runs.drop_first(), session_id)
    }
}

/// Whether any run is on its way.
pub open spec fn any_active(runs: Seq<RunRecord>) -> bool {
    exists|i: int| 0 <= i < runs.len() && protocol::is_active((#[trigger] runs[i]).status.state)
}

/// Whether a run has ended, as the daemon remembers it.
pub open spec fn remembers_end(terminal_runs: Seq<String>, run_id: Seq<char>) -> bool {
    exists|i: int| 0 <= i < terminal_runs.len() && (#[trigger] terminal_runs[i])@ == run_id
}

/// Whether a session has been given the shell.
pub open spec fn granted(grants: Seq<String>, session_id: Seq<char>) -> bool {
    exists|i: int| 0 <= i < grants.len() && (#[trigger] grants[i])@ == session_id
}

proof fn run_index_is_first(runs: Seq<RunRecord>, run_id: Seq<char>, i: int)
    requires
        0 <= i <= runs.len(),
        forall|j: int| 0 <= j < i ==> (#[trigger] runs[j]).run_id@ != run_id,
        i < runs.len() ==> runs[i].run_id@ == run_id,
    ensures
        run_index(runs, run_id) == i,
    decreases runs.len(),
{
    if i > 0 {
        let rest = runs.drop_first();
        assert(runs[0].run_id@ != run_id);
        assert forall|j: int| 0 <= j < i - 1 implies (#[trigger] rest[j]).run_id@ != run_id by {
            assert(rest[j] == runs[j + 1]);
        }
        run_index_is_first(rest, run_id, i - 1);
    }
}

proof fn active_index_is_first(runs: Seq<RunRecord>, session_id: Seq<char>, i: int)
    requires
        0 <= i <= runs.len(),
        forall|j: int| 0 <= j < i ==> !runs_in_session(#[trigger] runs[j], session_id),
        i < runs.len() ==> runs_in_session(runs[i], session_id),
    ensures
        active_index(runs, session_id) == i,
    decreases runs.len(),
{
    if i > 0 {
        let rest = runs.drop_first();
        assert(!runs_in_session(runs[0], session_id));
        assert forall|j: int| 0 <= j < i - 1 implies !runs_in_session(
            #[trigger] rest[j],
            session_id,
        ) by {
            assert(rest[j] == runs[j + 1]);
        }
        active_index_is_first(rest, session_id, i - 1);
    }
}

/// Whether every run is whole.
pub open spec fn runs_whole(runs: Seq<RunRecord>) -> bool {
    forall|i: int| 0 <= i < runs.len() ==> (#[trigger] runs[i]).well_formed()
}

/// Whether no two runs have the same identifier.
pub open spec fn run_ids_differ(runs: Seq<RunRecord>) -> bool {
    forall|i: int, j: int|
        0 <= i < j < runs.len() ==> (#[trigger] runs[i]).run_id@ != (#[trigger] runs[j]).run_id@
}

/// Whether no session has two runs on their way.
pub open spec fn active_sessions_differ(runs: Seq<RunRecord>) -> bool {
    forall|i: int, j: int|
        0 <= i < j < runs.len() && protocol::is_active((#[trigger] runs[i]).status.state)
            && protocol::is_active((#[trigger] runs[j]).status.state) ==> runs[i].session_id@
            != runs[j].session_id@
}

/// Whether no run is remembered as ended twice.
pub open spec fn ends_differ(ends: Seq<String>) -> bool {
    forall|i: int, j: int|
        0 <= i < j < ends.len() ==> (#[trigger] ends[i])@ != (#[trigger] ends[j])@
}

/// Whether a run is known and no longer on its way.
pub open spec fn known_ended(runs: Seq<RunRecord>, run_id: Seq<char>) -> bool {
    exists|i: int|
        0 <= i < runs.len() && (#[trigger] runs[i]).run_id@ == run_id && !protocol::is_active(
            runs[i].status.state,
        )
}

/// Whether the ends that are remembered are those of known runs that are no longer on their way.
pub open spec fn ends_known(runs: Seq<RunRecord>, ends: Seq<String>) -> bool {
    forall|t: int| 0 <= t < ends.len() ==> known_ended(runs, (#[trigger] ends[t])@)
}

/// Whether one run was ended and the rest was left as it was.
pub open spec fn run_completed(before: RunRecord, after: RunRecord, status: RunStatus) -> bool {
    &&& after == (RunRecord { status, approvals: after.approvals, ..before })
    &&& after.approvals@ == decided_only(before.approvals@)
}

/// Why a run in a session is not admitted, if it is not.
pub open spec fn run_refusal(runtime: DaemonRuntime, session_id: Seq<char>) -> Option<
    RunAdmissionError,
> {
    let i = active_index(runtime.runs@, session_id);
    if runtime.shutdown_accepted {
        Some(RunAdmissionError::ShuttingDown)
    } else if i < runtime.runs@.len() {
        Some(RunAdmissionError::SessionActive { run_id: runtime.runs@[i].run_id })
    } else {
        None
    }
}

/// Why issue preparation is not admitted, if it is not.
pub open spec fn issue_prep_refusal(runtime: DaemonRuntime) -> Option<IssuePrepAdmissionError> {
    if runtime.shutdown_accepted {
        Some(IssuePrepAdmissionError::ShuttingDown)
    } else if runtime.issue_prep_active {
        Some(IssuePrepAdmissionError::Active)
    } else {
        None
    }
}

/// What comes of asking the daemon to shut down if it is idle, and the daemon after that.
pub open spec fn shut_down(runtime: DaemonRuntime) -> (ShutdownIfIdleDecision, DaemonRuntime) {
    if runtime.shutdown_accepted {
        (ShutdownIfIdleDecision::AlreadyShuttingDown, runtime)
    } else if runtime.issue_prep_active || any_active(runtime.runs@) {
        (ShutdownIfIdleDecision::RefusedActive, runtime)
    } else {
        (
            ShutdownIfIdleDecision::Shutdown,
            DaemonRuntime { shutdown_accepted: true, ..runtime },
        )
    }
}

/// A daemon that was shut down admits nothing any more, whatever its session or its identifier, and
/// a daemon that has something on its way is not shut down and refuses nothing on that account.
pub proof fn a_shutdown_admits_nothing(runtime: DaemonRuntime, session_id: Seq<char>)
    requires
        runtime.well_formed(),
    ensures
        ({
            let (decision, after) = shut_down(runtime);
            &&& decision != ShutdownIfIdleDecision::RefusedActive ==> {
                &&& run_refusal(after, session_id) == Some(RunAdmissionError::ShuttingDown)
                &&& issue_prep_refusal(after) == Some(IssuePrepAdmissionError::ShuttingDown)
                &&& shut_down(after) == (ShutdownIfIdleDecision::AlreadyShuttingDown, after)
            }
            &&& decision == ShutdownIfIdleDecision::RefusedActive ==> {
                &&& after == runtime
                &&& run_refusal(after, session_id) != Some(RunAdmissionError::ShuttingDown)
            }
        }),
{
}

/// A run that was admitted keeps the daemon from shutting down.
pub proof fn an_admitted_run_keeps_the_daemon_up(
    before: DaemonRuntime,
    after: DaemonRuntime,
    record: RunRecord,
)
    requires
        run_refusal(before, record.session_id@) is None,
        protocol::is_active(record.status.state),
        after == (DaemonRuntime { runs: after.runs, ..before }),
        after.runs@ == before.runs@.push(record),
    ensures
        shut_down(after) == (ShutdownIfIdleDecision::RefusedActive, after),
{
    assert(protocol::is_active(after.runs@[before.runs@.len() as int].status.state));
}

impl DaemonRuntime {
    /// What holds of the daemon at every moment: every run is whole, no two have the same
    /// identifier, no session has two runs on their way, at most so many runs are remembered as
    /// ended as the most, and each of those is known and no longer on its way.
    pub open spec fn well_formed(self) -> bool {
        &&& runs_whole(self.runs@)
        &&& run_ids_differ(self.runs@)
        &&& active_sessions_differ(self.runs@)
        &&& self.terminal_runs@.len() <= MAX_TERMINAL_RUNS
        &&& ends_differ(self.terminal_runs@)
        &&& ends_known(self.runs@, self.terminal_runs@)
        &&& self.shutdown_accepted ==> !self.issue_prep_active && !any_active(self.runs@)
    }

    pub fn new(paths: DaemonPaths) -> (result: Self)
        ensures
            result.well_formed(),
            result.paths == paths,
            result.runs@ == Seq::<RunRecord>::empty(),
            result.terminal_runs@ == Seq::<String>::empty(),
            !result.shutdown_accepted,
            !result.issue_prep_active,
            result.session_tool_grants@ == Seq::<String>::empty(),
    {
        DaemonRuntime {
            paths,
            runs: Vec::new(),
            terminal_runs: Vec::new(),
            shutdown_accepted: false,
            issue_prep_active: false,
            session_tool_grants: Vec::new(),
        }
    }

    /// How long the daemon has been running, in whole milliseconds.
    pub fn uptime_ms(elapsed_millis: u128) -> (result: u64)
        ensures
            result == (if elapsed_millis <= u64::MAX {
                elapsed_millis as u64
            } else {
                u64::MAX
            }),
    {
        if elapsed_millis <= u64::MAX as u128 {
            elapsed_millis as u64
        } else {
            u64::MAX
        }
    }

    /// Where a run stands among the known ones.
    pub fn find_index(&self, run_id: &str) -> (result: Option<usize>)
        ensures
            match result {
                Some(i) => {
                    &&& i == run_index(self.runs@, run_id@)
                    &&& i < self.runs@.len()
                    &&& self.runs@[i as int].run_id@ == run_id@
                    &&& has_run(self.runs@, run_id@)
                },
                None => !has_run(self.runs@, run_id@),
            },
    {
        let mut i: usize = 0;
        while i < self.runs.len()
            invariant
                i <= self.runs@.len(),
                forall|j: int| 0 <= j < i ==> (#[trigger] self.runs@[j]).run_id@ != run_id@,
            decreases self.runs@.len() - i,
        {
            if text::same(self.runs[i].run_id.as_str(), run_id) {
                proof {
                    run_index_is_first(self.runs@, run_id@, i as int);
                }
                assert(self.runs@[i as int].run_id@ == run_id@);
                return Some(i);
            }
            i = i + 1;
        }
        None
    }

    /// Admits a run, unless the daemon is shutting down or its session has a run on its way.
    pub fn reserve_run(&mut self, record: RunRecord) -> (result: Result<(), RunAdmissionError>)
        requires
            old(self).well_formed(),
            record.well_formed(),
            run_refusal(*old(self), record.session_id@) is None ==> !has_run(
                old(self).runs@,
                record.run_id@,
            ),
        ensures
            final(self).well_formed(),
            match run_refusal(*old(self), record.session_id@) {
                Some(refusal) => {
                    &&& result == Err::<(), RunAdmissionError>(refusal)
                    &&& *final(self) == *old(self)
                },
                None => {
                    &&& result is Ok
                    &&& *final(self) == (DaemonRuntime { runs: final(self).runs, ..*old(self) })
                    &&& final(self).runs@ == old(self).runs@.push(record)
                },
            },
    {
        if self.shutdown_accepted {
            return Err(RunAdmissionError::ShuttingDown);
        }
        let mut i: usize = 0;
        while i < self.runs.len()
            invariant
                i <= self.runs@.len(),
                *self == *old(self),
                self.well_formed(),
                !self.shutdown_accepted,
                forall|j: int|
                    0 <= j < i ==> !runs_in_session(#[trigger] self.runs@[j], record.session_id@),
            decreases self.runs@.len() - i,
        {
            if text::same(self.runs[i].session_id.as_str(), record.session_id.as_str())
                && self.runs[i].status.state.active() {
                proof {
                    active_index_is_first(self.runs@, record.session_id@, i as int);
                }
                return Err(
                    RunAdmissionError::SessionActive { run_id: self.runs[i].run_id.clone() },
                );
            }
            i = i + 1;
        }
        proof {
            active_index_is_first(self.runs@, record.session_id@, i as int);
        }
        let ghost before = self.runs@;
        self.runs.push(record);
        proof {
            let after = self.runs@;
            assert forall|i: int| 0 <= i < before.len() implies #[trigger] after[i] == before[i]
                && after[i].run_id@ != record.run_id@ && !runs_in_session(
                after[i],
                record.session_id@,
            ) by {
                assert(!runs_in_session(before[i], record.session_id@));
                assert(before[i].run_id@ != record.run_id@);
            }
            assert forall|t: int| 0 <= t < self.terminal_runs@.len() implies known_ended(
                after,
                (#[trigger] self.terminal_runs@[t])@,
            ) by {
                let id = self.terminal_runs@[t]@;
                assert(known_ended(before, id));
                let i = choose|i: int|
                    0 <= i < before.len() && (#[trigger] before[i]).run_id@ == id
                        && !protocol::is_active(before[i].status.state);
                assert(after[i].run_id@ == id);
            }
        }
        Ok(())
    }

    /// Ends a run and remembers its end; where more ends are remembered than the most, the oldest
    /// one is forgotten with its run.
    pub fn complete_run(&mut self, run_id: &str, status: RunStatus)
        requires
            old(self).well_formed(),
            has_run(old(self).runs@, run_id@),
            !remembers_end(old(self).terminal_runs@, run_id@),
            !protocol::is_active(status.state),
        ensures
            final(self).well_formed(),
            completes(*old(self), *final(self), run_id@, status),
    {
        let i: usize = match self.find_index(run_id) {
            Some(i) => i,
            None => return,
        };
        let ghost before = self.runs@;
        let ghost ends = self.terminal_runs@;
        let id = self.runs[i].run_id.clone();
        self.runs[i].complete(status);
        let ghost ended = self.runs@[i as int];
        assert(run_completed(before[i as int], ended, status));
        let ghost updated = before.update(i as int, ended);
        assert(self.runs@ =~= updated);
        let oldest: Option<String> = if self.terminal_runs.len() == MAX_TERMINAL_RUNS {
            Some(self.terminal_runs.remove(0))
        } else {
            None
        };
        self.terminal_runs.push(id);
        let ghost more = ends.push(id);
        proof {
            ending_keeps_consistency(before, ends, updated, i as int);
        }
        if let Some(oldest) = oldest {
            assert(self.terminal_runs@ =~= more.drop_first());
            assert(self.terminal_runs@ =~= ends.drop_first().push(id));
            assert(more[0] == oldest);
            assert(known_ended(updated, more[0]@));
            if let Some(k) = self.find_index(oldest.as_str()) {
                let _ = self.runs.remove(k);
                assert(self.runs@ =~= updated.remove(k as int));
                proof {
                    forgetting_keeps_consistency(updated, more, k as int);
                }
            }
        } else {
            assert(self.terminal_runs@ =~= more);
        }
    }

    /// Ends a run with its answer.
    pub fn finish_run(&mut self, run_id: &str, final_answer: String)
        requires
            old(self).well_formed(),
            has_run(old(self).runs@, run_id@),
            !remembers_end(old(self).terminal_runs@, run_id@),
        ensures
            final(self).well_formed(),
            completes(
                *old(self),
                *final(self),
                run_id@,
                RunStatus {
                    state: RunStateName::Finished,
                    final_answer: Some(final_answer),
                    error: None,
                },
            ),
    {
        self.complete_run(
            run_id,
            RunStatus {
                state: RunStateName::Finished,
                final_answer: Some(final_answer),
                error: None,
            },
        );
    }

    /// Ends a run with what went wrong. Only an error that says so makes it a canceled run,
    /// whether or not it was asked to stop.
    pub fn finish_run_with_error(&mut self, run_id: &str, error: &AppError)
        requires
            old(self).well_formed(),
            has_run(old(self).runs@, run_id@),
            !remembers_end(old(self).terminal_runs@, run_id@),
        ensures
            final(self).well_formed(),
            fails(*old(self), *final(self), run_id@, *error),
    {
        let state = match error {
            AppError::RunCanceled => RunStateName::Canceled,
            _ => RunStateName::Failed,
        };
        let words = error.message();
        let ghost kept = words;
        self.complete_run(
            run_id,
            RunStatus { state, final_answer: None, error: Some(words) },
        );
        assert(completes(*old(self), *self, run_id@, failed_status(*error, kept)));
    }

    /// Admits issue preparation, unless the daemon is shutting down or it is on its way already.
    pub fn reserve_issue_prep(&mut self) -> (result: Result<(), IssuePrepAdmissionError>)
        requires
            old(self).well_formed(),
        ensures
            final(self).well_formed(),
            result == (match issue_prep_refusal(*old(self)) {
                Some(refusal) => Err::<(), IssuePrepAdmissionError>(refusal),
                None => Ok(()),
            }),
            *final(self) == (DaemonRuntime {
                issue_prep_active: old(self).issue_prep_active || result is Ok,
                ..*old(self)
            }),
    {
        if self.shutdown_accepted {
            return Err(IssuePrepAdmissionError::ShuttingDown);
        }
        if self.issue_prep_active {
            return Err(IssuePrepAdmissionError::Active);
        }
        self.issue_prep_active = true;
        Ok(())
    }

    /// Issue preparation is over.
    pub fn release_issue_prep(&mut self)
        requires
            old(self).well_formed(),
        ensures
            final(self).well_formed(),
            *final(self) == (DaemonRuntime { issue_prep_active: false, ..*old(self) }),
    {
        self.issue_prep_active = false;
    }

    /// Whether any run is on its way.
    fn has_active_run(&self) -> (result: bool)
        ensures
            result == any_active(self.runs@),
    {
        let mut i: usize = 0;
        while i < self.runs.len()
            invariant
                i <= self.runs@.len(),
                forall|j: int|
                    0 <= j < i ==> !protocol::is_active((#[trigger] self.runs@[j]).status.state),
            decreases self.runs@.len() - i,
        {
            if self.runs[i].status.state.active() {
                assert(protocol::is_active(self.runs@[i as int].status.state));
                return true;
            }
            i = i + 1;
        }
        false
    }

    /// Shuts the daemon down, unless something is on its way.
    pub fn shutdown_if_idle(&mut self) -> (result: ShutdownIfIdleDecision)
        requires
            old(self).well_formed(),
        ensures
            final(self).well_formed(),
            (result, *final(self)) == shut_down(*old(self)),
    {
        if self.shutdown_accepted {
            return ShutdownIfIdleDecision::AlreadyShuttingDown;
        }
        if self.issue_prep_active || self.has_active_run() {
            return ShutdownIfIdleDecision::RefusedActive;
        }
        self.shutdown_accepted = true;
        ShutdownIfIdleDecision::Shutdown
    }

    /// Whether a session has been given the shell.
    pub fn has_shell_session_grant(&self, session_id: &str) -> (result: bool)
        ensures
            result == granted(self.session_tool_grants@, session_id@),
    {
        let mut i: usize = 0;
        while i < self.session_tool_grants.len()
            invariant
                i <= self.session_tool_grants@.len(),
                forall|j: int|
                    0 <= j < i ==> (#[trigger] self.session_tool_grants@[j])@ != session_id@,
            decreases self.session_tool_grants@.len() - i,
        {
            if text::same(self.session_tool_grants[i].as_str(), session_id) {
                assert(self.session_tool_grants@[i as int]@ == session_id@);
                return true;
            }
            i = i + 1;
        }
        false
    }

    /// Asks for a decision on a call of a run. Where the run's session has been given the shell,
    /// the decision on a call of the shell stands.
    pub fn request_approval(&mut self, run_id: &str, request: ApprovalRequest) -> (result:
        ApprovalStart)
        requires
            old(self).well_formed(),
            has_run(old(self).runs@, run_id@),
            ({
                let record = old(self).runs@[run_index(old(self).runs@, run_id@)];
                asks_a_client(
                    record,
                    request,
                    granted(old(self).session_tool_grants@, record.session_id@),
                ) ==> record.events.next_offset < u64::MAX
            }),
        ensures
            final(self).well_formed(),
            *final(self) == (DaemonRuntime { runs: final(self).runs, ..*old(self) }),
            ({
                let i = run_index(old(self).runs@, run_id@);
                let before = old(self).runs@[i];
                let after = final(self).runs@[i];
                &&& final(self).runs@ == old(self).runs@.update(i, after)
                &&& approval_begun(
                    before,
                    request,
                    granted(old(self).session_tool_grants@, before.session_id@),
                    after,
                    result,
                )
            }),
    {
        let i: usize = match self.find_index(run_id) {
            Some(i) => i,
            None => {
                return ApprovalStart::Refused(
                    AppError::RunFailed("approval request does not match daemon run".to_owned()),
                );
            },
        };
        let ghost before = *self;
        assert(self.runs@[i as int].well_formed());
        let session_granted = self.has_shell_session_grant(self.runs[i].session_id.as_str());
        let result = self.runs[i].begin_approval(request, session_granted);
        assert(self.runs@ =~= before.runs@.update(i as int, self.runs@[i as int]));
        proof {
            changing_a_run_keeps_consistency(before, *self, i as int);
        }
        result
    }

    /// Gives a session the shell; false where it had it already.
    pub fn install_shell_session_grant(&mut self, session_id: &str) -> (result: bool)
        requires
            old(self).well_formed(),
        ensures
            final(self).well_formed(),
            result == !granted(old(self).session_tool_grants@, session_id@),
            *final(self) == (DaemonRuntime {
                session_tool_grants: final(self).session_tool_grants,
                ..*old(self)
            }),
            forall|other: Seq<char>|
                #[trigger] granted(final(self).session_tool_grants@, other) <==> (granted(
                    old(self).session_tool_grants@,
                    other,
                ) || other == session_id@),
    {
        let ghost before = self.session_tool_grants@;
        if self.has_shell_session_grant(session_id) {
            return false;
        }
        self.session_tool_grants.push(session_id.to_owned());
        let ghost after = self.session_tool_grants@;
        assert forall|other: Seq<char>| #[trigger] granted(after, other) <==> (granted(
            before,
            other,
        ) || other == session_id@) by {
            if granted(before, other) {
                let i = choose|i: int| 0 <= i < before.len() && (#[trigger] before[i])@ == other;
                assert(after[i]@ == other);
            }
            if other == session_id@ {
                assert(after[before.len() as int]@ == other);
            }
            if granted(after, other) && other != session_id@ {
                let i = choose|i: int| 0 <= i < after.len() && (#[trigger] after[i])@ == other;
                assert(before[i]@ == other);
            }
        }
        true
    }
}

/// The status of a run that ended with an error.
pub open spec fn failed_status(error: AppError, words: String) -> RunStatus {
    RunStatus {
        state: if error is RunCanceled {
            RunStateName::Canceled
        } else {
            RunStateName::Failed
        },
        final_answer: None,
        error: Some(words),
    }
}

/// Whether a daemon differs from another by the end of one run.
pub open spec fn completes(
    before: DaemonRuntime,
    after: DaemonRuntime,
    run_id: Seq<char>,
    status: RunStatus,
) -> bool {
    let i = run_index(before.runs@, run_id);
    let full = before.terminal_runs@.len() == MAX_TERMINAL_RUNS;
    &&& exists|ended: RunRecord|
        {
            &&& #[trigger] run_completed(before.runs@[i], ended, status)
            &&& after.runs@ == (if full {
                let updated = before.runs@.update(i, ended);
                updated.remove(run_index(updated, before.terminal_runs@[0]@))
            } else {
                before.runs@.update(i, ended)
            })
            &&& after.terminal_runs@ == (if full {
                before.terminal_runs@.drop_first().push(before.runs@[i].run_id)
            } else {
                before.terminal_runs@.push(before.runs@[i].run_id)
            })
        }
    &&& after == (DaemonRuntime {
        runs: after.runs,
        terminal_runs: after.terminal_runs,
        ..before
    })
}

/// Whether a daemon differs from another by the end of one run with what went wrong.
pub open spec fn fails(
    before: DaemonRuntime,
    after: DaemonRuntime,
    run_id: Seq<char>,
    error: AppError,
) -> bool {
    exists|words: String|
        {
            &&& words@ == error::error_text(error)
            &&& completes(before, after, run_id, #[trigger] failed_status(error, words))
        }
}

/// A daemon that has accepted its shutdown has nothing on its way.
pub proof fn a_shutdown_finds_nothing_on_its_way(runtime: DaemonRuntime, i: int)
    requires
        runtime.well_formed(),
        runtime.shutdown_accepted,
        0 <= i < runtime.runs@.len(),
    ensures
        !runtime.issue_prep_active,
        !protocol::is_active(runtime.runs@[i].status.state),
{
}

/// A session never has two runs on their way.
pub proof fn a_session_has_one_run_on_its_way(runtime: DaemonRuntime, i: int, j: int)
    requires
        runtime.well_formed(),
        0 <= i < runtime.runs@.len(),
        0 <= j < runtime.runs@.len(),
        runtime.runs@[i].session_id@ == runtime.runs@[j].session_id@,
        protocol::is_active(runtime.runs@[i].status.state),
        protocol::is_active(runtime.runs@[j].status.state),
    ensures
        i == j,
{
}

/// Ending a run never makes the daemon forget one that is on its way, nor one that ended after
/// the oldest that it remembers.
pub proof fn ending_a_run_keeps_the_others(
    before: DaemonRuntime,
    after: DaemonRuntime,
    run_id: Seq<char>,
    status: RunStatus,
    k: int,
)
    requires
        before.well_formed(),
        has_run(before.runs@, run_id),
        completes(before, after, run_id, status),
        0 <= k < before.runs@.len(),
        before.runs@[k].run_id@ != run_id,
        protocol::is_active(before.runs@[k].status.state) || before.terminal_runs@.len()
            < MAX_TERMINAL_RUNS || before.runs@[k].run_id@ != before.terminal_runs@[0]@,
    ensures
        exists|i: int| 0 <= i < after.runs@.len() && after.runs@[i] == before.runs@[k],
{
    let n = run_index(before.runs@, run_id);
    let ended = choose|ended: RunRecord|
        {
            &&& #[trigger] run_completed(before.runs@[n], ended, status)
            &&& after.runs@ == (if before.terminal_runs@.len() == MAX_TERMINAL_RUNS {
                let updated = before.runs@.update(n, ended);
                updated.remove(run_index(updated, before.terminal_runs@[0]@))
            } else {
                before.runs@.update(n, ended)
            })
        };
    run_index_finds(before.runs@, run_id);
    let updated = before.runs@.update(n, ended);
    assert(updated[k] == before.runs@[k]);
    if before.terminal_runs@.len() == MAX_TERMINAL_RUNS {
        let oldest = before.terminal_runs@[0]@;
        assert(known_ended(before.runs@, oldest));
        let m = choose|m: int|
            0 <= m < before.runs@.len() && (#[trigger] before.runs@[m]).run_id@ == oldest
                && !protocol::is_active(before.runs@[m].status.state);
        assert(updated[m].run_id@ == oldest);
        if before.runs@[k].run_id@ == oldest {
            assert(m == k);
        }
        run_index_finds(updated, oldest);
        let gone = run_index(updated, oldest);
        let i = if k < gone {
            k
        } else {
            k - 1
        };
        assert(after.runs@[i] == before.runs@[k]);
    } else {
        assert(after.runs@[k] == before.runs@[k]);
    }
}

/// Changing a run without renaming it, moving it to another session or bringing it back after its
/// end keeps what holds of the daemon.
pub proof fn changing_a_run_keeps_consistency(before: DaemonRuntime, after: DaemonRuntime, i: int)
    requires
        before.well_formed(),
        0 <= i < before.runs@.len(),
        after == (DaemonRuntime { runs: after.runs, ..before }),
        after.runs@ == before.runs@.update(i, after.runs@[i]),
        after.runs@[i].well_formed(),
        after.runs@[i].run_id == before.runs@[i].run_id,
        after.runs@[i].session_id == before.runs@[i].session_id,
        protocol::is_active(after.runs@[i].status.state) ==> protocol::is_active(
            before.runs@[i].status.state,
        ),
    ensures
        after.well_formed(),
{
    let old_runs = before.runs@;
    let new_runs = after.runs@;
    let ends = before.terminal_runs@;
    assert forall|t: int| 0 <= t < ends.len() implies known_ended(
        new_runs,
        (#[trigger] ends[t])@,
    ) by {
        assert(known_ended(old_runs, ends[t]@));
        let k = choose|k: int|
            0 <= k < old_runs.len() && (#[trigger] old_runs[k]).run_id@ == ends[t]@
                && !protocol::is_active(old_runs[k].status.state);
        assert(new_runs[k].run_id@ == ends[t]@);
    }
    if any_active(new_runs) {
        let k = choose|k: int|
            0 <= k < new_runs.len() && protocol::is_active((#[trigger] new_runs[k]).status.state);
        assert(protocol::is_active(old_runs[k].status.state));
    }
}

/// The place of a known run is that of a run of its identifier.
pub proof fn run_index_finds(runs: Seq<RunRecord>, run_id: Seq<char>)
    requires
        has_run(runs, run_id),
    ensures
        0 <= run_index(runs, run_id) < runs.len(),
        runs[run_index(runs, run_id)].run_id@ == run_id,
    decreases runs.len(),
{
    let k = choose|k: int| 0 <= k < runs.len() && (#[trigger] runs[k]).run_id@ == run_id;
    if runs[0].run_id@ != run_id {
        let rest = runs.drop_first();
        assert(rest[k - 1].run_id@ == run_id);
        run_index_finds(rest, run_id);
    }
}

/// Ending a run keeps what holds of the runs, leaves the other ends known and makes its own known.
proof fn ending_keeps_consistency(
    before: Seq<RunRecord>,
    ends: Seq<String>,
    updated: Seq<RunRecord>,
    i: int,
)
    requires
        0 <= i < before.len(),
        updated == before.update(i, updated[i]),
        updated[i].well_formed(),
        updated[i].run_id == before[i].run_id,
        !protocol::is_active(updated[i].status.state),
        runs_whole(before),
        run_ids_differ(before),
        active_sessions_differ(before),
        ends_known(before, ends),
        ends_differ(ends),
        !remembers_end(ends, before[i].run_id@),
    ensures
        runs_whole(updated),
        run_ids_differ(updated),
        active_sessions_differ(updated),
        any_active(updated) ==> any_active(before),
        ends_known(updated, ends.push(before[i].run_id)),
        ends_differ(ends.push(before[i].run_id)),
{
    let more = ends.push(before[i].run_id);
    assert forall|t: int| 0 <= t < more.len() implies known_ended(
        updated,
        (#[trigger] more[t])@,
    ) by {
        if t < ends.len() {
            assert(known_ended(before, ends[t]@));
            let k = choose|k: int|
                0 <= k < before.len() && (#[trigger] before[k]).run_id@ == ends[t]@
                    && !protocol::is_active(before[k].status.state);
            assert(updated[k].run_id@ == more[t]@);
        } else {
            assert(updated[i].run_id@ == more[t]@);
        }
    }
    if any_active(updated) {
        let k = choose|k: int|
            0 <= k < updated.len() && protocol::is_active((#[trigger] updated[k]).status.state);
        assert(before[k] == updated[k]);
    }
}

/// Forgetting the run of the oldest end keeps what holds of the runs and leaves the other ends
/// known.
proof fn forgetting_keeps_consistency(updated: Seq<RunRecord>, more: Seq<String>, k: int)
    requires
        0 <= k < updated.len(),
        more.len() > 0,
        updated[k].run_id@ == more[0]@,
        runs_whole(updated),
        run_ids_differ(updated),
        active_sessions_differ(updated),
        ends_known(updated, more),
        ends_differ(more),
    ensures
        runs_whole(updated.remove(k)),
        run_ids_differ(updated.remove(k)),
        active_sessions_differ(updated.remove(k)),
        any_active(updated.remove(k)) ==> any_active(updated),
        ends_known(updated.remove(k), more.drop_first()),
        ends_differ(more.drop_first()),
{
    let fewer = updated.remove(k);
    let rest = more.drop_first();
    assert forall|i: int| 0 <= i < fewer.len() implies #[trigger] fewer[i] == updated[if i < k {
        i
    } else {
        i + 1
    }] by {}
    assert forall|t: int| 0 <= t < rest.len() implies known_ended(fewer, (#[trigger] rest[t])@) by {
        assert(rest[t] == more[t + 1]);
        assert(known_ended(updated, more[t + 1]@));
        let i = choose|i: int|
            0 <= i < updated.len() && (#[trigger] updated[i]).run_id@ == more[t + 1]@
                && !protocol::is_active(updated[i].status.state);
        assert(more[0]@ != more[t + 1]@);
        let n = if i < k {
            i
        } else {
            i - 1
        };
        assert(fewer[n] == updated[i]);
    }
    if any_active(fewer) {
        let i = choose|i: int|
            0 <= i < fewer.len() && protocol::is_active((#[trigger] fewer[i]).status.state);
        assert(fewer[i] == updated[if i < k {
            i
        } else {
            i + 1
        }]);
    }
}

} // verus!
