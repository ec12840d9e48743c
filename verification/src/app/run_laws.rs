//! What holds of every run, whatever the model, the tools and the people around it do.

use crate::app::model::{self, ModelMessage, ModelResponse};
use crate::app::policy::PolicyDecision;
use crate::app::run::{
    self, ActionView, EntryView, Observation, Phase, RunEnd, RunSettings, RunView, ToolOutput,
};
use crate::app::session::RunOutcome;
use crate::app::tool_output;
use crate::json;
use vstd::prelude::*;

verus! {

/// A run at its start.
pub open spec fn started(settings: RunSettings) -> RunView {
    RunView { settings, turn: 0, phase: Phase::RecordingStart, uses: Seq::empty() }
}

/// A run after some observations.
pub open spec fn state_after(settings: RunSettings, seen: Seq<Observation>) -> RunView
    decreases seen.len(),
{
    if seen.len() == 0 {
        started(settings)
    } else {
        run::next(state_after(settings, seen.drop_last()), seen.last()).0
    }
}

/// The action that a run asks for after some observations.
pub open spec fn action_after(settings: RunSettings, seen: Seq<Observation>) -> ActionView {
    if seen.len() == 0 {
        run::record(started(settings), EntryView::RunStarted { agent_id: run::AGENT_ID@ })
    } else {
        run::next(state_after(settings, seen.drop_last()), seen.last()).1
    }
}

/// The entries that a run has asked to be written after some observations.
pub open spec fn ledger_after(settings: RunSettings, seen: Seq<Observation>) -> Seq<EntryView>
    decreases seen.len(),
{
    if seen.len() == 0 {
        seq![EntryView::RunStarted { agent_id: run::AGENT_ID@ }]
    } else {
        written(
            ledger_after(settings, seen.drop_last()),
            run::next(state_after(settings, seen.drop_last()), seen.last()).1,
        )
    }
}

/// A ledger after an action.
pub open spec fn written(ledger: Seq<EntryView>, action: ActionView) -> Seq<EntryView> {
    match action {
        ActionView::Record { event, .. } => ledger.push(event),
        _ => ledger,
    }
}

/// Whether observations can come in this order.
pub open spec fn possible(settings: RunSettings, seen: Seq<Observation>) -> bool
    decreases seen.len(),
{
    seen.len() == 0 || {
        &&& possible(settings, seen.drop_last())
        &&& run::fits(state_after(settings, seen.drop_last()), seen.last())
        &&& run::acceptable(state_after(settings, seen.drop_last()), seen.last())
    }
}

/// Whether an entry lets the tool of a step run: the policy allows it, or somebody approved it.
pub open spec fn licenses(event: EntryView, step: u32) -> bool {
    ||| event == EntryView::PolicyEvaluated { step, decision: PolicyDecision::Allow }
    ||| event matches EntryView::ApprovalGranted { step: s, .. } && s == step
}

/// Whether an entry is the start of the tool of a step.
pub open spec fn starts_tool(event: EntryView, step: u32) -> bool {
    event == EntryView::ToolStarted { step }
}

/// Whether an entry is the policy's decision on a step.
pub open spec fn decides(event: EntryView, step: u32) -> bool {
    event matches EntryView::PolicyEvaluated { step: s, .. } && s == step
}

/// Whether an entry is the policy's refusal of a step.
pub open spec fn refuses(event: EntryView, step: u32) -> bool {
    event matches EntryView::PolicyEvaluated { step: s, decision } && s == step
        && decision is Deny
}

/// Whether an entry is a request of a step to the model.
pub open spec fn requests(event: EntryView, step: u32) -> bool {
    event matches EntryView::ModelRequested { step: s, .. } && s == step
}

/// Whether an entry is the end of a run.
pub open spec fn ends_run(event: EntryView) -> bool {
    event is RunFinished || event is RunFailed
}

/// The number of requests of a step.
pub open spec fn request_count(ledger: Seq<EntryView>, step: u32) -> nat
    decreases ledger.len(),
{
    if ledger.len() == 0 {
        0
    } else {
        request_count(ledger.drop_last(), step) + if requests(ledger.last(), step) {
            1nat
        } else {
            0nat
        }
    }
}

/// Whether an entry belongs to a step, in one of the ways that the laws speak of.
spec fn about(event: EntryView, step: u32) -> bool {
    licenses(event, step) || starts_tool(event, step) || decides(event, step) || requests(
        event,
        step,
    )
}

spec fn closing(phase: Phase) -> bool {
    phase is RecordingFinish || phase is FinishingSession || phase is RecordingFailure
        || phase is FailingSession || phase is Ended
}

spec fn before_request(phase: Phase) -> bool {
    phase is BuildingContext || phase is PollingBeforeTurn || phase is RecordingCompaction
        || phase is RecordingContext || phase is RecordingStart
}

spec fn requested_once(phase: Phase) -> bool {
    ||| phase == (Phase::RecordingRequest { retried: false })
    ||| phase == (Phase::Sending { retried: false })
    ||| phase is PollingBeforeRetry
    ||| phase is RecordingRetry
    ||| phase is Sleeping
}

spec fn before_policy(phase: Phase) -> bool {
    before_request(phase) || requested_once(phase) || phase is RecordingRequest || phase is Sending
        || phase is PollingAfterFailure || phase is RecordingResponse
        || phase is PollingAfterResponse || phase is Printing || phase is RecordingProposal
}

spec fn licensed_phase(phase: Phase) -> bool {
    phase is RecordingGrant || phase is PollingBeforeTool || phase is RecordingToolStart
        || phase is Executing || phase is RecordingToolEnd
}

spec fn asking(phase: Phase) -> bool {
    phase is AwaitingExternal || phase is AwaitingUser || phase is RecordingDenial
}

/// The entry of a response.
spec fn said_in(run: RunView, response: ModelResponse) -> EntryView {
    EntryView::ModelResponded {
        step: run.turn,
        output: response.text,
        proposed_calls: model::proposals_in(response.content@),
        usage: response.usage,
    }
}

/// Whether nothing has been written but the start.
spec fn opening(run: RunView) -> bool {
    run.turn == 0 && (run.phase is RecordingStart || run.phase is BuildingContext
        || run.phase is PollingBeforeTurn)
}

/// Whether an entry is a response without calls, of these words.
pub open spec fn answers(event: EntryView, words: String) -> bool {
    event matches EntryView::ModelResponded { output, proposed_calls, .. } && output == words
        && proposed_calls.len() == 0
}

/// Whether the entry before the last one is a response without calls, of these words.
pub open spec fn answered_before(ledger: Seq<EntryView>, words: String) -> bool {
    ledger.len() >= 2 && answers(ledger[ledger.len() - 2], words)
}

/// What holds between a run and the entries that it has written.
spec fn consistent(run: RunView, ledger: Seq<EntryView>) -> bool {
    &&& forall|k: int, s: u32|
        0 <= k < ledger.len() && #[trigger] about(ledger[k], s) ==> s <= run.turn
    &&& before_policy(run.phase) ==> forall|k: int|
        0 <= k < ledger.len() ==> !#[trigger] decides(ledger[k], run.turn)
    &&& run.phase matches Phase::RecordingPolicy { decision } ==> {
        &&& forall|k: int|
            0 <= k < ledger.len() && #[trigger] decides(ledger[k], run.turn) ==> ledger[k]
                == (EntryView::PolicyEvaluated { step: run.turn, decision })
        &&& ledger.contains(EntryView::PolicyEvaluated { step: run.turn, decision })
    }
    &&& (licensed_phase(run.phase) || asking(run.phase)) ==> forall|k: int|
        0 <= k < ledger.len() ==> !#[trigger] refuses(ledger[k], run.turn)
    &&& licensed_phase(run.phase) ==> exists|k: int|
        0 <= k < ledger.len() && #[trigger] licenses(ledger[k], run.turn)
    &&& (before_policy(run.phase) || asking(run.phase) || run.phase is RecordingPolicy)
        ==> forall|k: int| 0 <= k < ledger.len() ==> !#[trigger] starts_tool(ledger[k], run.turn)
    &&& forall|k: int, s: u32|
        0 <= k < ledger.len() && #[trigger] starts_tool(ledger[k], s) ==> exists|j: int|
            0 <= j < k && #[trigger] licenses(ledger[j], s)
    &&& forall|k: int, j: int, s: u32|
        0 <= k < ledger.len() && 0 <= j < ledger.len() && #[trigger] starts_tool(ledger[k], s)
            ==> !#[trigger] refuses(ledger[j], s)
    &&& !closing(run.phase) ==> forall|k: int|
        0 <= k < ledger.len() ==> !#[trigger] ends_run(ledger[k])
    &&& closing(run.phase) ==> forall|k: int|
        0 <= k < ledger.len() - 1 ==> !#[trigger] ends_run(ledger[k])
    &&& (run.phase matches Phase::RecordingFinish { .. } ==> ledger.last() is RunFinished)
    &&& (run.phase is FinishingSession ==> ledger.last() is RunFinished)
    &&& (run.phase is RecordingFailure ==> ledger.last() is RunFailed)
    &&& (run.phase is FailingSession ==> ledger.last() is RunFailed)
    &&& (run.phase matches Phase::RecordingFailure { end, .. } ==> end !is Answered)
    &&& (run.phase matches Phase::FailingSession { end } ==> end !is Answered)
    &&& (run.phase matches Phase::RecordingResponse { response } ==> ledger.last()
        == said_in(run, response))
    &&& (run.phase matches Phase::PollingAfterResponse { response } ==> ledger.last()
        == said_in(run, response))
    &&& (run.phase matches Phase::RecordingFinish { answer } ==> answered_before(ledger, answer))
    &&& (run.phase matches Phase::FinishingSession { answer } ==> answered_before(ledger, answer))
    &&& opening(run) ==> ledger.len() == 1
    &&& forall|k: int|
        0 <= k < ledger.len() && (#[trigger] ledger[k]) is ContextCompacted ==> k == 1
    &&& ledger.len() > 0
    &&& forall|s: u32| #[trigger] request_count(ledger, s) <= 2
    &&& before_request(run.phase) ==> request_count(ledger, run.turn) == 0
    &&& requested_once(run.phase) ==> request_count(ledger, run.turn) == 1
}

proof fn no_requests(ledger: Seq<EntryView>, step: u32)
    requires
        forall|k: int| 0 <= k < ledger.len() ==> !#[trigger] requests(ledger[k], step),
    ensures
        request_count(ledger, step) == 0,
    decreases ledger.len(),
{
    if ledger.len() > 0 {
        let t = ledger.drop_last();
        assert forall|k: int| 0 <= k < t.len() implies !#[trigger] requests(t[k], step) by {
            assert(t[k] == ledger[k]);
        }
        no_requests(t, step);
        assert(!requests(ledger[ledger.len() - 1], step));
    }
}

#[verifier::rlimit(60)]
proof fn consistent_step(run: RunView, ledger: Seq<EntryView>, seen: Observation)
    requires
        consistent(run, ledger),
        run::well_formed(run),
        run::fits(run, seen),
        run::acceptable(run, seen),
    ensures
        consistent(run::next(run, seen).0, written(ledger, run::next(run, seen).1)),
{
    let (after, action) = run::next(run, seen);
    let l = written(ledger, action);
    assert(l.len() >= ledger.len());
    assert forall|k: int| 0 <= k < ledger.len() implies l[k] == ledger[k] by {}
    assert forall|k: int, s: u32| 0 <= k < l.len() && #[trigger] about(l[k], s) implies s
        <= after.turn by {
        if k < ledger.len() {
            assert(about(ledger[k], s));
        }
    }
    assert(action is Record ==> l.drop_last() =~= ledger);
    assert forall|s: u32| #[trigger] request_count(l, s) <= 2 by {
        assert(request_count(ledger, s) <= 2);
        if action is Record && requests(action->event, s) {
            assert(s == run.turn);
        }
    }
    if before_request(after.phase) && after.turn != run.turn {
        assert forall|k: int| 0 <= k < ledger.len() implies !#[trigger] requests(
            ledger[k],
            after.turn,
        ) by {
            if requests(ledger[k], after.turn) {
                assert(about(ledger[k], after.turn));
            }
        }
        no_requests(ledger, after.turn);
    }
    assert(before_policy(after.phase) ==> forall|k: int|
        0 <= k < l.len() ==> !#[trigger] decides(l[k], after.turn)) by {
        if before_policy(after.phase) {
            assert forall|k: int| 0 <= k < l.len() implies !#[trigger] decides(
                l[k],
                after.turn,
            ) by {
                if k < ledger.len() && decides(ledger[k], after.turn) {
                    assert(about(ledger[k], after.turn));
                }
            }
        }
    }
    assert((licensed_phase(after.phase) || asking(after.phase)) ==> forall|k: int|
        0 <= k < l.len() ==> !#[trigger] refuses(l[k], after.turn)) by {
        if licensed_phase(after.phase) || asking(after.phase) {
            assert forall|k: int| 0 <= k < l.len() implies !#[trigger] refuses(
                l[k],
                after.turn,
            ) by {
                if k < ledger.len() && refuses(ledger[k], after.turn) {
                    assert(decides(ledger[k], run.turn));
                }
            }
        }
    }
    if licensed_phase(after.phase) {
        if licensed_phase(run.phase) {
            let k = choose|k: int| 0 <= k < ledger.len() && #[trigger] licenses(ledger[k], run.turn);
            assert(licenses(l[k], after.turn));
        } else if run.phase is RecordingPolicy && after.phase is PollingBeforeTool {
            let decision = run.phase->RecordingPolicy_decision;
            let event = EntryView::PolicyEvaluated { step: run.turn, decision };
            let k = choose|k: int| 0 <= k < ledger.len() && ledger[k] == event;
            assert(licenses(l[k], after.turn));
        } else {
            assert(licenses(l[l.len() - 1], after.turn));
        }
    }
    assert forall|k: int, s: u32| 0 <= k < l.len() && #[trigger] starts_tool(l[k], s) implies (
    exists|j: int| 0 <= j < k && #[trigger] licenses(l[j], s)) by {
        if k < ledger.len() {
            assert(starts_tool(ledger[k], s));
            let j = choose|j: int| 0 <= j < k && #[trigger] licenses(ledger[j], s);
            assert(licenses(l[j], s));
        } else {
            let j = choose|j: int| 0 <= j < ledger.len() && #[trigger] licenses(ledger[j], run.turn);
            assert(licenses(l[j], s));
        }
    }
    assert forall|k: int, j: int, s: u32|
        0 <= k < l.len() && 0 <= j < l.len() && #[trigger] starts_tool(l[k], s) implies !#[trigger] refuses(
        l[j],
        s,
    ) by {
        if k < ledger.len() {
            assert(starts_tool(ledger[k], s));
            if j < ledger.len() {
                assert(!refuses(ledger[j], s));
            } else if refuses(l[j], s) {
                assert(s == run.turn);
                assert(!starts_tool(ledger[k], run.turn));
            }
        } else if j < ledger.len() {
            assert(!refuses(ledger[j], run.turn));
        }
    }
    assert((before_policy(after.phase) || asking(after.phase) || after.phase is RecordingPolicy)
        ==> forall|k: int| 0 <= k < l.len() ==> !#[trigger] starts_tool(l[k], after.turn)) by {
        if before_policy(after.phase) || asking(after.phase) || after.phase is RecordingPolicy {
            assert forall|k: int| 0 <= k < l.len() implies !#[trigger] starts_tool(
                l[k],
                after.turn,
            ) by {
                if k < ledger.len() && starts_tool(ledger[k], after.turn) {
                    assert(about(ledger[k], after.turn));
                }
            }
        }
    }
    if after.phase is RecordingPolicy {
        assert(l[l.len() - 1] == action->event);
        assert forall|k: int| 0 <= k < l.len() && #[trigger] decides(l[k], after.turn) implies l[k]
            == action->event by {
            if k < ledger.len() {
                assert(decides(ledger[k], run.turn));
            }
        }
    }
    assert forall|k: int| 0 <= k < ledger.len() && !closing(run.phase) implies !#[trigger] ends_run(
        l[k],
    ) by {
        assert(!ends_run(ledger[k]));
    }
    assert forall|k: int| 0 <= k < ledger.len() - 1 && closing(run.phase) implies !#[trigger] ends_run(
        l[k],
    ) by {
        assert(!ends_run(ledger[k]));
    }
}

proof fn consistent_after(settings: RunSettings, seen: Seq<Observation>)
    requires
        possible(settings, seen),
    ensures
        run::well_formed(state_after(settings, seen)),
        consistent(state_after(settings, seen), ledger_after(settings, seen)),
    decreases seen.len(),
{
    if seen.len() == 0 {
        let l = ledger_after(settings, seen);
        assert forall|s: u32| #[trigger] request_count(l, s) == 0 by {
            no_requests(l, s);
        }
        assert(l[0] is RunStarted);
    } else {
        consistent_after(settings, seen.drop_last());
        let before = state_after(settings, seen.drop_last());
        run::step_keeps_well_formed(before, seen.last());
        consistent_step(before, ledger_after(settings, seen.drop_last()), seen.last());
    }
}

/// A tool starts only after the policy allowed its call or somebody approved it, and never after
/// the policy refused it.
pub proof fn tools_run_only_with_a_license(
    settings: RunSettings,
    seen: Seq<Observation>,
    k: int,
    step: u32,
)
    requires
        possible(settings, seen),
        0 <= k < ledger_after(settings, seen).len(),
        starts_tool(ledger_after(settings, seen)[k], step),
    ensures
        exists|j: int|
            0 <= j < k && #[trigger] licenses(ledger_after(settings, seen)[j], step),
        forall|j: int|
            0 <= j < ledger_after(settings, seen).len() ==> !#[trigger] refuses(
                ledger_after(settings, seen)[j],
                step,
            ),
{
    consistent_after(settings, seen);
}

/// A run ends in its ledger at most once, and nothing is written after its end.
pub proof fn nothing_follows_the_end(settings: RunSettings, seen: Seq<Observation>, k: int)
    requires
        possible(settings, seen),
        0 <= k < ledger_after(settings, seen).len(),
        ends_run(ledger_after(settings, seen)[k]),
    ensures
        k == ledger_after(settings, seen).len() - 1,
{
    consistent_after(settings, seen);
    let run = state_after(settings, seen);
    let l = ledger_after(settings, seen);
    if closing(run.phase) && k < l.len() - 1 {
        assert(!ends_run(l[k]));
    }
}

/// In one turn the model is asked at most twice.
pub proof fn a_turn_asks_at_most_twice(settings: RunSettings, seen: Seq<Observation>, step: u32)
    requires
        possible(settings, seen),
    ensures
        request_count(ledger_after(settings, seen), step) <= 2,
{
    consistent_after(settings, seen);
    assert(request_count(ledger_after(settings, seen), step) <= 2);
}

/// A run gives an answer only after its end was written down as a finish, and it is marked as
/// failed or canceled only after its end was written down as a failure.
pub proof fn the_outcome_agrees_with_the_ledger(settings: RunSettings, seen: Seq<Observation>)
    requires
        possible(settings, seen),
        seen.len() > 0,
        seen.last() is Done,
        action_after(settings, seen) is Return,
    ensures
        action_after(settings, seen)->Return_0 is Answered ==> ledger_after(
            settings,
            seen,
        ).last() is RunFinished,
        action_after(settings, seen)->Return_0 !is Answered ==> ledger_after(
            settings,
            seen,
        ).last() is RunFailed,
{
    consistent_after(settings, seen.drop_last());
}

proof fn settings_stay(settings: RunSettings, seen: Seq<Observation>)
    requires
        possible(settings, seen),
    ensures
        state_after(settings, seen).settings == settings,
    decreases seen.len(),
{
    if seen.len() > 0 {
        settings_stay(settings, seen.drop_last());
        consistent_after(settings, seen.drop_last());
        run::step_keeps_well_formed(state_after(settings, seen.drop_last()), seen.last());
    }
}

/// Every entry that a run writes carries the run's identifier, and so does its outcome.
pub proof fn every_entry_names_its_run(settings: RunSettings, seen: Seq<Observation>)
    requires
        possible(settings, seen),
    ensures
        action_after(settings, seen) matches ActionView::Record { run_id, .. } ==> run_id
            == settings.run_id,
        action_after(settings, seen) matches ActionView::Return(RunEnd::Answered(outcome))
            ==> outcome.run_id == settings.run_id,
{
    if seen.len() > 0 {
        settings_stay(settings, seen.drop_last());
        consistent_after(settings, seen.drop_last());
    }
}

/// The first entry of a run is its start.
pub proof fn a_run_starts_its_ledger(settings: RunSettings, seen: Seq<Observation>)
    ensures
        ledger_after(settings, seen).len() > 0,
        ledger_after(settings, seen)[0] is RunStarted,
    decreases seen.len(),
{
    if seen.len() > 0 {
        a_run_starts_its_ledger(settings, seen.drop_last());
    }
}

/// Whether a run has sent the request of its turn and may send it once more.
pub open spec fn may_repeat(phase: Phase) -> bool {
    ||| phase == (Phase::Sending { retried: false })
    ||| phase is PollingBeforeRetry
    ||| phase is RecordingRetry
    ||| phase is Sleeping
    ||| phase == (Phase::RecordingRequest { retried: true })
}

/// A request that is made again is the same request: nothing is added to the conversation in
/// between, and the turn stays.
pub proof fn a_repeated_request_is_the_same(run: RunView, seen: Observation)
    requires
        may_repeat(run.phase),
        run::fits(run, seen),
    ensures
        run::said(run, seen) is Nothing,
        run::next(run, seen).0.turn == run.turn,
        run::next(run, seen).0.settings == run.settings,
{
}

/// The answer of a run is what the model said in the last response that was written down, which asks
/// for no tool; after it stands nothing but the end of the run.
pub proof fn the_answer_is_the_last_response(
    settings: RunSettings,
    seen: Seq<Observation>,
    outcome: RunOutcome,
)
    requires
        possible(settings, seen),
        action_after(settings, seen) == ActionView::Return(RunEnd::Answered(outcome)),
    ensures
        answered_before(ledger_after(settings, seen), outcome.final_answer),
        ledger_after(settings, seen).last() is RunFinished,
        outcome.run_id == settings.run_id,
        forall|k: int|
            0 <= k < ledger_after(settings, seen).len() ==> (
            #[trigger] ledger_after(settings, seen)[k]) !is RunFailed,
{
    every_entry_names_its_run(settings, seen);
    consistent_after(settings, seen.drop_last());
    let before = ledger_after(settings, seen.drop_last());
    assert(ledger_after(settings, seen) == before);
    assert forall|k: int| 0 <= k < before.len() implies (#[trigger] before[k]) !is RunFailed by {
        if k < before.len() - 1 {
            assert(!ends_run(before[k]));
        }
    }
}

/// That older turns were left out is written down at most once, right after the start.
pub proof fn a_compaction_follows_the_start(settings: RunSettings, seen: Seq<Observation>, k: int)
    requires
        possible(settings, seen),
        0 <= k < ledger_after(settings, seen).len(),
        ledger_after(settings, seen)[k] is ContextCompacted,
    ensures
        k == 1,
{
    consistent_after(settings, seen);
}

/// The ledger keeps what a tool brought as the tool brought it; the model is told the same data in
/// the tool's wrapper.
pub proof fn the_ledger_keeps_the_raw_output(
    run: RunView,
    output: ToolOutput,
    before: Seq<ModelMessage>,
    after: Seq<ModelMessage>,
)
    requires
        run::well_formed(run),
        run.phase is Executing,
        ({
            let ended = run::next(run, Observation::ToolDone(output)).0;
            run::continued(before, after, run.uses, run::said(ended, Observation::Done))
        }),
    ensures
        run::next(run, Observation::ToolDone(output)).1 == run::record(
            run,
            EntryView::ToolFinished { step: run.turn, output },
        ),
        model::is_tool_result(
            after[before.len() as int],
            run.uses[0].id,
            tool_output::wrapped(run.uses[0].name@, output.data@),
            run::result_is_error(run.uses[0].name@, json::json_at(output.data@, "/exit_code"@)),
        ),
{
    assert(after[before.len() + 0int] == after[before.len() as int]);
}

} // verus!
