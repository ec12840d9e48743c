//! What holds of the single steps of a run, and of the responses that it ends with.

use crate::app::model::{ModelBlock, ModelResponse, ModelStop};
use crate::app::policy::{evaluate_policy, Actor, ApprovalMode, PolicyDecision, PolicyReason, ToolCall};
use crate::app::run::{
    self, completion_retry_delay, Action, ActionView, ApprovalOutcome, DenialReason, EntryView,
    FailReason, Observation, Phase, RetryDelay, Run, RunEnd, RunSettings, ToolOutput,
};
use crate::app::run_laws;
use crate::app::session::RunOutcome;
use crate::app::{model, policy};
use crate::error::AppError;
use crate::tool_catalog::{self, EffectClass};
use crate::text;
use vstd::prelude::*;

verus! {

/// Whether a run asks for an entry of its own to be written.
pub open spec fn writes(run: Run, action: Action, event: EntryView) -> bool {
    action@ == (ActionView::Record { run_id: run.settings.run_id, event })
}

/// Whether a response asks for no tool.
pub open spec fn asks_for_nothing(response: ModelResponse) -> bool {
    forall|i: int| 0 <= i < response.content@.len() ==> !((#[trigger] response.content@[i]) is ToolUse)
}

proof fn no_uses(content: Seq<ModelBlock>)
    ensures
        model::tool_uses_in(content).len() == 0 <==> forall|i: int|
            0 <= i < content.len() ==> !((#[trigger] content[i]) is ToolUse),
    decreases content.len(),
{
    if content.len() > 0 {
        let t = content.drop_last();
        no_uses(t);
        assert forall|i: int| 0 <= i < t.len() implies #[trigger] t[i] == content[i] by {}
        assert(content[content.len() - 1] == content.last());
        if model::tool_uses_in(content).len() == 0 {
            assert forall|i: int| 0 <= i < content.len() implies !((#[trigger] content[i])
                is ToolUse) by {
                if i < t.len() {
                    assert(!(t[i] is ToolUse));
                }
            }
        }
        if forall|i: int| 0 <= i < content.len() ==> !((#[trigger] content[i]) is ToolUse) {
            assert forall|i: int| 0 <= i < t.len() implies !((#[trigger] t[i]) is ToolUse) by {
                assert(!(content[i] is ToolUse));
            }
        }
    }
}

/// A response that was cut off, for its length or by a filter, fails the run, whatever its text.
pub proof fn a_cut_off_response_fails_the_run(run: Run, response: ModelResponse, after: (Run, Action))
    requires
        call_ensures(Run::step, (run, Observation::Done), after),
        run.phase == (Phase::RecordingResponse { response }),
    ensures
        response.stop == ModelStop::MaxOutput ==> writes(
            run,
            after.1,
            EntryView::RunFailed { reason: FailReason::MaxOutput },
        ),
        response.stop == ModelStop::ContentFilter ==> writes(
            run,
            after.1,
            EntryView::RunFailed { reason: FailReason::ContentFilter },
        ),
        response.stop == ModelStop::EndTurn || response.stop == ModelStop::ToolUse ==> after.1
            is PollCancel,
{
}

/// The last response among some observations.
pub open spec fn last_response(seen: Seq<Observation>) -> Option<ModelResponse>
    decreases seen.len(),
{
    if seen.len() == 0 {
        None
    } else {
        match seen.last() {
            Observation::Responded(response) => Some(response),
            _ => last_response(seen.drop_last()),
        }
    }
}

/// Whether the last response ends its turn with this text and asks for no tool.
pub open spec fn ends_with(seen: Seq<Observation>, words: String) -> bool {
    last_response(seen) matches Some(response) && response.stop == ModelStop::EndTurn
        && response.text == words && asks_for_nothing(response)
}

proof fn responses_follow(settings: RunSettings, seen: Seq<Observation>)
    requires
        run_laws::possible(settings, seen),
    ensures
        ({
            let phase = run_laws::state_after(settings, seen).phase;
            &&& phase matches Phase::RecordingResponse { response } ==> last_response(seen)
                == Some(response)
            &&& phase matches Phase::PollingAfterResponse { response } ==> last_response(seen)
                == Some(response) && response.stop != ModelStop::MaxOutput && response.stop
                != ModelStop::ContentFilter
            &&& phase matches Phase::RecordingFinish { answer } ==> ends_with(seen, answer)
            &&& phase matches Phase::FinishingSession { answer } ==> ends_with(seen, answer)
            &&& phase matches Phase::RecordingFailure { end, .. } ==> end !is Answered
            &&& phase matches Phase::FailingSession { end } ==> end !is Answered
        }),
    decreases seen.len(),
{
    if seen.len() > 0 {
        responses_follow(settings, seen.drop_last());
        let before = run_laws::state_after(settings, seen.drop_last());
        if let Phase::PollingAfterResponse { response } = before.phase {
            no_uses(response.content@);
        }
    }
}

/// A run is answered only by a response that the model ended by itself and that asks for no tool: the
/// last one, with its whole text. One that was cut off is never an answer.
pub proof fn only_a_whole_response_is_an_answer(
    settings: RunSettings,
    seen: Seq<Observation>,
    outcome: RunOutcome,
)
    requires
        run_laws::possible(settings, seen),
        run_laws::action_after(settings, seen) == ActionView::Return(RunEnd::Answered(outcome)),
    ensures
        last_response(seen) matches Some(response) && response.stop == ModelStop::EndTurn
            && response.text == outcome.final_answer && asks_for_nothing(response),
{
    responses_follow(settings, seen.drop_last());
}

/// What becomes of a whole response: without a tool it is the answer, unless the model said that it
/// wants one; with tools the run goes on, unless two of them have one identifier. It never ends the
/// run in any other way.
pub proof fn a_whole_response_is_taken_up(run: Run, response: ModelResponse, after: (Run, Action))
    requires
        call_ensures(Run::step, (run, Observation::Cancel(false)), after),
        run.phase == (Phase::PollingAfterResponse { response }),
    ensures
        asks_for_nothing(response) && response.stop != ModelStop::ToolUse ==> {
            &&& writes(run, after.1, EntryView::RunFinished)
            &&& after.0.phase == (Phase::RecordingFinish { answer: response.text })
            &&& after.0.messages@ == run.messages@
        },
        asks_for_nothing(response) && response.stop == ModelStop::ToolUse ==> writes(
            run,
            after.1,
            EntryView::RunFailed { reason: FailReason::ToolUseWithoutCalls },
        ),
        !asks_for_nothing(response) ==> {
            let uses = model::tool_uses_in(response.content@);
            &&& (exists|i: int, j: int|
                0 <= i < j < uses.len() && (#[trigger] uses[i]).id@ == (#[trigger] uses[j]).id@)
                ==> writes(
                run,
                after.1,
                EntryView::RunFailed { reason: FailReason::RepeatedCallIds },
            )
            &&& (forall|i: int, j: int|
                0 <= i < j < uses.len() ==> (#[trigger] uses[i]).id@ != (#[trigger] uses[j]).id@)
                ==> {
                &&& after.0.uses@ == uses
                &&& after.0.messages@.len() == run.messages@.len() + 1
                &&& after.0.messages@[run.messages@.len() as int].role == model::Role::Assistant
                &&& after.0.messages@[run.messages@.len() as int].content == response.content
                &&& run.settings.stream_to_stderr && response.streamed_deltas == 0
                    && !text::is_blank(response.text@) ==> after.1 == Action::Print(response.text)
                &&& !(run.settings.stream_to_stderr && response.streamed_deltas == 0
                    && !text::is_blank(response.text@)) ==> (
                after.1@ matches ActionView::Record { event: EntryView::ToolCallProposed { call }, .. }
                    && call.tool == uses[0].name && call.input == uses[0].input && call.step
                    == run.turn)
            }
        },
{
    no_uses(response.content@);
}

/// A run that is to be canceled is canceled wherever it looks: a failure is written down, and the
/// caller is told of the cancellation.
pub proof fn a_cancellation_is_heeded(run: Run, after: (Run, Action))
    requires
        call_ensures(Run::step, (run, Observation::Cancel(true)), after),
    ensures
        writes(run, after.1, EntryView::RunFailed { reason: FailReason::Canceled }),
        after.0.phase matches Phase::RecordingFailure { canceled, close_session, end, .. } && canceled
            && close_session && end == RunEnd::Canceled,
        after.0.messages@ == run.messages@,
{
}

/// Whether a run waits for an entry to be written or a session to be closed, at its end.
pub open spec fn failing(phase: Phase, end: RunEnd) -> bool {
    ||| phase matches Phase::RecordingFailure { end: e, .. } && e == end
    ||| phase matches Phase::FailingSession { end: e } && e == end
}

/// A run that fails ends as it was decided, and its session is told why first, where it has one and
/// is to be told.
pub proof fn a_failure_ends_as_decided(run: Run, after: (Run, Action))
    requires
        call_ensures(Run::step, (run, Observation::Done), after),
    ensures
        run.phase matches Phase::RecordingFailure { reason, canceled, close_session, end } ==> {
            &&& run.settings.has_session && close_session ==> after.1 == (Action::FailSession {
                reason,
                canceled,
            }) && after.0.phase == (Phase::FailingSession { end })
            &&& !(run.settings.has_session && close_session) ==> after.1@ == ActionView::Return(end)
        },
        run.phase matches Phase::FailingSession { end } ==> after.1@ == ActionView::Return(end),
        run.phase matches Phase::RecordingFinish { answer } ==> {
            &&& run.settings.has_session ==> after.1@ == (ActionView::FinishSession { answer })
                && after.0.phase == (Phase::FinishingSession { answer })
            &&& !run.settings.has_session ==> after.1@ == ActionView::Return(
                RunEnd::Answered(
                    RunOutcome { run_id: run.settings.run_id, final_answer: answer },
                ),
            )
        },
        run.phase matches Phase::FinishingSession { answer } ==> after.1@ == ActionView::Return(
            RunEnd::Answered(RunOutcome { run_id: run.settings.run_id, final_answer: answer }),
        ),
{
}

/// What a caller is told: an answer where there is one, and otherwise an error that says why.
pub proof fn the_caller_is_told_the_end(end: RunEnd, told: Result<RunOutcome, AppError>)
    requires
        call_ensures(RunEnd::into_result, (end,), told),
    ensures
        told is Ok <==> end is Answered,
        end matches RunEnd::Answered(outcome) ==> told == Ok::<RunOutcome, AppError>(outcome),
        end is Canceled ==> told == Err::<RunOutcome, AppError>(AppError::RunCanceled),
        end matches RunEnd::Error(error) ==> told == Err::<RunOutcome, AppError>(error),
        end == RunEnd::Failed(FailReason::MaxOutput) ==> (told matches Err(AppError::RunFailed(words))
            && words@ == "model reached max output tokens"@),
        end == RunEnd::Failed(FailReason::ContentFilter) ==> (told matches Err(
            AppError::RunFailed(words),
        ) && words@ == "model response was stopped by content filter"@),
        end == RunEnd::Failed(FailReason::ToolUseWithoutCalls) ==> (told matches Err(
            AppError::RunFailed(words),
        ) && words@ == "provider reported tool use without tool calls"@),
        end == RunEnd::Failed(FailReason::RepeatedCallIds) ==> (told matches Err(
            AppError::RunFailed(words),
        ) && words@ == "provider returned duplicate tool call ids"@),
        end matches RunEnd::Failed(FailReason::TurnLimit(turns)) ==> (told matches Err(
            AppError::RunFailed(words),
        ) && words@ == "exceeded maximum turn count of "@ + text::decimal(turns as nat)),
{
}

/// A context that is over its budget fails the run before the model is asked, and the caller is told
/// both numbers.
pub proof fn an_oversized_context_fails_the_run(run: Run, used: u32, budget: u32, after: (Run, Action))
    requires
        call_ensures(Run::step, (run, Observation::BudgetExceeded { used, budget }), after),
    ensures
        writes(
            run,
            after.1,
            EntryView::RunFailed { reason: FailReason::ContextBudget { used, budget } },
        ),
        after.0.phase matches Phase::RecordingFailure { end, .. } && end == RunEnd::Error(
            AppError::ContextBudgetExceeded { used, budget },
        ),
        after.0.messages@ == run.messages@,
{
}

/// A request is made again only where it was refused for its rate, once in a turn, and after at most
/// thirty seconds; any other failure, and a second refusal, ends the run with the error.
pub proof fn only_one_refusal_is_retried(
    run: Run,
    error: AppError,
    words: String,
    canceled: bool,
    after: (Run, Action),
    later: (Run, Action),
)
    requires
        call_ensures(Run::step, (run, Observation::SendFailed { error, words }), after),
        call_ensures(Run::step, (after.0, Observation::Cancel(canceled)), later),
        run.phase is Sending,
    ensures
        after.1 is PollCancel,
        canceled ==> writes(run, later.1, EntryView::RunFailed { reason: FailReason::Canceled }),
        !canceled && error !is ProviderCompletionRateLimited ==> {
            &&& writes(run, later.1, EntryView::RunFailed { reason: FailReason::Request(words) })
            &&& failing(later.0.phase, RunEnd::Error(error))
        },
        !canceled && run.phase == (Phase::Sending { retried: true }) ==> {
            &&& writes(run, later.1, EntryView::RunFailed { reason: FailReason::Request(words) })
            &&& failing(later.0.phase, RunEnd::Error(error))
        },
        !canceled && run.phase == (Phase::Sending { retried: false }) && error == (
        AppError::ProviderCompletionRateLimited { retry_after_seconds: None }) ==> {
            &&& writes(run, later.1, EntryView::ModelFailed { step: run.turn, reason: words })
            &&& later.0.phase == (Phase::RecordingRetry { delay: RetryDelay::Default })
        },
        later.0.messages@ == run.messages@,
        later.0.turn == run.turn,
{
}

/// How long to wait before a request is made again: as long as the provider asked for where that is a
/// number of seconds from zero to thirty, one second where it asked for no such number, and not at
/// all where it asked for more. The bounds are the bits of the numbers.
pub proof fn a_wait_is_at_most_thirty_seconds(error: &AppError, delay: Option<RetryDelay>)
    requires
        call_ensures(completion_retry_delay, (error,), delay),
    ensures
        error !is ProviderCompletionRateLimited ==> delay is None,
        *error matches AppError::ProviderCompletionRateLimited { retry_after_seconds } ==> {
            &&& retry_after_seconds is None ==> delay == Some(RetryDelay::Default)
            &&& retry_after_seconds matches Some(bits) ==> {
                &&& bits <= 0x403e_0000_0000_0000 ==> delay == Some(RetryDelay::SecondsBits(bits))
                &&& bits == 0x8000_0000_0000_0000 ==> delay == Some(RetryDelay::SecondsBits(bits))
                &&& 0x403e_0000_0000_0000 < bits < 0x7ff0_0000_0000_0000 ==> delay is None
                &&& bits >= 0x7ff0_0000_0000_0000 && bits != 0x8000_0000_0000_0000 ==> delay
                    == Some(RetryDelay::Default)
            }
        },
{
}

/// After a refusal was written down the run waits as long as was decided, writes its request down
/// again and sends it, in the same turn and with the same conversation.
pub proof fn a_retry_waits_and_asks_again(
    run: Run,
    delay: RetryDelay,
    waiting: (Run, Action),
    asking: (Run, Action),
    sending: (Run, Action),
)
    requires
        run.phase == (Phase::RecordingRetry { delay }),
        call_ensures(Run::step, (run, Observation::Done), waiting),
        call_ensures(Run::step, (waiting.0, Observation::Done), asking),
        call_ensures(Run::step, (asking.0, Observation::Done), sending),
    ensures
        waiting.1 == Action::Sleep(delay),
        writes(
            run,
            asking.1,
            EntryView::ModelRequested { step: run.turn, model: run.settings.model },
        ),
        sending.1 is Send,
        sending.0.phase == (Phase::Sending { retried: true }),
        sending.0.messages@ == run.messages@,
        sending.0.turn == run.turn,
        sending.0.settings == run.settings,
{
}

/// What a tool does goes by its name alone.
pub proof fn a_tool_is_known_by_its_name(tool: &str, effect: EffectClass)
    requires
        call_ensures(tool_catalog::effect_for_tool, (tool,), effect),
    ensures
        tool@ == "file.read"@ || tool@ == "file.list"@ ==> effect == EffectClass::ReadOnly,
        tool@ == "file.write"@ || tool@ == "file.edit"@ ==> effect == EffectClass::WorkspaceWrite,
        tool@ == "web.fetch"@ ==> effect == EffectClass::Network,
        effect == EffectClass::ReadOnly ==> tool@ == "file.read"@ || tool@ == "file.list"@,
        effect == EffectClass::WorkspaceWrite ==> tool@ == "file.write"@ || tool@ == "file.edit"@,
        effect == EffectClass::Network ==> tool@ == "web.fetch"@,
        effect != EffectClass::SecretAccess,
{
    reveal_strlit("file.read");
    reveal_strlit("file.list");
    reveal_strlit("file.write");
    reveal_strlit("file.edit");
    reveal_strlit("web.fetch");
    assert("file.read"@[5] == 'r' && "file.list"@[5] == 'l' && "file.write"@[5] == 'w'
        && "file.edit"@[5] == 'e' && "web.fetch"@[0] == 'w' && "file.read"@[0] == 'f'
        && "file.list"@[0] == 'f' && "file.write"@[0] == 'f' && "file.edit"@[0] == 'f');
}

/// Whether a tool is among those that are enabled.
pub open spec fn is_enabled(enabled: Seq<String>, tool: Seq<char>) -> bool {
    exists|i: int| 0 <= i < enabled.len() && (#[trigger] enabled[i])@ == tool
}

proof fn enabled_by_text(enabled: Seq<String>, tool: Seq<char>)
    ensures
        tool_catalog::texts(enabled).contains(tool) <==> is_enabled(enabled, tool),
{
    let names = tool_catalog::texts(enabled);
    if names.contains(tool) {
        let i = choose|i: int| 0 <= i < names.len() && names[i] == tool;
        assert(enabled[i]@ == tool);
    }
    if is_enabled(enabled, tool) {
        let i = choose|i: int| 0 <= i < enabled.len() && (#[trigger] enabled[i])@ == tool;
        assert(names[i] == tool);
    }
}

/// Whether a decision on a call is the right one: a tool that is not enabled is refused, the shell
/// needs somebody's approval, reading is allowed, and anything else needs approval for what it does.
pub open spec fn decided_rightly(
    enabled: Seq<String>,
    call: ToolCall,
    decision: PolicyDecision,
) -> bool {
    &&& decision is Deny <==> !is_enabled(enabled, call.tool@)
    &&& decision is Allow <==> is_enabled(enabled, call.tool@) && call.tool@ != "shell.exec"@
        && call.effect == EffectClass::ReadOnly
    &&& decision matches PolicyDecision::Deny { reason } ==> reason
        == PolicyReason::ToolNotEnabled(call.tool)
    &&& decision matches PolicyDecision::RequireApproval { reason } ==> {
        &&& call.tool@ == "shell.exec"@ ==> reason is ShellNeedsApproval
        &&& call.tool@ != "shell.exec"@ ==> reason
            == PolicyReason::EffectNeedsApproval(call.effect)
    }
}

/// Every decision on a call is the right one.
pub proof fn the_policy_decides(enabled: &Vec<String>, call: &ToolCall, decision: PolicyDecision)
    requires
        call_ensures(evaluate_policy, (enabled, call), decision),
    ensures
        decided_rightly(enabled@, *call, decision),
{
    enabled_by_text(enabled@, call.tool@);
}

/// Whether a call is that of the first tool that a run is asked for in its turn.
pub open spec fn is_first_call(run: Run, call: ToolCall) -> bool {
    &&& call.step == run.turn
    &&& call.tool == run.uses@[0].name
    &&& call.input == run.uses@[0].input
    &&& call_effect(call)
}

/// Whether a call has the effect of its tool.
pub open spec fn call_effect(call: ToolCall) -> bool {
    &&& call.tool@ == "file.read"@ || call.tool@ == "file.list"@ <==> call.effect
        == EffectClass::ReadOnly
    &&& call.tool@ == "file.write"@ || call.tool@ == "file.edit"@ <==> call.effect
        == EffectClass::WorkspaceWrite
    &&& call.tool@ == "web.fetch"@ <==> call.effect == EffectClass::Network
}

proof fn effects(tool: Seq<char>)
    ensures
        tool == "file.read"@ || tool == "file.list"@ <==> tool_catalog::effect_of(tool)
            == EffectClass::ReadOnly,
        tool == "file.write"@ || tool == "file.edit"@ <==> tool_catalog::effect_of(tool)
            == EffectClass::WorkspaceWrite,
        tool == "web.fetch"@ <==> tool_catalog::effect_of(tool) == EffectClass::Network,
{
    reveal_strlit("file.read");
    reveal_strlit("file.list");
    reveal_strlit("file.write");
    reveal_strlit("file.edit");
    reveal_strlit("web.fetch");
    assert("file.read"@[5] == 'r' && "file.list"@[5] == 'l' && "file.write"@[5] == 'w'
        && "file.edit"@[5] == 'e' && "web.fetch"@[0] == 'w' && "file.read"@[0] == 'f'
        && "file.list"@[0] == 'f' && "file.write"@[0] == 'f' && "file.edit"@[0] == 'f');
}

/// A call that was written down is decided on by the policy, and the decision is written down.
pub proof fn a_proposed_call_is_decided_on(run: Run, after: (Run, Action))
    requires
        call_ensures(Run::step, (run, Observation::Done), after),
        run.phase is RecordingProposal,
    ensures
        after.1@ matches ActionView::Record {
            event: EntryView::PolicyEvaluated { step, decision },
            ..
        } && step == run.turn && after.0.phase == (Phase::RecordingPolicy { decision }) && exists|
            call: ToolCall,
        | #[trigger]
            is_first_call(run, call) && decided_rightly(
                run.settings.enabled_tools@,
                call,
                decision,
            ),
{
    let call = run::call_for(run.turn, run.uses@[0]);
    enabled_by_text(run.settings.enabled_tools@, call.tool@);
    effects(call.tool@);
    assert(is_first_call(run, call));
}

/// A call that is allowed runs unless the run is canceled. One that needs approval is granted unasked
/// only where the mode approves by itself and the tool writes in the workspace; it is refused where
/// the mode denies, and otherwise the one whom the mode names is asked.
pub proof fn a_decision_is_followed(run: Run, decision: PolicyDecision, after: (Run, Action))
    requires
        call_ensures(Run::step, (run, Observation::Done), after),
        run.phase == (Phase::RecordingPolicy { decision }),
    ensures
        decision is Allow ==> after.1 is PollCancel && after.0.phase is PollingBeforeTool,
        decision matches PolicyDecision::RequireApproval { reason } ==> {
            let writes_workspace = run.uses@[0].name@ == "file.write"@ || run.uses@[0].name@
                == "file.edit"@;
            &&& run.settings.approval is AutoApprove && writes_workspace ==> writes(
                run,
                after.1,
                EntryView::ApprovalGranted { step: run.turn, actor: Actor::Yolo },
            ) && after.0.phase is RecordingGrant
            &&& run.settings.approval is AutoApprove && !writes_workspace ==> (
            after.1@ matches ActionView::AskUser { call } && is_first_call(run, call))
            &&& run.settings.approval is Prompt ==> (after.1@ matches ActionView::AskUser { call }
                && is_first_call(run, call))
            &&& run.settings.approval matches ApprovalMode::External { actor } ==> (
            after.1@ matches ActionView::AskExternal { call, reason: told } && is_first_call(
                run,
                call,
            ) && told == reason && after.0.phase == (Phase::AwaitingExternal { actor }))
            &&& run.settings.approval matches ApprovalMode::Deny { actor } ==> writes(
                run,
                after.1,
                EntryView::ApprovalDenied {
                    step: run.turn,
                    actor: Actor::Named(actor),
                    reason: DenialReason::NoChannel(reason),
                },
            ) && after.0.phase is RecordingDenial
        },
{
    effects(run.uses@[0].name@);
}

/// Whoever was asked decides: the decision is written down in their name, with their reason where
/// they refuse.
pub proof fn the_one_asked_decides(run: Run, outcome: ApprovalOutcome, after: (Run, Action))
    requires
        call_ensures(Run::step, (run, Observation::Decided(outcome)), after),
        run.phase is AwaitingUser || run.phase is AwaitingExternal,
    ensures
        ({
            let actor = match run.phase {
                Phase::AwaitingExternal { actor } => Actor::Named(actor),
                _ => Actor::Stdin,
            };
            &&& outcome is Granted ==> writes(
                run,
                after.1,
                EntryView::ApprovalGranted { step: run.turn, actor },
            ) && after.0.phase is RecordingGrant
            &&& outcome matches ApprovalOutcome::Denied { reason } ==> writes(
                run,
                after.1,
                EntryView::ApprovalDenied {
                    step: run.turn,
                    actor,
                    reason: DenialReason::Given(reason),
                },
            ) && after.0.phase == (Phase::RecordingDenial { reason: DenialReason::Given(reason) })
        }),
{
}

/// A call with leave to run is started, written down as started, and executed as it was asked for.
pub proof fn a_call_runs_as_it_was_asked_for(
    run: Run,
    polling: (Run, Action),
    starting: (Run, Action),
    executing: (Run, Action),
)
    requires
        run.phase is RecordingGrant,
        call_ensures(Run::step, (run, Observation::Done), polling),
        call_ensures(Run::step, (polling.0, Observation::Cancel(false)), starting),
        call_ensures(Run::step, (starting.0, Observation::Done), executing),
    ensures
        polling.1 is PollCancel,
        writes(run, starting.1, EntryView::ToolStarted { step: run.turn }),
        executing.1@ matches ActionView::Execute { call } && is_first_call(run, call),
        executing.0.uses@ == run.uses@,
        executing.0.turn == run.turn,
        executing.0.messages@ == run.messages@,
{
    effects(run.uses@[0].name@);
}

/// Whether the tools of a turn were answered: each with its own identifier, in their order, the first
/// with what came of it, and every other one with the same refusal.
pub open spec fn tools_answered(run: Run, after: Run, words: Seq<char>, is_error: bool) -> bool {
    let n = run.messages@.len() as int;
    &&& after.messages@.len() == n + run.uses@.len()
    &&& forall|i: int| 0 <= i < n ==> #[trigger] after.messages@[i] == run.messages@[i]
    &&& forall|i: int|
        0 <= i < run.uses@.len() ==> {
            let message = #[trigger] after.messages@[n + i];
            &&& message.role == model::Role::Tool
            &&& message.content@.len() == 1
            &&& message.content@[0] matches ModelBlock::ToolResult {
                tool_call_id,
                content,
                is_error: failed,
            } && tool_call_id == run.uses@[i].id && failed == (i > 0 || is_error) && content@
                == crate::app::tool_output::wrapped(
                run.uses@[i].name@,
                if i == 0 {
                    words
                } else {
                    "not executed: at most one tool call runs per response; re-issue this call alone if still needed"@
                },
            )
        }
}

/// Whether a turn is over: the next one starts, or the run fails where its turns are used up.
pub open spec fn turn_over(run: Run, after: (Run, Action)) -> bool {
    &&& after.0.turn == run.turn + 1
    &&& run.turn + 1 < run.settings.max_turns ==> after.1 == (Action::BuildContext {
        step: (run.turn + 1) as u32,
    })
    &&& run.turn + 1 >= run.settings.max_turns ==> writes(
        run,
        after.1,
        EntryView::RunFailed { reason: FailReason::TurnLimit(run.settings.max_turns) },
    )
}

proof fn answered_so(run: Run, after: Run, words: Seq<char>, is_error: bool)
    requires
        run::continued(
            run.messages@,
            after.messages@,
            run.uses@,
            run::Said::ToolMessage { words, is_error },
        ),
    ensures
        tools_answered(run, after, words, is_error),
{
    let n = run.messages@.len() as int;
    assert forall|i: int| 0 <= i < n implies #[trigger] after.messages@[i] == run.messages@[i] by {
        assert(after.messages@.take(n)[i] == run.messages@[i]);
    }
}

/// What a tool brought is written down as it is and given to the model, and so is why it failed; the
/// turn is then over.
pub proof fn a_tools_end_is_told(
    run: Run,
    output: ToolOutput,
    reason: String,
    failed: bool,
    written: (Run, Action),
    after: (Run, Action),
)
    requires
        run::well_formed(run@),
        run.phase is Executing,
        call_ensures(
            Run::step,
            (
                run,
                if failed {
                    Observation::ToolError { reason }
                } else {
                    Observation::ToolDone(output)
                },
            ),
            written,
        ),
        call_ensures(Run::step, (written.0, Observation::Done), after),
    ensures
        failed ==> {
            &&& writes(run, written.1, EntryView::ToolFailed { step: run.turn, reason })
            &&& tools_answered(run, after.0, reason@, true)
        },
        !failed ==> {
            &&& writes(run, written.1, EntryView::ToolFinished { step: run.turn, output })
            &&& run.uses@[0].name@ != "shell.exec"@ ==> tools_answered(
                run,
                after.0,
                output.data@,
                false,
            )
            &&& exists|is_error: bool| tools_answered(run, after.0, output.data@, is_error)
        },
        turn_over(run, after),
{
    if failed {
        answered_so(written.0, after.0, reason@, true);
        assert(tools_answered(run, after.0, reason@, true));
    } else {
        let is_error = written.0.phase->RecordingToolEnd_is_error;
        answered_so(written.0, after.0, output.data@, is_error);
        assert(tools_answered(run, after.0, output.data@, is_error));
    }
}

/// A refusal is told to the model as an error, whether the policy or a person refused, and the turn is
/// then over; nothing was executed.
pub proof fn a_refusal_is_told(run: Run, after: (Run, Action))
    requires
        run::well_formed(run@),
        call_ensures(Run::step, (run, Observation::Done), after),
        run.phase is RecordingDenial || (run.phase is RecordingPolicy
            && run.phase->RecordingPolicy_decision is Deny),
    ensures
        turn_over(run, after),
        run.phase == (Phase::RecordingPolicy {
            decision: PolicyDecision::Deny {
                reason: PolicyReason::ToolNotEnabled(run.uses@[0].name),
            },
        }) ==> tools_answered(
            run,
            after.0,
            "tool is not enabled: "@ + run.uses@[0].name@,
            true,
        ),
        run.phase matches Phase::RecordingDenial { reason: DenialReason::Given(words) }
            ==> tools_answered(run, after.0, words@, true),
{
    match run.phase {
        Phase::RecordingDenial { reason } => {
            answered_so(run, after.0, run::denial_text(reason), true);
        },
        Phase::RecordingPolicy { decision: PolicyDecision::Deny { reason } } => {
            answered_so(run, after.0, policy::reason_text(reason), true);
        },
        _ => {},
    }
}

/// A run starts with its first turn. In each turn the context is written down, whole and under the
/// budget, before the model that was set is asked with the conversation so far.
pub proof fn a_turn_starts_with_its_context(
    run: Run,
    messages_json: String,
    tools_json: String,
    polling: (Run, Action),
    building: (Run, Action),
    asking: (Run, Action),
    sending: (Run, Action),
)
    requires
        run.phase is BuildingContext,
        run.turn > 0 || run.settings.compaction is None,
        call_ensures(
            Run::step,
            (run, Observation::ContextReady { messages_json, tools_json }),
            polling,
        ),
        call_ensures(Run::step, (polling.0, Observation::Cancel(false)), building),
        call_ensures(Run::step, (building.0, Observation::Done), asking),
        call_ensures(Run::step, (asking.0, Observation::Done), sending),
    ensures
        polling.1 is PollCancel,
        building.1@ matches ActionView::Record {
            run_id,
            event: EntryView::ContextBuilt { step, context },
        } && run_id == run.settings.run_id && step == run.turn && context.token_budget
            == run.settings.token_budget && context.fragments.len() == 3
            && context.fragments[0].content == run.settings.system@ && context.fragments[1].content
            == messages_json@ && context.fragments[2].content == tools_json@,
        writes(
            run,
            asking.1,
            EntryView::ModelRequested { step: run.turn, model: run.settings.model },
        ),
        sending.1 is Send,
        sending.0.phase == (Phase::Sending { retried: false }),
        sending.0.messages@ == run.messages@,
        sending.0.turn == run.turn,
{
}

/// Older turns that were left out are written down before the context of the first turn, with what
/// that saved, and only where any were left out.
pub proof fn a_compaction_is_written_down(run: Run, after: (Run, Action))
    requires
        run.phase is PollingBeforeTurn,
        call_ensures(Run::step, (run, Observation::Cancel(false)), after),
    ensures
        run.turn == 0 ==> (run.settings.compaction matches Some(compaction) ==> (
        compaction.dropped_turns > 0 ==> writes(
            run,
            after.1,
            EntryView::ContextCompacted { step: 0, compaction },
        ))),
        (run.turn > 0 || run.settings.compaction is None
            || run.settings.compaction->0.dropped_turns == 0) ==> (
        after.1@ matches ActionView::Record { event, .. } && event is ContextBuilt),
{
}

/// A run starts with an entry in its name, goes on with its first turn, and fails at once where it
/// has no turns at all.
pub proof fn a_run_starts_with_its_first_turn(
    settings: RunSettings,
    messages: Vec<model::ModelMessage>,
    started: (Run, Action),
    after: (Run, Action),
)
    requires
        call_ensures(Run::start, (settings, messages), started),
        call_ensures(Run::step, (started.0, Observation::Done), after),
    ensures
        writes(started.0, started.1, EntryView::RunStarted { agent_id: "plato"@ }),
        started.0.settings == settings,
        after.0.messages@ == messages@,
        settings.max_turns > 0 ==> after.1 == (Action::BuildContext { step: 0 }),
        settings.max_turns == 0 ==> writes(
            started.0,
            after.1,
            EntryView::RunFailed { reason: FailReason::TurnLimit(0) },
        ),
{
}

/// A response is written down as it came: its text, its usage, and every tool that it asks for, in
/// their order.
pub proof fn a_response_is_written_down(run: Run, response: ModelResponse, after: (Run, Action))
    requires
        call_ensures(Run::step, (run, Observation::Responded(response)), after),
    ensures
        after.1@ matches ActionView::Record {
            run_id,
            event: EntryView::ModelResponded { step, output, proposed_calls, usage },
        } && run_id == run.settings.run_id && step == run.turn && output == response.text && usage
            == response.usage && (proposed_calls.len() == 0 <==> asks_for_nothing(response)),
        after.0.phase == (Phase::RecordingResponse { response }),
        after.0.messages@ == run.messages@,
{
    no_uses(response.content@);
}

/// Whatever cannot be done outside ends the run with its error, and nothing more is asked for.
pub proof fn an_error_outside_ends_the_run(run: Run, error: AppError, after: (Run, Action))
    requires
        call_ensures(Run::step, (run, Observation::Failed(error)), after),
    ensures
        after.1@ == ActionView::Return(RunEnd::Error(error)),
        after.0.phase is Ended,
        after.0.messages@ == run.messages@,
{
}

} // verus!
