//! The course of one run, as a machine: it says what to do next, is told what came of it, and ends
//! with the answer or with what went wrong.

use crate::app::hydration::{self, ContextPack, ContextView};
use crate::app::model::{
    self, ModelBlock, ModelMessage, ModelResponse, ModelStop, TokenUsage, ToolProposal, ToolUse,
};
use crate::app::policy::{self, Actor, ApprovalMode, PolicyDecision, PolicyReason, ToolCall};
use crate::app::session::RunOutcome;
use crate::app::tool_output;
use crate::error::AppError;
use crate::json::JsonPartView;
use crate::{error, json, text, tool_catalog};
use vstd::prelude::*;

verus! {

/// The name under which the agent starts its runs.
pub const AGENT_ID: &'static str = "plato";

pub const RUN_CANCELED_REASON: &'static str = "run canceled";

pub const EXTRA_TOOL_CALL_ERROR: &'static str =
    "not executed: at most one tool call runs per response; re-issue this call alone if still needed";

/// The bits of the binary64 number 30.0: the longest wait, in seconds, that a provider can ask for.
pub const MAX_RETRY_SECONDS_BITS: u64 = 0x403e_0000_0000_0000;

/// The bits of the smallest binary64 number that is not finite.
pub const INFINITY_BITS: u64 = 0x7ff0_0000_0000_0000;

/// The bits of the binary64 number -0.0.
pub const NEGATIVE_ZERO_BITS: u64 = 0x8000_0000_0000_0000;

/// How long to wait before a request is made again.
#[derive(Clone, Copy, Debug, PartialEq, Eq, Structural)]
pub enum RetryDelay {
    /// One second.
    Default,
    /// The number of seconds that the provider asked for, as the bits of a binary64 number.
    SecondsBits(u64),
}

/// Whether the bits are those of a finite binary64 number that is not below zero.
pub open spec fn is_wait(bits: u64) -> bool {
    bits < INFINITY_BITS || bits == NEGATIVE_ZERO_BITS
}

/// Whether the bits are those of a number of at most thirty seconds. The numbers that are not
/// below zero are ordered as their bits are.
pub open spec fn is_short_wait(bits: u64) -> bool {
    bits <= MAX_RETRY_SECONDS_BITS || bits == NEGATIVE_ZERO_BITS
}

/// How long to wait before a request that failed is made again, if it is made again at all.
pub open spec fn retry_delay(error: AppError) -> Option<RetryDelay> {
    match error {
        AppError::ProviderCompletionRateLimited { retry_after_seconds } => match
            retry_after_seconds {
            Some(bits) => if !is_wait(bits) {
                Some(RetryDelay::Default)
            } else if is_short_wait(bits) {
                Some(RetryDelay::SecondsBits(bits))
            } else {
                None
            },
            None => Some(RetryDelay::Default),
        },
        _ => None,
    }
}

/// How long to wait before a request that failed is made again: only one that was refused for its
/// rate is, after the time that was asked for if that is at most thirty seconds, or after one
/// second if no usable time was given.
pub fn completion_retry_delay(error: &AppError) -> (result: Option<RetryDelay>)
    ensures
        result == retry_delay(*error),
{
    match error {
        AppError::ProviderCompletionRateLimited { retry_after_seconds } => match
            retry_after_seconds {
            Some(bits) => {
                let bits: u64 = *bits;
                if !(bits < INFINITY_BITS || bits == NEGATIVE_ZERO_BITS) {
                    Some(RetryDelay::Default)
                } else if bits <= MAX_RETRY_SECONDS_BITS || bits == NEGATIVE_ZERO_BITS {
                    Some(RetryDelay::SecondsBits(bits))
                } else {
                    None
                }
            },
            None => Some(RetryDelay::Default),
        },
        _ => None,
    }
}

/// Why a run ended without an answer.
#[derive(Debug, PartialEq, Eq)]
pub enum FailReason {
    Canceled,
    MaxOutput,
    ContentFilter,
    ToolUseWithoutCalls,
    RepeatedCallIds,
    TurnLimit(u32),
    ContextBudget { used: u32, budget: u32 },
    /// The request to the model failed: the error in words.
    Request(String),
}

/// A reason in words.
pub open spec fn fail_text(reason: FailReason) -> Seq<char> {
    match reason {
        FailReason::Canceled => RUN_CANCELED_REASON@,
        FailReason::MaxOutput => "model reached max output tokens"@,
        FailReason::ContentFilter => "model response was stopped by content filter"@,
        FailReason::ToolUseWithoutCalls => "provider reported tool use without tool calls"@,
        FailReason::RepeatedCallIds => "provider returned duplicate tool call ids"@,
        FailReason::TurnLimit(max_turns) => "exceeded maximum turn count of "@ + text::decimal(
            max_turns as nat,
        ),
        FailReason::ContextBudget { used, budget } => error::error_text(
            AppError::ContextBudgetExceeded { used, budget },
        ),
        FailReason::Request(words) => words@,
    }
}

impl FailReason {
    /// The reason in words.
    pub fn message(&self) -> (result: String)
        ensures
            result@ == fail_text(*self),
    {
        match self {
            FailReason::Canceled => RUN_CANCELED_REASON.to_owned(),
            FailReason::MaxOutput => "model reached max output tokens".to_owned(),
            FailReason::ContentFilter => "model response was stopped by content filter".to_owned(),
            FailReason::ToolUseWithoutCalls =>
                "provider reported tool use without tool calls".to_owned(),
            FailReason::RepeatedCallIds => "provider returned duplicate tool call ids".to_owned(),
            FailReason::TurnLimit(max_turns) => {
                let count = text::to_decimal(*max_turns as u64);
                text::concat("exceeded maximum turn count of ", count.as_str())
            },
            FailReason::ContextBudget { used, budget } => {
                let error = AppError::ContextBudgetExceeded { used: *used, budget: *budget };
                error.message()
            },
            FailReason::Request(words) => words.clone(),
        }
    }
}

impl Clone for FailReason {
    fn clone(&self) -> (result: Self)
        ensures
            result == *self,
    {
        match self {
            FailReason::Canceled => FailReason::Canceled,
            FailReason::MaxOutput => FailReason::MaxOutput,
            FailReason::ContentFilter => FailReason::ContentFilter,
            FailReason::ToolUseWithoutCalls => FailReason::ToolUseWithoutCalls,
            FailReason::RepeatedCallIds => FailReason::RepeatedCallIds,
            FailReason::TurnLimit(max_turns) => FailReason::TurnLimit(*max_turns),
            FailReason::ContextBudget { used, budget } => FailReason::ContextBudget {
                used: *used,
                budget: *budget,
            },
            FailReason::Request(words) => FailReason::Request(words.clone()),
        }
    }
}

/// How a run ended.
#[derive(Debug, PartialEq, Eq)]
pub enum RunEnd {
    Answered(RunOutcome),
    Canceled,
    Failed(FailReason),
    Error(AppError),
}

impl RunEnd {
    /// The answer, or the error that the caller of the run sees.
    pub fn into_result(self) -> (result: Result<RunOutcome, AppError>)
        ensures
            match self {
                RunEnd::Answered(outcome) => result == Ok::<RunOutcome, AppError>(outcome),
                RunEnd::Canceled => result == Err::<RunOutcome, AppError>(AppError::RunCanceled),
                RunEnd::Failed(reason) => result matches Err(AppError::RunFailed(words)) && words@
                    == fail_text(reason),
                RunEnd::Error(error) => result == Err::<RunOutcome, AppError>(error),
            },
    {
        match self {
            RunEnd::Answered(outcome) => Ok(outcome),
            RunEnd::Canceled => Err(AppError::RunCanceled),
            RunEnd::Failed(reason) => Err(AppError::RunFailed(reason.message())),
            RunEnd::Error(error) => Err(error),
        }
    }
}

/// Why a call was not approved.
#[derive(Debug, PartialEq, Eq)]
pub enum DenialReason {
    /// There was nobody to ask.
    NoChannel(PolicyReason),
    /// Somebody was asked and gave this reason.
    Given(String),
}

/// A reason in words.
pub open spec fn denial_text(reason: DenialReason) -> Seq<char> {
    match reason {
        DenialReason::NoChannel(policy) =>
            "approval required but no approval channel is available: "@ + policy::reason_text(
                policy,
            ),
        DenialReason::Given(words) => words@,
    }
}

impl DenialReason {
    /// The reason in words.
    pub fn message(&self) -> (result: String)
        ensures
            result@ == denial_text(*self),
    {
        match self {
            DenialReason::NoChannel(policy) => {
                let words = policy.message();
                text::concat(
                    "approval required but no approval channel is available: ",
                    words.as_str(),
                )
            },
            DenialReason::Given(words) => words.clone(),
        }
    }
}

impl Clone for DenialReason {
    fn clone(&self) -> (result: Self)
        ensures
            result == *self,
    {
        match self {
            DenialReason::NoChannel(policy) => DenialReason::NoChannel(policy.clone()),
            DenialReason::Given(words) => DenialReason::Given(words.clone()),
        }
    }
}

/// What was decided on a call.
#[derive(Debug, PartialEq, Eq)]
pub enum ApprovalOutcome {
    Granted,
    Denied { reason: String },
}

/// What a tool brought: what it says of its work, its data as JSON, and as JSON too whatever else
/// belongs to it.
#[derive(Debug, PartialEq, Eq)]
pub struct ToolOutput {
    pub summary: String,
    pub data: String,
    pub rest: String,
}

/// The older turns that were left out of the conversation, and what that saved.
#[derive(Clone, Copy, Debug, PartialEq, Eq, Structural)]
pub struct Compaction {
    pub tokens_before: u32,
    pub tokens_after: u32,
    pub dropped_turns: u64,
}

/// What an entry of the ledger says. `step` is the turn, counted from zero; the identifiers of the
/// turn and of its call are made from it.
#[derive(Debug, PartialEq, Eq)]
pub enum HarnessEvent {
    RunStarted { agent_id: String },
    ContextCompacted { step: u32, compaction: Compaction },
    ContextBuilt { step: u32, context: ContextPack },
    ModelRequested { step: u32, model: String },
    /// The request was refused for its rate, in these words, and will be made again.
    ModelFailed { step: u32, reason: String },
    /// What the model said, every call that it asks for, and what the request took.
    ModelResponded {
        step: u32,
        output: String,
        proposed_calls: Vec<ToolProposal>,
        usage: TokenUsage,
    },
    ToolCallProposed { call: ToolCall },
    PolicyEvaluated { step: u32, decision: PolicyDecision },
    ApprovalGranted { step: u32, actor: Actor },
    ApprovalDenied { step: u32, actor: Actor, reason: DenialReason },
    ToolStarted { step: u32 },
    /// What the tool brought, as it brought it.
    ToolFinished { step: u32, output: ToolOutput },
    ToolFailed { step: u32, reason: String },
    RunFinished,
    RunFailed { reason: FailReason },
}

/// What an entry of the ledger says, with the words of what is made up for it.
#[verifier::ext_equal]
pub enum EntryView {
    RunStarted { agent_id: Seq<char> },
    ContextCompacted { step: u32, compaction: Compaction },
    ContextBuilt { step: u32, context: ContextView },
    ModelRequested { step: u32, model: String },
    ModelFailed { step: u32, reason: String },
    ModelResponded {
        step: u32,
        output: String,
        proposed_calls: Seq<ToolProposal>,
        usage: TokenUsage,
    },
    ToolCallProposed { call: ToolCall },
    PolicyEvaluated { step: u32, decision: PolicyDecision },
    ApprovalGranted { step: u32, actor: Actor },
    ApprovalDenied { step: u32, actor: Actor, reason: DenialReason },
    ToolStarted { step: u32 },
    ToolFinished { step: u32, output: ToolOutput },
    ToolFailed { step: u32, reason: String },
    RunFinished,
    RunFailed { reason: FailReason },
}

impl View for HarnessEvent {
    type V = EntryView;

    open spec fn view(&self) -> EntryView {
        match *self {
            HarnessEvent::RunStarted { agent_id } => EntryView::RunStarted { agent_id: agent_id@ },
            HarnessEvent::ContextCompacted { step, compaction } => EntryView::ContextCompacted {
                step,
                compaction,
            },
            HarnessEvent::ContextBuilt { step, context } => EntryView::ContextBuilt {
                step,
                context: context@,
            },
            HarnessEvent::ModelRequested { step, model } => EntryView::ModelRequested {
                step,
                model,
            },
            HarnessEvent::ModelFailed { step, reason } => EntryView::ModelFailed { step, reason },
            HarnessEvent::ModelResponded { step, output, proposed_calls, usage } =>
                EntryView::ModelResponded {
                step,
                output,
                proposed_calls: proposed_calls@,
                usage,
            },
            HarnessEvent::ToolCallProposed { call } => EntryView::ToolCallProposed { call },
            HarnessEvent::PolicyEvaluated { step, decision } => EntryView::PolicyEvaluated {
                step,
                decision,
            },
            HarnessEvent::ApprovalGranted { step, actor } => EntryView::ApprovalGranted {
                step,
                actor,
            },
            HarnessEvent::ApprovalDenied { step, actor, reason } => EntryView::ApprovalDenied {
                step,
                actor,
                reason,
            },
            HarnessEvent::ToolStarted { step } => EntryView::ToolStarted { step },
            HarnessEvent::ToolFinished { step, output } => EntryView::ToolFinished {
                step,
                output,
            },
            HarnessEvent::ToolFailed { step, reason } => EntryView::ToolFailed { step, reason },
            HarnessEvent::RunFinished => EntryView::RunFinished,
            HarnessEvent::RunFailed { reason } => EntryView::RunFailed { reason },
        }
    }
}

/// What the caller does next.
#[derive(Debug, PartialEq, Eq)]
pub enum Action {
    /// Write an entry of the run to the ledger.
    Record { run_id: String, event: HarnessEvent },
    /// Write the conversation and the tools of a turn as JSON.
    BuildContext { step: u32 },
    /// Look whether the run is to be canceled.
    PollCancel,
    /// Send the request of the turn.
    Send,
    /// Wait.
    Sleep(RetryDelay),
    /// Show a text that was not shown while it came in.
    Print(String),
    /// Ask whoever decides outside the run.
    AskExternal { call: ToolCall, reason: PolicyReason },
    /// Ask the user.
    AskUser { call: ToolCall },
    /// Run the tool.
    Execute { call: ToolCall },
    /// Mark the session's run as failed.
    FailSession { reason: FailReason, canceled: bool },
    /// Store the answer with the session.
    FinishSession { answer: String },
    /// The run is over.
    Return(RunEnd),
}

/// What the caller does next, with the words of an entry that it writes.
#[verifier::ext_equal]
pub enum ActionView {
    Record { run_id: String, event: EntryView },
    BuildContext { step: u32 },
    PollCancel,
    Send,
    Sleep(RetryDelay),
    Print(String),
    AskExternal { call: ToolCall, reason: PolicyReason },
    AskUser { call: ToolCall },
    Execute { call: ToolCall },
    FailSession { reason: FailReason, canceled: bool },
    FinishSession { answer: String },
    Return(RunEnd),
}

impl View for Action {
    type V = ActionView;

    open spec fn view(&self) -> ActionView {
        match *self {
            Action::Record { run_id, event } => ActionView::Record { run_id, event: event@ },
            Action::BuildContext { step } => ActionView::BuildContext { step },
            Action::PollCancel => ActionView::PollCancel,
            Action::Send => ActionView::Send,
            Action::Sleep(delay) => ActionView::Sleep(delay),
            Action::Print(words) => ActionView::Print(words),
            Action::AskExternal { call, reason } => ActionView::AskExternal { call, reason },
            Action::AskUser { call } => ActionView::AskUser { call },
            Action::Execute { call } => ActionView::Execute { call },
            Action::FailSession { reason, canceled } => ActionView::FailSession {
                reason,
                canceled,
            },
            Action::FinishSession { answer } => ActionView::FinishSession { answer },
            Action::Return(end) => ActionView::Return(end),
        }
    }
}

/// What came of an action.
#[derive(Debug, PartialEq, Eq)]
pub enum Observation {
    /// It was done.
    Done,
    /// It failed, and the run cannot go on.
    Failed(AppError),
    /// The conversation and the tools of the turn, as JSON.
    ContextReady { messages_json: String, tools_json: String },
    /// Whether the run is to be canceled.
    Cancel(bool),
    /// The context was not written, for it is larger than its budget.
    BudgetExceeded { used: u32, budget: u32 },
    Responded(ModelResponse),
    /// The request failed; `words` is the error in words.
    SendFailed { error: AppError, words: String },
    Decided(ApprovalOutcome),
    /// The tool ran; what it brought.
    ToolDone(ToolOutput),
    /// The tool failed.
    ToolError { reason: String },
}

/// Where a run stands: the action that it waits for.
#[derive(Debug, PartialEq, Eq)]
pub enum Phase {
    RecordingStart,
    BuildingContext,
    PollingBeforeTurn { messages_json: String, tools_json: String },
    RecordingCompaction { messages_json: String, tools_json: String },
    RecordingContext,
    RecordingRequest { retried: bool },
    Sending { retried: bool },
    PollingBeforeRetry { delay: RetryDelay, words: String },
    RecordingRetry { delay: RetryDelay },
    Sleeping,
    PollingAfterFailure { error: AppError, words: String },
    RecordingResponse { response: ModelResponse },
    PollingAfterResponse { response: ModelResponse },
    RecordingFinish { answer: String },
    FinishingSession { answer: String },
    Printing,
    RecordingProposal,
    RecordingPolicy { decision: PolicyDecision },
    AwaitingExternal { actor: String },
    AwaitingUser,
    RecordingGrant,
    RecordingDenial { reason: DenialReason },
    PollingBeforeTool,
    RecordingToolStart,
    Executing,
    RecordingToolEnd { content: String, is_error: bool },
    RecordingFailure { reason: FailReason, canceled: bool, close_session: bool, end: RunEnd },
    FailingSession { end: RunEnd },
    Ended,
}

/// What a run goes by.
#[derive(Debug, PartialEq, Eq)]
pub struct RunSettings {
    /// The run's identifier, which every entry of its ledger carries.
    pub run_id: String,
    /// The model that is asked.
    pub model: String,
    /// The instructions that every request starts with.
    pub system: String,
    /// The most tokens that the context of a request is estimated at.
    pub token_budget: u32,
    pub max_turns: u32,
    pub enabled_tools: Vec<String>,
    pub approval: ApprovalMode,
    pub stream_to_stderr: bool,
    /// Whether the run belongs to a session.
    pub has_session: bool,
    /// What was left out of the session's older turns, if anything was.
    pub compaction: Option<Compaction>,
}

/// A run on its way.
#[derive(Debug)]
pub struct Run {
    pub settings: RunSettings,
    pub turn: u32,
    pub phase: Phase,
    /// The tools that the last response asks for.
    pub uses: Vec<ToolUse>,
    /// The conversation so far.
    pub messages: Vec<ModelMessage>,
}

/// What decides how a run goes on: everything but the conversation.
pub struct RunView {
    pub settings: RunSettings,
    pub turn: u32,
    pub phase: Phase,
    pub uses: Seq<ToolUse>,
}

impl View for Run {
    type V = RunView;

    open spec fn view(&self) -> RunView {
        RunView {
            settings: self.settings,
            turn: self.turn,
            phase: self.phase,
            uses: self.uses@,
        }
    }
}

/// Whether a tool's result counts as an error: the shell reports one by an exit code other than
/// zero.
pub open spec fn result_is_error(tool: Seq<char>, exit_code: JsonPartView) -> bool {
    tool == tool_catalog::SHELL_EXEC@ && match exit_code {
        JsonPartView::Missing => false,
        JsonPartView::Number { signed, .. } => signed != Some(0i64),
        _ => true,
    }
}

/// The call that stands for a tool that the model wants to use.
pub open spec fn call_for(step: u32, used: ToolUse) -> ToolCall {
    ToolCall {
        step,
        tool: used.name,
        effect: tool_catalog::effect_of(used.name@),
        input: used.input,
    }
}

/// An entry that a run asks to be written.
pub open spec fn record(run: RunView, event: EntryView) -> ActionView {
    ActionView::Record { run_id: run.settings.run_id, event }
}

/// The entry of the context of a turn.
pub open spec fn context_entry(
    run: RunView,
    messages_json: String,
    tools_json: String,
) -> ActionView {
    record(
        run,
        EntryView::ContextBuilt {
            step: run.turn,
            context: hydration::context_of(
                run.settings.system@,
                messages_json@,
                tools_json@,
                run.settings.token_budget,
            ),
        },
    )
}

/// The entry of a request to the model.
pub open spec fn request_entry(run: RunView) -> ActionView {
    record(run, EntryView::ModelRequested { step: run.turn, model: run.settings.model })
}

/// The entry of a response: its text, every call that it asks for, and its usage.
pub open spec fn response_entry(run: RunView, response: ModelResponse) -> ActionView {
    record(
        run,
        EntryView::ModelResponded {
            step: run.turn,
            output: response.text,
            proposed_calls: model::proposals_in(response.content@),
            usage: response.usage,
        },
    )
}

/// What a run that was answered brings.
pub open spec fn outcome(run: RunView, final_answer: String) -> RunOutcome {
    RunOutcome { run_id: run.settings.run_id, final_answer }
}

/// The start of a turn, or the end of a run that has used up its turns.
pub open spec fn enter_turn(run: RunView, turn: u32) -> (RunView, ActionView) {
    if turn < run.settings.max_turns {
        (
            RunView { turn, phase: Phase::BuildingContext, ..run },
            ActionView::BuildContext { step: turn },
        )
    } else {
        enter_failure(
            RunView { turn, ..run },
            FailReason::TurnLimit(run.settings.max_turns),
        )
    }
}

/// A run that ends for a reason of its own.
pub open spec fn enter_failure(run: RunView, reason: FailReason) -> (RunView, ActionView) {
    (
        RunView {
            phase: Phase::RecordingFailure {
                reason,
                canceled: reason is Canceled,
                close_session: true,
                end: if reason is Canceled {
                    RunEnd::Canceled
                } else {
                    RunEnd::Failed(reason)
                },
            },
            ..run
        },
        record(run, EntryView::RunFailed { reason }),
    )
}

pub open spec fn enter(run: RunView, phase: Phase, action: ActionView) -> (RunView, ActionView) {
    (RunView { phase, ..run }, action)
}

pub open spec fn enter_end(run: RunView, end: RunEnd) -> (RunView, ActionView) {
    enter(run, Phase::Ended, ActionView::Return(end))
}

/// The call that the run is about.
pub open spec fn current_call(run: RunView) -> ToolCall {
    call_for(run.turn, run.uses[0])
}

/// After the policy was written down.
pub open spec fn after_policy(run: RunView, decision: PolicyDecision) -> (RunView, ActionView) {
    let call = current_call(run);
    match decision {
        PolicyDecision::Allow => enter(run, Phase::PollingBeforeTool, ActionView::PollCancel),
        PolicyDecision::Deny { .. } => enter_turn(run, (run.turn + 1) as u32),
        PolicyDecision::RequireApproval { reason } => if policy::grants_by_itself(
            run.settings.approval,
            call.effect,
            decision,
        ) {
            enter(
                run,
                Phase::RecordingGrant,
                record(
                    run,
                    EntryView::ApprovalGranted { step: run.turn, actor: Actor::Yolo },
                ),
            )
        } else {
            match run.settings.approval {
                ApprovalMode::Deny { actor } => enter(
                    run,
                    Phase::RecordingDenial { reason: DenialReason::NoChannel(reason) },
                    record(
                        run,
                        EntryView::ApprovalDenied {
                            step: run.turn,
                            actor: Actor::Named(actor),
                            reason: DenialReason::NoChannel(reason),
                        },
                    ),
                ),
                ApprovalMode::External { actor } => enter(
                    run,
                    Phase::AwaitingExternal { actor },
                    ActionView::AskExternal { call, reason },
                ),
                _ => enter(run, Phase::AwaitingUser, ActionView::AskUser { call }),
            }
        },
    }
}

/// After somebody decided.
pub open spec fn after_decision(run: RunView, actor: Actor, outcome: ApprovalOutcome) -> (
    RunView,
    ActionView,
) {
    match outcome {
        ApprovalOutcome::Granted => enter(
            run,
            Phase::RecordingGrant,
            record(run, EntryView::ApprovalGranted { step: run.turn, actor }),
        ),
        ApprovalOutcome::Denied { reason } => enter(
            run,
            Phase::RecordingDenial { reason: DenialReason::Given(reason) },
            record(
                run,
                EntryView::ApprovalDenied {
                    step: run.turn,
                    actor,
                    reason: DenialReason::Given(reason),
                },
            ),
        ),
    }
}

/// The call is written down.
pub open spec fn enter_proposal(run: RunView) -> (RunView, ActionView) {
    enter(
        run,
        Phase::RecordingProposal,
        record(run, EntryView::ToolCallProposed { call: current_call(run) }),
    )
}

/// After a response was written down and the run was not canceled.
pub open spec fn after_response(run: RunView, response: ModelResponse) -> (RunView, ActionView) {
    let uses = model::tool_uses_in(response.content@);
    if uses.len() == 0 && response.stop == ModelStop::ToolUse {
        enter_failure(run, FailReason::ToolUseWithoutCalls)
    } else if uses.len() == 0 {
        enter(
            run,
            Phase::RecordingFinish { answer: response.text },
            record(run, EntryView::RunFinished),
        )
    } else if model::repeats_an_id(uses) {
        enter_failure(run, FailReason::RepeatedCallIds)
    } else if shows_text(run.settings, response) {
        enter(RunView { uses, ..run }, Phase::Printing, ActionView::Print(response.text))
    } else {
        enter_proposal(RunView { uses, ..run })
    }
}

/// Whether the text of a response is still to be shown: where it is shown at all, none of it was
/// shown while it came in, and there is something to show.
pub open spec fn shows_text(settings: RunSettings, response: ModelResponse) -> bool {
    settings.stream_to_stderr && response.streamed_deltas == 0 && !text::is_blank(response.text@)
}

/// The end of a turn in which a tool was asked for.
pub open spec fn after_tool(run: RunView) -> (RunView, ActionView) {
    enter_turn(run, (run.turn + 1) as u32)
}

/// Whether what came of an action can be what came of the one that the run waits for.
pub open spec fn fits(run: RunView, seen: Observation) -> bool {
    match run.phase {
        Phase::Ended => false,
        Phase::BuildingContext => seen is ContextReady || seen is Failed,
        Phase::PollingBeforeTurn { .. }
        | Phase::PollingBeforeRetry { .. }
        | Phase::PollingAfterFailure { .. }
        | Phase::PollingAfterResponse { .. }
        | Phase::PollingBeforeTool => seen is Cancel,
        Phase::RecordingContext => seen is Done || seen is Failed || seen is BudgetExceeded,
        Phase::Sending { .. } => seen is Failed || seen is SendFailed || seen is Responded,
        Phase::AwaitingExternal { .. } | Phase::AwaitingUser => seen is Failed || seen is Decided,
        Phase::Executing => seen is Failed || seen is ToolDone || seen is ToolError,
        _ => seen is Done || seen is Failed,
    }
}

/// How a run goes on.
pub open spec fn next(run: RunView, seen: Observation) -> (RunView, ActionView) {
    match seen {
        Observation::Failed(error) => enter_end(run, RunEnd::Error(error)),
        Observation::Cancel(canceled) => match run.phase {
            Phase::PollingAfterFailure { error, words } => {
                let reason = if canceled {
                    FailReason::Canceled
                } else {
                    FailReason::Request(words)
                };
                enter(
                    run,
                    Phase::RecordingFailure {
                        reason,
                        canceled,
                        close_session: true,
                        end: if canceled {
                            RunEnd::Canceled
                        } else {
                            RunEnd::Error(error)
                        },
                    },
                    record(run, EntryView::RunFailed { reason }),
                )
            },
            phase => if canceled {
                enter_failure(run, FailReason::Canceled)
            } else {
                match phase {
                    Phase::PollingBeforeTurn { messages_json, tools_json } => match
                        run.settings.compaction {
                        Some(compaction) if run.turn == 0 && compaction.dropped_turns > 0 => enter(
                            run,
                            Phase::RecordingCompaction { messages_json, tools_json },
                            record(
                                run,
                                EntryView::ContextCompacted { step: run.turn, compaction },
                            ),
                        ),
                        _ => enter(
                            run,
                            Phase::RecordingContext,
                            context_entry(run, messages_json, tools_json),
                        ),
                    },
                    Phase::PollingBeforeRetry { delay, words } => enter(
                        run,
                        Phase::RecordingRetry { delay },
                        record(run, EntryView::ModelFailed { step: run.turn, reason: words }),
                    ),
                    Phase::PollingAfterResponse { response } => after_response(run, response),
                    _ => enter(
                        run,
                        Phase::RecordingToolStart,
                        record(run, EntryView::ToolStarted { step: run.turn }),
                    ),
                }
            },
        },
        Observation::ContextReady { messages_json, tools_json } => enter(
            run,
            Phase::PollingBeforeTurn { messages_json, tools_json },
            ActionView::PollCancel,
        ),
        Observation::BudgetExceeded { used, budget } => enter(
            run,
            Phase::RecordingFailure {
                reason: FailReason::ContextBudget { used, budget },
                canceled: false,
                close_session: false,
                end: RunEnd::Error(AppError::ContextBudgetExceeded { used, budget }),
            },
            record(
                run,
                EntryView::RunFailed { reason: FailReason::ContextBudget { used, budget } },
            ),
        ),
        Observation::Responded(response) => enter(
            run,
            Phase::RecordingResponse { response },
            response_entry(run, response),
        ),
        Observation::SendFailed { error, words } => match (run.phase, retry_delay(error)) {
            (Phase::Sending { retried: false }, Some(delay)) => enter(
                run,
                Phase::PollingBeforeRetry { delay, words },
                ActionView::PollCancel,
            ),
            _ => enter(run, Phase::PollingAfterFailure { error, words }, ActionView::PollCancel),
        },
        Observation::Decided(outcome) => match run.phase {
            Phase::AwaitingExternal { actor } => after_decision(run, Actor::Named(actor), outcome),
            _ => after_decision(run, Actor::Stdin, outcome),
        },
        Observation::ToolDone(output) => enter(
            run,
            Phase::RecordingToolEnd {
                content: output.data,
                is_error: result_is_error(
                    run.uses[0].name@,
                    json::json_at(output.data@, "/exit_code"@),
                ),
            },
            record(run, EntryView::ToolFinished { step: run.turn, output }),
        ),
        Observation::ToolError { reason } => enter(
            run,
            Phase::RecordingToolEnd { content: reason, is_error: true },
            record(run, EntryView::ToolFailed { step: run.turn, reason }),
        ),
        Observation::Done => match run.phase {
            Phase::RecordingStart => enter_turn(run, 0),
            Phase::RecordingCompaction { messages_json, tools_json } => enter(
                run,
                Phase::RecordingContext,
                context_entry(run, messages_json, tools_json),
            ),
            Phase::RecordingContext => enter(
                run,
                Phase::RecordingRequest { retried: false },
                request_entry(run),
            ),
            Phase::RecordingRequest { retried } => enter(
                run,
                Phase::Sending { retried },
                ActionView::Send,
            ),
            Phase::RecordingRetry { delay } => enter(run, Phase::Sleeping, ActionView::Sleep(delay)),
            Phase::Sleeping => enter(
                run,
                Phase::RecordingRequest { retried: true },
                request_entry(run),
            ),
            Phase::RecordingResponse { response } => match response.stop {
                ModelStop::MaxOutput => enter_failure(run, FailReason::MaxOutput),
                ModelStop::ContentFilter => enter_failure(run, FailReason::ContentFilter),
                _ => enter(run, Phase::PollingAfterResponse { response }, ActionView::PollCancel),
            },
            Phase::RecordingFinish { answer } => if run.settings.has_session {
                enter(
                    run,
                    Phase::FinishingSession { answer },
                    ActionView::FinishSession { answer },
                )
            } else {
                enter_end(run, RunEnd::Answered(outcome(run, answer)))
            },
            Phase::FinishingSession { answer } => enter_end(run, RunEnd::Answered(outcome(run, answer))),
            Phase::Printing => enter_proposal(run),
            Phase::RecordingProposal => {
                let decision = policy::policy(
                    tool_catalog::texts(run.settings.enabled_tools@),
                    current_call(run),
                );
                enter(
                    run,
                    Phase::RecordingPolicy { decision },
                    record(run, EntryView::PolicyEvaluated { step: run.turn, decision }),
                )
            },
            Phase::RecordingPolicy { decision } => after_policy(run, decision),
            Phase::RecordingGrant => enter(run, Phase::PollingBeforeTool, ActionView::PollCancel),
            Phase::RecordingDenial { .. } => after_tool(run),
            Phase::RecordingToolStart => enter(
                run,
                Phase::Executing,
                ActionView::Execute { call: current_call(run) },
            ),
            Phase::RecordingToolEnd { .. } => after_tool(run),
            Phase::RecordingFailure { reason, canceled, close_session, end } => if close_session
                && run.settings.has_session {
                enter(
                    run,
                    Phase::FailingSession { end },
                    ActionView::FailSession { reason, canceled },
                )
            } else {
                enter_end(run, end)
            },
            Phase::FailingSession { end } => enter_end(run, end),
            _ => enter_end(run, RunEnd::Canceled),
        },
    }
}

/// A run in another phase.
pub open spec fn at(run: RunView, phase: Phase) -> RunView {
    RunView { phase, ..run }
}

/// What a step adds to the conversation: the content of a response that asks for tools, or what
/// came of the tools.
pub enum Said {
    Nothing,
    Response(Vec<ModelBlock>),
    ToolMessage { words: Seq<char>, is_error: bool },
}

/// What a step adds to the conversation.
pub open spec fn said(run: RunView, seen: Observation) -> Said {
    match (run.phase, seen) {
        (Phase::PollingAfterResponse { response }, Observation::Cancel(false)) => {
            let uses = model::tool_uses_in(response.content@);
            if uses.len() > 0 && !model::repeats_an_id(uses) {
                Said::Response(response.content)
            } else {
                Said::Nothing
            }
        },
        (
            Phase::RecordingPolicy { decision: PolicyDecision::Deny { reason } },
            Observation::Done,
        ) => Said::ToolMessage { words: policy::reason_text(reason), is_error: true },
        (Phase::RecordingDenial { reason }, Observation::Done) => Said::ToolMessage {
            words: denial_text(reason),
            is_error: true,
        },
        (Phase::RecordingToolEnd { content, is_error }, Observation::Done) => Said::ToolMessage {
            words: content@,
            is_error,
        },
        _ => Said::Nothing,
    }
}

/// Whether a conversation was continued with what a step adds to it: the tool that ran is answered
/// with its output, and every other tool of the same response with the same refusal.
pub open spec fn continued(
    before: Seq<ModelMessage>,
    after: Seq<ModelMessage>,
    uses: Seq<ToolUse>,
    said: Said,
) -> bool {
    match said {
        Said::Nothing => after == before,
        Said::Response(content) => after == before.push(
            ModelMessage { role: model::Role::Assistant, content },
        ),
        Said::ToolMessage { words, is_error } => {
            &&& after.len() == before.len() + uses.len()
            &&& after.take(before.len() as int) == before
            &&& forall|i: int|
                0 <= i < uses.len() ==> model::is_tool_result(
                    #[trigger] after[before.len() + i],
                    uses[i].id,
                    tool_output::wrapped(
                        uses[i].name@,
                        if i == 0 {
                            words
                        } else {
                            EXTRA_TOOL_CALL_ERROR@
                        },
                    ),
                    i > 0 || is_error,
                )
        },
    }
}

/// Whether the wrapper of every tool leaves room for what the tool is answered with.
pub open spec fn answers_fit(uses: Seq<ToolUse>, words: Seq<char>) -> bool {
    forall|i: int|
        0 <= i < uses.len() ==> tool_output::wrapper_fits(
            (#[trigger] uses[i]).name@,
            if i == 0 {
                words
            } else {
                EXTRA_TOOL_CALL_ERROR@
            },
        )
}

/// What holds of every run on its way.
pub open spec fn well_formed(run: RunView) -> bool {
    match run.phase {
        Phase::RecordingStart => run.turn == 0,
        Phase::Ended
        | Phase::RecordingFailure { .. }
        | Phase::FailingSession { .. } => true,
        Phase::Printing
        | Phase::RecordingProposal
        | Phase::RecordingPolicy { .. }
        | Phase::AwaitingExternal { .. }
        | Phase::AwaitingUser
        | Phase::RecordingGrant
        | Phase::RecordingDenial { .. }
        | Phase::PollingBeforeTool
        | Phase::RecordingToolStart
        | Phase::Executing
        | Phase::RecordingToolEnd { .. } => run.uses.len() > 0 && run.turn < run.settings.max_turns,
        _ => run.turn < run.settings.max_turns,
    }
}

/// Whether the tools that a step answers, if it answers any, leave room for their answers. Only a
/// name that takes up nearly the whole output by itself leaves none.
pub open spec fn acceptable(run: RunView, seen: Observation) -> bool {
    said(run, seen) matches Said::ToolMessage { words, .. } ==> answers_fit(run.uses, words)
}

/// Whether a tool's result counts as an error.
pub fn exit_code_is_error(tool_name: &str, exit_code: &json::JsonPart) -> (result: bool)
    ensures
        result == result_is_error(tool_name@, exit_code@),
{
    if !text::same(tool_name, tool_catalog::SHELL_EXEC) {
        return false;
    }
    match exit_code {
        json::JsonPart::Missing => false,
        json::JsonPart::Number { signed, .. } => match signed {
            Some(code) => *code != 0,
            None => true,
        },
        _ => true,
    }
}

/// Whether a tool's result, given as JSON, counts as an error.
pub fn tool_result_is_error(tool_name: &str, data: &str) -> (result: bool)
    ensures
        result == result_is_error(tool_name@, json::json_at(data@, "/exit_code"@)),
{
    let exit_code = json::part_at(data, "/exit_code");
    exit_code_is_error(tool_name, &exit_code)
}

/// The call that stands for a tool that the model wants to use.
pub fn tool_call(step: u32, used: &ToolUse) -> (result: ToolCall)
    ensures
        result == call_for(step, *used),
{
    ToolCall {
        step,
        tool: used.name.clone(),
        effect: tool_catalog::effect_for_tool(used.name.as_str()),
        input: used.input.clone(),
    }
}

/// Whether the text of a response is still to be shown.
pub fn shows_fallback_text(stream_to_stderr: bool, streamed_deltas: u64, words: &str) -> (result:
    bool)
    ensures
        result == (stream_to_stderr && streamed_deltas == 0 && !text::is_blank(words@)),
{
    stream_to_stderr && streamed_deltas == 0 && !text::blank(words)
}

/// A turn's identifier: `turn_1` for the first step.
pub fn turn_id(step: u32) -> (result: String)
    ensures
        result@ == "turn_"@ + text::decimal((step + 1) as nat),
{
    let number = text::to_decimal(step as u64 + 1);
    text::concat("turn_", number.as_str())
}

/// A call's identifier: `call_1` for the first step.
pub fn mint_tool_call_id(step: u32) -> (result: String)
    ensures
        result@ == "call_"@ + text::decimal((step + 1) as nat),
{
    let number = text::to_decimal(step as u64 + 1);
    text::concat("call_", number.as_str())
}

impl Run {
    /// A run at its start, with the conversation that it starts from.
    pub fn start(settings: RunSettings, messages: Vec<ModelMessage>) -> (result: (Run, Action))
        ensures
            result.0@ == (RunView {
                settings,
                turn: 0,
                phase: Phase::RecordingStart,
                uses: Seq::empty(),
            }),
            result.0.messages == messages,
            result.1@ == record(result.0@, EntryView::RunStarted { agent_id: AGENT_ID@ }),
            well_formed(result.0@),
    {
        let run_id = settings.run_id.clone();
        (
            Run { settings, turn: 0, phase: Phase::RecordingStart, uses: Vec::new(), messages },
            Action::Record {
                run_id,
                event: HarnessEvent::RunStarted { agent_id: AGENT_ID.to_owned() },
            },
        )
    }

    fn go(self, phase: Phase, action: Action) -> (result: (Run, Action))
        ensures
            (result.0@, result.1@) == enter(self@, phase, action@),
            result.0.messages == self.messages,
    {
        (Run { phase, ..self }, action)
    }

    fn write(self, phase: Phase, event: HarnessEvent) -> (result: (Run, Action))
        ensures
            (result.0@, result.1@) == enter(self@, phase, record(self@, event@)),
            result.0.messages == self.messages,
    {
        let run_id = self.settings.run_id.clone();
        self.go(phase, Action::Record { run_id, event })
    }

    fn write_context(self, messages_json: String, tools_json: String) -> (result: (Run, Action))
        ensures
            (result.0@, result.1@) == enter(
                self@,
                Phase::RecordingContext,
                context_entry(self@, messages_json, tools_json),
            ),
            result.0.messages == self.messages,
    {
        let step = self.turn;
        let context = hydration::context_pack(
            self.settings.system.clone(),
            messages_json,
            tools_json,
            self.settings.token_budget,
        );
        self.write(Phase::RecordingContext, HarnessEvent::ContextBuilt { step, context })
    }

    fn write_request(self, retried: bool) -> (result: (Run, Action))
        ensures
            (result.0@, result.1@) == enter(
                self@,
                Phase::RecordingRequest { retried },
                request_entry(self@),
            ),
            result.0.messages == self.messages,
    {
        let step = self.turn;
        let model = self.settings.model.clone();
        self.write(
            Phase::RecordingRequest { retried },
            HarnessEvent::ModelRequested { step, model },
        )
    }

    fn write_response(self, response: ModelResponse) -> (result: (Run, Action))
        ensures
            (result.0@, result.1@) == enter(
                self@,
                Phase::RecordingResponse { response },
                response_entry(self@, response),
            ),
            result.0.messages == self.messages,
    {
        let event = HarnessEvent::ModelResponded {
            step: self.turn,
            output: response.text.clone(),
            proposed_calls: model::proposals_from_response(&response.content),
            usage: response.usage,
        };
        self.write(Phase::RecordingResponse { response }, event)
    }

    fn end(self, end: RunEnd) -> (result: (Run, Action))
        ensures
            (result.0@, result.1@) == enter_end(self@, end),
            result.0.messages == self.messages,
    {
        self.go(Phase::Ended, Action::Return(end))
    }

    fn answered(self, final_answer: String) -> (result: (Run, Action))
        ensures
            (result.0@, result.1@) == enter_end(
                self@,
                RunEnd::Answered(outcome(self@, final_answer)),
            ),
            result.0.messages == self.messages,
    {
        let run_id = self.settings.run_id.clone();
        self.end(RunEnd::Answered(RunOutcome { run_id, final_answer }))
    }

    fn fail(self, reason: FailReason) -> (result: (Run, Action))
        ensures
            (result.0@, result.1@) == enter_failure(self@, reason),
            result.0.messages == self.messages,
    {
        let canceled = matches!(reason, FailReason::Canceled);
        let end = if canceled {
            RunEnd::Canceled
        } else {
            RunEnd::Failed(reason.clone())
        };
        let recorded = reason.clone();
        self.write(
            Phase::RecordingFailure { reason, canceled, close_session: true, end },
            HarnessEvent::RunFailed { reason: recorded },
        )
    }

    fn turn(self, turn: u32) -> (result: (Run, Action))
        ensures
            (result.0@, result.1@) == enter_turn(self@, turn),
            result.0.messages == self.messages,
    {
        let max_turns = self.settings.max_turns;
        let run = Run { turn, ..self };
        if turn < max_turns {
            run.go(Phase::BuildingContext, Action::BuildContext { step: turn })
        } else {
            run.fail(FailReason::TurnLimit(max_turns))
        }
    }

    fn propose(self) -> (result: (Run, Action))
        requires
            self.uses@.len() > 0,
        ensures
            (result.0@, result.1@) == enter_proposal(self@),
            result.0.messages == self.messages,
    {
        let call = tool_call(self.turn, &self.uses[0]);
        self.write(
            Phase::RecordingProposal,
            HarnessEvent::ToolCallProposed { call },
        )
    }

    /// Answers the tool that the run is about, and refuses the others of the same response.
    fn answer_tools(&mut self, words: &str, is_error: bool)
        requires
            old(self).uses@.len() > 0,
            answers_fit(old(self).uses@, words@),
        ensures
            final(self)@ == old(self)@,
            continued(
                old(self).messages@,
                final(self).messages@,
                old(self).uses@,
                Said::ToolMessage { words: words@, is_error },
            ),
    {
        let ghost before = self.messages@;
        let ghost uses = self.uses@;
        let ghost view = self@;
        let mut i: usize = 0;
        while i < self.uses.len()
            invariant
                i <= self.uses@.len(),
                self.uses@ == uses,
                self@ == view,
                answers_fit(uses, words@),
                self.messages@.len() == before.len() + i,
                self.messages@.take(before.len() as int) == before,
                forall|j: int|
                    0 <= j < i ==> model::is_tool_result(
                        #[trigger] self.messages@[before.len() + j],
                        uses[j].id,
                        tool_output::wrapped(
                            uses[j].name@,
                            if j == 0 {
                                words@
                            } else {
                                EXTRA_TOOL_CALL_ERROR@
                            },
                        ),
                        j > 0 || is_error,
                    ),
            decreases uses.len() - i,
        {
            let body: &str = if i == 0 {
                words
            } else {
                EXTRA_TOOL_CALL_ERROR
            };
            let content = tool_output::provider_tool_output(self.uses[i].name.as_str(), body);
            let id = self.uses[i].id.clone();
            let ghost earlier = self.messages@;
            self.messages.push(ModelMessage::tool_result(id, content, i > 0 || is_error));
            assert(self.messages@.take(before.len() as int) =~= earlier.take(before.len() as int));
            i = i + 1;
        }
    }

    fn after_policy(self, decision: PolicyDecision) -> (result: (Run, Action))
        requires
            well_formed(at(self@, Phase::RecordingPolicy { decision })),
            acceptable(at(self@, Phase::RecordingPolicy { decision }), Observation::Done),
        ensures
            (result.0@, result.1@) == after_policy(
                at(self@, Phase::RecordingPolicy { decision }),
                decision,
            ),
            continued(
                self.messages@,
                result.0.messages@,
                self.uses@,
                said(at(self@, Phase::RecordingPolicy { decision }), Observation::Done),
            ),
    {
        let mut run = self;
        let call = tool_call(run.turn, &run.uses[0]);
        match decision {
            PolicyDecision::Allow => run.go(Phase::PollingBeforeTool, Action::PollCancel),
            PolicyDecision::Deny { reason } => {
                let words = reason.message();
                run.answer_tools(words.as_str(), true);
                let turn: u32 = run.turn + 1;
                run.turn(turn)
            },
            PolicyDecision::RequireApproval { reason } => {
                let required = PolicyDecision::RequireApproval { reason: reason.clone() };
                if let Some(actor) = run.settings.approval.auto_grant_actor(&call, &required) {
                    let step = run.turn;
                    return run.write(
                        Phase::RecordingGrant,
                        HarnessEvent::ApprovalGranted { step, actor },
                    );
                }
                if let Some(actor) = run.settings.approval.deny_actor(&required) {
                    let step = run.turn;
                    let denial = DenialReason::NoChannel(reason);
                    let recorded = denial.clone();
                    return run.write(
                        Phase::RecordingDenial { reason: denial },
                        HarnessEvent::ApprovalDenied { step, actor, reason: recorded },
                    );
                }
                let external = match &run.settings.approval {
                    ApprovalMode::External { actor } => Some(actor.clone()),
                    _ => None,
                };
                match external {
                    Some(actor) => run.go(
                        Phase::AwaitingExternal { actor },
                        Action::AskExternal { call, reason },
                    ),
                    None => run.go(Phase::AwaitingUser, Action::AskUser { call }),
                }
            },
        }
    }

    fn after_decision(self, actor: Actor, outcome: ApprovalOutcome) -> (result: (Run, Action))
        ensures
            (result.0@, result.1@) == after_decision(self@, actor, outcome),
            result.0.messages == self.messages,
    {
        let step = self.turn;
        match outcome {
            ApprovalOutcome::Granted => self.write(
                Phase::RecordingGrant,
                HarnessEvent::ApprovalGranted { step, actor },
            ),
            ApprovalOutcome::Denied { reason } => {
                let denial = DenialReason::Given(reason);
                let recorded = denial.clone();
                self.write(
                    Phase::RecordingDenial { reason: denial },
                    HarnessEvent::ApprovalDenied { step, actor, reason: recorded },
                )
            },
        }
    }

    fn after_response(self, response: ModelResponse) -> (result: (Run, Action))
        ensures
            (result.0@, result.1@) == after_response(
                at(self@, Phase::PollingAfterResponse { response }),
                response,
            ),
            continued(
                self.messages@,
                result.0.messages@,
                self.uses@,
                said(
                    at(self@, Phase::PollingAfterResponse { response }),
                    Observation::Cancel(false),
                ),
            ),
    {
        let uses = model::tool_uses(&response.content);
        if uses.len() == 0 {
            return if let ModelStop::ToolUse = response.stop {
                self.fail(FailReason::ToolUseWithoutCalls)
            } else {
                self.write(
                    Phase::RecordingFinish { answer: response.text },
                    HarnessEvent::RunFinished,
                )
            };
        }
        if model::has_repeated_id(&uses) {
            return self.fail(FailReason::RepeatedCallIds);
        }
        let show = shows_fallback_text(
            self.settings.stream_to_stderr,
            response.streamed_deltas,
            response.text.as_str(),
        );
        let mut run = self;
        run.uses = uses;
        run.messages.push(ModelMessage::assistant_blocks(response.content));
        if show {
            run.go(Phase::Printing, Action::Print(response.text))
        } else {
            run.propose()
        }
    }

    fn after_poll(self, phase: Phase, canceled: bool) -> (result: (Run, Action))
        requires
            well_formed(at(self@, phase)),
            fits(at(self@, phase), Observation::Cancel(canceled)),
        ensures
            (result.0@, result.1@) == next(at(self@, phase), Observation::Cancel(canceled)),
            continued(
                self.messages@,
                result.0.messages@,
                self.uses@,
                said(at(self@, phase), Observation::Cancel(canceled)),
            ),
    {
        let step = self.turn;
        match phase {
            Phase::PollingAfterFailure { error, words } => {
                let reason = if canceled {
                    FailReason::Canceled
                } else {
                    FailReason::Request(words)
                };
                let recorded = reason.clone();
                let end = if canceled {
                    RunEnd::Canceled
                } else {
                    RunEnd::Error(error)
                };
                self.write(
                    Phase::RecordingFailure { reason, canceled, close_session: true, end },
                    HarnessEvent::RunFailed { reason: recorded },
                )
            },
            phase => {
                if canceled {
                    return self.fail(FailReason::Canceled);
                }
                match phase {
                    Phase::PollingBeforeTurn { messages_json, tools_json } => {
                        if let Some(compaction) = self.settings.compaction {
                            if step == 0 && compaction.dropped_turns > 0 {
                                return self.write(
                                    Phase::RecordingCompaction { messages_json, tools_json },
                                    HarnessEvent::ContextCompacted { step, compaction },
                                );
                            }
                        }
                        self.write_context(messages_json, tools_json)
                    },
                    Phase::PollingBeforeRetry { delay, words } => self.write(
                        Phase::RecordingRetry { delay },
                        HarnessEvent::ModelFailed { step, reason: words },
                    ),
                    Phase::PollingAfterResponse { response } => self.after_response(response),
                    _ => self.write(
                        Phase::RecordingToolStart,
                        HarnessEvent::ToolStarted { step },
                    ),
                }
            },
        }
    }

    fn after_done(self, phase: Phase) -> (result: (Run, Action))
        requires
            well_formed(at(self@, phase)),
            fits(at(self@, phase), Observation::Done),
            acceptable(at(self@, phase), Observation::Done),
        ensures
            (result.0@, result.1@) == next(at(self@, phase), Observation::Done),
            continued(
                self.messages@,
                result.0.messages@,
                self.uses@,
                said(at(self@, phase), Observation::Done),
            ),
    {
        let step = self.turn;
        match phase {
            Phase::RecordingStart => self.turn(0),
            Phase::RecordingCompaction { messages_json, tools_json } => self.write_context(
                messages_json,
                tools_json,
            ),
            Phase::RecordingContext => self.write_request(false),
            Phase::RecordingRequest { retried } => self.go(
                Phase::Sending { retried },
                Action::Send,
            ),
            Phase::RecordingRetry { delay } => self.go(Phase::Sleeping, Action::Sleep(delay)),
            Phase::Sleeping => self.write_request(true),
            Phase::RecordingResponse { response } => match response.stop {
                ModelStop::MaxOutput => self.fail(FailReason::MaxOutput),
                ModelStop::ContentFilter => self.fail(FailReason::ContentFilter),
                _ => self.go(Phase::PollingAfterResponse { response }, Action::PollCancel),
            },
            Phase::RecordingFinish { answer } => {
                if self.settings.has_session {
                    let stored = answer.clone();
                    self.go(
                        Phase::FinishingSession { answer },
                        Action::FinishSession { answer: stored },
                    )
                } else {
                    self.answered(answer)
                }
            },
            Phase::FinishingSession { answer } => self.answered(answer),
            Phase::Printing => self.propose(),
            Phase::RecordingProposal => {
                let call = tool_call(step, &self.uses[0]);
                let decision = policy::evaluate_policy(&self.settings.enabled_tools, &call);
                let recorded = decision.clone();
                self.write(
                    Phase::RecordingPolicy { decision },
                    HarnessEvent::PolicyEvaluated { step, decision: recorded },
                )
            },
            Phase::RecordingPolicy { decision } => self.after_policy(decision),
            Phase::RecordingGrant => self.go(Phase::PollingBeforeTool, Action::PollCancel),
            Phase::RecordingDenial { reason } => {
                let words = reason.message();
                let mut run = self;
                run.answer_tools(words.as_str(), true);
                run.turn(step + 1)
            },
            Phase::RecordingToolStart => {
                let call = tool_call(step, &self.uses[0]);
                self.go(Phase::Executing, Action::Execute { call })
            },
            Phase::RecordingToolEnd { content, is_error } => {
                let mut run = self;
                run.answer_tools(content.as_str(), is_error);
                run.turn(step + 1)
            },
            Phase::RecordingFailure { reason, canceled, close_session, end } => {
                if close_session && self.settings.has_session {
                    self.go(
                        Phase::FailingSession { end },
                        Action::FailSession { reason, canceled },
                    )
                } else {
                    self.end(end)
                }
            },
            Phase::FailingSession { end } => self.end(end),
            _ => self.end(RunEnd::Canceled),
        }
    }

    /// Whether the tools of the run leave room for what they are answered with.
    fn room_for_answers(&self, words: &str) -> (result: bool)
        ensures
            result == answers_fit(self.uses@, words@),
    {
        let mut i: usize = 0;
        while i < self.uses.len()
            invariant
                i <= self.uses@.len(),
                forall|j: int|
                    0 <= j < i ==> tool_output::wrapper_fits(
                        (#[trigger] self.uses@[j]).name@,
                        if j == 0 {
                            words@
                        } else {
                            EXTRA_TOOL_CALL_ERROR@
                        },
                    ),
            decreases self.uses.len() - i,
        {
            let body: &str = if i == 0 {
                words
            } else {
                EXTRA_TOOL_CALL_ERROR
            };
            if !tool_output::has_room(self.uses[i].name.as_str(), body) {
                assert(!tool_output::wrapper_fits(self.uses@[i as int].name@, body@));
                return false;
            }
            i = i + 1;
        }
        true
    }

    /// Whether the run can take what was observed: whether the tools that it then answers, if it
    /// answers any, leave room for their answers.
    pub fn has_room(&self, seen: &Observation) -> (result: bool)
        ensures
            result == acceptable(self@, *seen),
    {
        match (&self.phase, seen) {
            (
                Phase::RecordingPolicy { decision: PolicyDecision::Deny { reason } },
                Observation::Done,
            ) => {
                let words = reason.message();
                self.room_for_answers(words.as_str())
            },
            (Phase::RecordingDenial { reason }, Observation::Done) => {
                let words = reason.message();
                self.room_for_answers(words.as_str())
            },
            (Phase::RecordingToolEnd { content, .. }, Observation::Done) => self.room_for_answers(
                content.as_str(),
            ),
            _ => true,
        }
    }

    /// How a run goes on after what was observed of its last action.
    pub fn step(self, seen: Observation) -> (result: (Run, Action))
        requires
            well_formed(self@),
            fits(self@, seen),
            acceptable(self@, seen),
        ensures
            (result.0@, result.1@) == next(self@, seen),
            continued(self.messages@, result.0.messages@, self.uses@, said(self@, seen)),
            well_formed(result.0@),
    {
        proof {
            step_keeps_well_formed(self@, seen);
        }
        let ghost before = self@;
        let Run { settings, turn, phase, uses, messages } = self;
        let run = Run { settings, turn, phase: Phase::Ended, uses, messages };
        assert(at(run@, phase) == before);
        match seen {
            Observation::Done => run.after_done(phase),
            Observation::Failed(error) => run.end(RunEnd::Error(error)),
            Observation::Cancel(canceled) => run.after_poll(phase, canceled),
            Observation::BudgetExceeded { used, budget } => run.write(
                Phase::RecordingFailure {
                    reason: FailReason::ContextBudget { used, budget },
                    canceled: false,
                    close_session: false,
                    end: RunEnd::Error(AppError::ContextBudgetExceeded { used, budget }),
                },
                HarnessEvent::RunFailed { reason: FailReason::ContextBudget { used, budget } },
            ),
            Observation::ContextReady { messages_json, tools_json } => run.go(
                Phase::PollingBeforeTurn { messages_json, tools_json },
                Action::PollCancel,
            ),
            Observation::Responded(response) => run.write_response(response),
            Observation::SendFailed { error, words } => {
                let retried = !matches!(phase, Phase::Sending { retried: false });
                match completion_retry_delay(&error) {
                    Some(delay) if !retried => run.go(
                        Phase::PollingBeforeRetry { delay, words },
                        Action::PollCancel,
                    ),
                    _ => run.go(Phase::PollingAfterFailure { error, words }, Action::PollCancel),
                }
            },
            Observation::Decided(outcome) => match phase {
                Phase::AwaitingExternal { actor } => run.after_decision(
                    Actor::Named(actor),
                    outcome,
                ),
                _ => run.after_decision(Actor::Stdin, outcome),
            },
            Observation::ToolDone(output) => {
                let is_error = tool_result_is_error(
                    run.uses[0].name.as_str(),
                    output.data.as_str(),
                );
                let content = output.data.clone();
                run.write(
                    Phase::RecordingToolEnd { content, is_error },
                    HarnessEvent::ToolFinished { step: turn, output },
                )
            },
            Observation::ToolError { reason } => {
                let recorded = reason.clone();
                run.write(
                    Phase::RecordingToolEnd { content: reason, is_error: true },
                    HarnessEvent::ToolFailed { step: turn, reason: recorded },
                )
            },
        }
    }
}

/// Every step of a run keeps what holds of it.
pub proof fn step_keeps_well_formed(run: RunView, seen: Observation)
    requires
        well_formed(run),
        fits(run, seen),
        acceptable(run, seen),
    ensures
        well_formed(next(run, seen).0),
        next(run, seen).0.settings == run.settings,
{
}

} // verus!
