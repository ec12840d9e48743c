//! What a run is given before it starts, and what it asks of the model in each turn.

use crate::app::hydration::SessionHydration;
use crate::app::model::{self, ModelMessage, ReasoningEffort, Role, RunOverrides};
use crate::app::run::{Compaction, Run, RunSettings};
use crate::app::session::RunOptions;
use crate::config::{self, Config};
use crate::tool_catalog;
use vstd::prelude::*;

verus! {

/// The identifier of a run: the one that was asked for, or else a fresh one.
pub open spec fn chosen_run_id(asked: Option<String>, fresh: String) -> String {
    config::set_or(asked, fresh)
}

/// Whether a run goes by what it was asked for and by the configuration.
pub open spec fn goes_by(settings: RunSettings, options: RunOptions, config: Config) -> bool {
    &&& settings.model == config::set_or(options.overrides.model, config.provider.model)
    &&& settings.token_budget == config.limits.token_budget
    &&& settings.max_turns == config.limits.max_turns
    &&& settings.enabled_tools@ == config.tools.enabled@
    &&& settings.approval == options.approval_mode
    &&& settings.stream_to_stderr == options.stream_to_stderr
    &&& settings.has_session == (options.session is Some)
}

/// What a run goes by and the conversation that it starts from. A run of a session starts from the
/// session's conversation, cut to the budget; any other run from its question alone. `system` are
/// its instructions, and `fresh_id` is its identifier where none was asked for.
pub fn run_setup(
    options: &RunOptions,
    config: &Config,
    system: String,
    hydration: Option<SessionHydration>,
    fresh_id: String,
) -> (result: (RunSettings, Vec<ModelMessage>))
    requires
        hydration is Some == options.session is Some,
    ensures
        result.0.run_id == chosen_run_id(options.run_id, fresh_id),
        result.0.system == system,
        goes_by(result.0, *options, *config),
        match hydration {
            Some(hydrated) => {
                &&& result.0.compaction == Some(
                    Compaction {
                        tokens_before: hydrated.estimated_tokens_before,
                        tokens_after: hydrated.estimated_tokens_after,
                        dropped_turns: hydrated.dropped_turns,
                    },
                )
                &&& result.1 == hydrated.retained_messages
            },
            None => {
                &&& result.0.compaction is None
                &&& result.1@.len() == 1
                &&& model::is_text(result.1@[0], Role::User, options.question@)
            },
        },
{
    let run_id = match &options.run_id {
        Some(run_id) => run_id.clone(),
        None => fresh_id,
    };
    let model = match &options.overrides.model {
        Some(model) => model.clone(),
        None => config.provider.model.clone(),
    };
    let (compaction, messages) = match hydration {
        Some(hydrated) => (
            Some(
                Compaction {
                    tokens_before: hydrated.estimated_tokens_before,
                    tokens_after: hydrated.estimated_tokens_after,
                    dropped_turns: hydrated.dropped_turns,
                },
            ),
            hydrated.retained_messages,
        ),
        None => {
            let mut messages: Vec<ModelMessage> = Vec::new();
            messages.push(ModelMessage::user_text(options.question.clone()));
            (None, messages)
        },
    };
    (
        RunSettings {
            run_id,
            model,
            system,
            token_budget: config.limits.token_budget,
            max_turns: config.limits.max_turns,
            enabled_tools: tool_catalog::clone_names(&config.tools.enabled),
            approval: options.approval_mode.clone(),
            stream_to_stderr: options.stream_to_stderr,
            has_session: options.session.is_some(),
            compaction,
        },
        messages,
    )
}

/// What the model is asked in a turn. The tools are named; what the model is told of each is added
/// when the request is sent.
#[derive(Debug, PartialEq, Eq)]
pub struct ModelRequest<'a> {
    pub model: &'a str,
    pub system: &'a str,
    pub max_output_tokens: u32,
    pub reasoning_effort: Option<ReasoningEffort>,
    pub messages: &'a Vec<ModelMessage>,
    pub tools: &'a Vec<String>,
}

/// What the model is asked in a turn of a run: the whole conversation so far, under the configured
/// limit on the output, and with the effort that was set for the run.
pub fn model_request<'a>(
    run: &'a Run,
    config: &Config,
    overrides: &RunOverrides,
) -> (result: ModelRequest<'a>)
    ensures
        result.model@ == run.settings.model@,
        result.system@ == run.settings.system@,
        result.max_output_tokens == config.limits.max_output_tokens,
        result.reasoning_effort == overrides.reasoning_effort,
        *result.messages == run.messages,
        *result.tools == run.settings.enabled_tools,
{
    ModelRequest {
        model: run.settings.model.as_str(),
        system: run.settings.system.as_str(),
        max_output_tokens: config.limits.max_output_tokens,
        reasoning_effort: overrides.reasoning_effort,
        messages: &run.messages,
        tools: &run.settings.enabled_tools,
    }
}

} // verus!
