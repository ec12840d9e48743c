//! What holds of the conversations that runs start from and go on with.

use crate::app::hydration::{
    self, context_pack, estimated_context_tokens, session_messages_from, ContextPack,
    SessionHydration, SessionTurn,
};
use crate::app::model::{
    self, chosen_model, estimate_tokens, proposals_from_response, token_limit_field, tool_uses,
    ModelBlock, ModelMessage, ReasoningEffort, Role, RunOverrides, TokenLimitField, ToolProposal,
    ToolUse,
};
use crate::app::run::{exit_code_is_error, mint_tool_call_id, turn_id, Compaction, RunSettings};
use crate::app::session::{check_question, uses_session, RunLedger, RunOptions, RunSession};
use crate::app::setup::run_setup;
use crate::app::tool_output;
use crate::config::{Config, ProviderKind};
use crate::error::AppError;
use crate::json::JsonPart;
use crate::text;
use vstd::prelude::*;

verus! {

/// Whether a message is one text.
pub open spec fn says_only(message: ModelMessage, role: Role, words: Seq<char>) -> bool {
    &&& message.role == role
    &&& message.content@.len() == 1
    &&& message.content@[0] matches ModelBlock::Text { text } && text@ == words
}

/// A conversation of a session ends with the new question; before it stand the questions and answers
/// of the turns that are kept, in their order, and in front the mark of a cut where there was one.
pub proof fn a_conversation_keeps_its_order(
    turns: &Vec<SessionTurn>,
    first: usize,
    question: &str,
    truncated: bool,
    messages: Vec<ModelMessage>,
)
    requires
        first <= turns@.len(),
        call_ensures(session_messages_from, (turns, first, question, truncated), messages),
    ensures
        says_only(messages@[messages@.len() - 1], Role::User, question@),
        ({
            let start = if truncated {
                1int
            } else {
                0int
            };
            &&& messages@.len() == start + 2 * (turns@.len() - first) + 1
            &&& truncated ==> says_only(
                messages@[0],
                Role::User,
                "[older session turns omitted to fit the context budget]"@,
            )
            &&& forall|k: int|
                first <= k < turns@.len() ==> {
                    &&& says_only(
                        messages@[start + 2 * (k - first)],
                        Role::User,
                        (#[trigger] turns@[k]).question@,
                    )
                    &&& says_only(
                        messages@[start + 2 * (k - first) + 1],
                        Role::Assistant,
                        turns@[k].final_answer@,
                    )
                }
        }),
{
    let kept = turns@.skip(first as int);
    assert forall|k: int| first <= k < turns@.len() implies kept[k - first] == #[trigger] turns@[k] by {}
    let start = if truncated {
        1int
    } else {
        0int
    };
    assert forall|k: int| first <= k < turns@.len() implies {
        &&& says_only(
            messages@[start + 2 * (k - first)],
            Role::User,
            (#[trigger] turns@[k]).question@,
        )
        &&& says_only(
            messages@[start + 2 * (k - first) + 1],
            Role::Assistant,
            turns@[k].final_answer@,
        )
    } by {
        let j = k - first;
        assert(model::is_text(messages@[start + 2 * j], Role::User, kept[j].question@));
    }
}

/// What is given up of a session is the least that makes it fit: the estimate with what is left fits
/// the budget unless nothing is left, and with one turn more it does not.
pub proof fn a_session_gives_up_the_least<F: Fn(&Vec<ModelMessage>) -> Result<String, AppError>>(
    turns: &Vec<SessionTurn>,
    question: &str,
    token_budget: u32,
    along: hydration::SentAlong,
    write: F,
    kept: SessionHydration,
)
    requires
        call_ensures(
            hydration::hydrated_messages::<F>,
            (turns, question, token_budget, along, write),
            Ok::<SessionHydration, AppError>(kept),
        ),
    ensures
        kept.dropped_turns <= turns@.len(),
        kept.estimated_tokens_after <= token_budget || kept.dropped_turns == turns@.len(),
        kept.dropped_turns > 0 ==> kept.estimated_tokens_before > token_budget,
        kept.dropped_turns == 0 ==> kept.estimated_tokens_after == kept.estimated_tokens_before,
        kept.estimated_tokens_before <= token_budget ==> kept.dropped_turns == 0,
        says_only(
            kept.retained_messages@[kept.retained_messages@.len() - 1],
            Role::User,
            question@,
        ),
        kept.retained_messages@.len() == 2 * (turns@.len() - kept.dropped_turns) + 1 + (if kept.dropped_turns
            > 0 {
            1int
        } else {
            0
        }),
{
    let estimates = choose|estimates: Seq<u32>|
        {
            &&& #[trigger] hydration::drops_fewest(
                write,
                along,
                turns@,
                question@,
                token_budget,
                estimates,
            )
            &&& kept.dropped_turns == estimates.len() - 1
            &&& kept.estimated_tokens_before == estimates[0]
            &&& kept.estimated_tokens_after == estimates.last()
        };
    assert(estimates[estimates.len() - 1] == estimates.last());
    if kept.dropped_turns > 0 {
        assert(estimates[0] > token_budget);
    }
}

/// A text is taken to have one token for four characters and one more; a request has those of its
/// instructions, its messages and its tools together.
pub proof fn tokens_are_estimated(
    words: &str,
    tokens: u32,
    system: &str,
    messages_json: &str,
    tools_json: &str,
    sum: u32,
)
    requires
        call_ensures(estimate_tokens, (words,), tokens),
        call_ensures(estimated_context_tokens, (system, messages_json, tools_json), sum),
        words@.len() < 0x1_0000_0000,
        system@.len() < 0x1_0000_0000,
        messages_json@.len() < 0x1_0000_0000,
        tools_json@.len() < 0x1_0000_0000,
    ensures
        4 * (tokens - 1) <= words@.len() < 4 * tokens,
        sum == system@.len() / 4 + messages_json@.len() / 4 + tools_json@.len() / 4 + 3,
{
}

/// The context of a request holds its three parts whole, each with its own estimate.
pub proof fn a_context_holds_its_parts(
    system: String,
    messages_json: String,
    tools_json: String,
    token_budget: u32,
    context: ContextPack,
)
    requires
        call_ensures(context_pack, (system, messages_json, tools_json, token_budget), context),
        system@.len() < 0x1_0000_0000,
        messages_json@.len() < 0x1_0000_0000,
        tools_json@.len() < 0x1_0000_0000,
    ensures
        context.token_budget == token_budget,
        context.fragments@.len() == 3,
        context.fragments@[0].content@ == system@,
        context.fragments@[0].source@ == "system_prompt"@,
        context.fragments@[0].estimated_tokens == system@.len() / 4 + 1,
        context.fragments@[1].content@ == messages_json@,
        context.fragments@[1].source@ == "model.messages"@,
        context.fragments@[1].estimated_tokens == messages_json@.len() / 4 + 1,
        context.fragments@[2].content@ == tools_json@,
        context.fragments@[2].source@ == "model.tools"@,
        context.fragments@[2].estimated_tokens == tools_json@.len() / 4 + 1,
{
    let views = context@.fragments;
    assert(views.len() == 3 && context.fragments@.len() == views.len());
    assert(views[0] == context.fragments@[0]@);
    assert(views[1] == context.fragments@[1]@);
    assert(views[2] == context.fragments@[2]@);
}

/// Whether a block asks for this tool.
pub open spec fn asks_for(block: ModelBlock, used: ToolUse) -> bool {
    block == (ModelBlock::ToolUse { id: used.id, name: used.name, input: used.input })
}

proof fn uses_in_order(content: Seq<ModelBlock>)
    ensures
        ({
            let asked = content.filter(|block: ModelBlock| block is ToolUse);
            let uses = model::tool_uses_in(content);
            &&& uses.len() == asked.len()
            &&& forall|i: int| 0 <= i < uses.len() ==> asks_for(asked[i], #[trigger] uses[i])
        }),
    decreases content.len(),
{
    reveal(Seq::filter);
    if content.len() > 0 {
        uses_in_order(content.drop_last());
    }
}

/// Every tool that a response asks for is taken up, in the order of the response, and the ledger
/// keeps the name and the input of each.
pub proof fn every_tool_is_taken_up(
    content: &Vec<ModelBlock>,
    uses: Vec<ToolUse>,
    proposals: Vec<ToolProposal>,
)
    requires
        call_ensures(tool_uses, (content,), uses),
        call_ensures(proposals_from_response, (content,), proposals),
    ensures
        ({
            let asked = content@.filter(|block: ModelBlock| block is ToolUse);
            &&& uses@.len() == asked.len()
            &&& proposals@.len() == asked.len()
            &&& forall|i: int| 0 <= i < uses@.len() ==> asks_for(asked[i], #[trigger] uses@[i])
            &&& forall|i: int|
                0 <= i < proposals@.len() ==> (#[trigger] proposals@[i]).tool == uses@[i].name
                    && proposals@[i].input == uses@[i].input
        }),
{
    uses_in_order(content@);
}

/// Only the shell reports a failure by its exit code: any other number than zero, and anything that
/// is no number.
pub proof fn only_the_shell_fails_by_its_exit_code(tool: &str, exit_code: &JsonPart, failed: bool)
    requires
        call_ensures(exit_code_is_error, (tool, exit_code), failed),
    ensures
        tool@ != "shell.exec"@ ==> !failed,
        tool@ == "shell.exec"@ ==> {
            &&& exit_code is Missing ==> !failed
            &&& *exit_code matches JsonPart::Number { signed, .. } ==> (failed <==> signed
                != Some(0i64))
            &&& exit_code !is Missing && exit_code !is Number ==> failed
        },
{
}

/// The turns and the calls of a run are numbered from one on.
pub proof fn turns_are_numbered_from_one(step: u32, turn: String, call: String)
    requires
        call_ensures(turn_id, (step,), turn),
        call_ensures(mint_tool_call_id, (step,), call),
    ensures
        turn@ == "turn_"@ + text::decimal((step + 1) as nat),
        call@ == "call_"@ + text::decimal((step + 1) as nat),
{
}

/// Whether a text holds nothing but white space.
pub open spec fn nothing_said(words: Seq<char>) -> bool {
    forall|i: int| 0 <= i < words.len() ==> text::is_space(#[trigger] words[i])
}

/// A question is refused exactly where nothing is said in it, and a session exactly where the ledger
/// is a plain file.
pub proof fn what_a_run_needs(
    question: &str,
    checked: Result<(), AppError>,
    ledger: &RunLedger,
    session: &Option<RunSession>,
    used: Result<bool, AppError>,
)
    requires
        call_ensures(check_question, (question,), checked),
        call_ensures(uses_session, (ledger, session), used),
    ensures
        checked is Err <==> nothing_said(question@),
        checked matches Err(error) ==> error is EmptyQuestion,
        used is Err <==> ledger is Jsonl && session is Some,
        used matches Ok(uses) ==> (uses <==> session is Some),
{
}

/// A run goes by the model, the tools and the limits that count for it: what was asked for of this
/// run, and otherwise what is configured. It starts from its question, or from its session.
pub proof fn a_run_goes_by_what_counts_for_it(
    options: &RunOptions,
    config: &Config,
    system: String,
    kept: Option<SessionHydration>,
    fresh_id: String,
    setup: (RunSettings, Vec<ModelMessage>),
)
    requires
        kept is Some == options.session is Some,
        call_ensures(run_setup, (options, config, system, kept, fresh_id), setup),
    ensures
        options.overrides.model matches Some(model) ==> setup.0.model == model,
        options.overrides.model is None ==> setup.0.model == config.provider.model,
        options.run_id matches Some(run_id) ==> setup.0.run_id == run_id,
        options.run_id is None ==> setup.0.run_id == fresh_id,
        setup.0.system == system,
        setup.0.token_budget == config.limits.token_budget,
        setup.0.max_turns == config.limits.max_turns,
        setup.0.enabled_tools@ == config.tools.enabled@,
        setup.0.approval == options.approval_mode,
        setup.0.stream_to_stderr == options.stream_to_stderr,
        setup.0.has_session <==> options.session is Some,
        kept is None ==> setup.1@.len() == 1 && says_only(
            setup.1@[0],
            Role::User,
            options.question@,
        ) && setup.0.compaction is None,
        kept matches Some(session) ==> setup.1 == session.retained_messages
            && setup.0.compaction == Some(
            Compaction {
                tokens_before: session.estimated_tokens_before,
                tokens_after: session.estimated_tokens_after,
                dropped_turns: session.dropped_turns,
            },
        ),
{
}

/// OpenAI is told the limit in one field and OpenRouter in another, and a model that is set for a run
/// comes before the configured one.
pub proof fn a_provider_is_asked_in_its_way(
    openai: TokenLimitField,
    openrouter: TokenLimitField,
    configured: &str,
    overrides: &RunOverrides,
    model: String,
)
    requires
        call_ensures(token_limit_field, (&ProviderKind::OpenAi,), openai),
        call_ensures(token_limit_field, (&ProviderKind::OpenRouter,), openrouter),
        call_ensures(chosen_model, (configured, overrides), model),
    ensures
        openai == TokenLimitField::MaxCompletionTokens,
        openrouter == TokenLimitField::MaxTokens,
        overrides.model matches Some(set) ==> model@ == set@,
        overrides.model is None ==> model@ == configured@,
{
}

/// Every effort has a name of its own, by which it is found again; nothing else is an effort.
pub proof fn efforts_are_known_by_name(
    effort: ReasoningEffort,
    name: &'static str,
    found: Option<ReasoningEffort>,
    other: &str,
    read: Option<ReasoningEffort>,
)
    requires
        call_ensures(ReasoningEffort::as_str, (effort,), name),
        call_ensures(ReasoningEffort::parse, (name,), found),
        call_ensures(ReasoningEffort::parse, (other,), read),
    ensures
        found == Some(effort),
        read matches Some(e) ==> {
            ||| e is Off && other@ == "none"@
            ||| e is Minimal && other@ == "minimal"@
            ||| e is Low && other@ == "low"@
            ||| e is Medium && other@ == "medium"@
            ||| e is High && other@ == "high"@
            ||| e is Xhigh && other@ == "xhigh"@
            ||| e is Max && other@ == "max"@
        },
        effort is Off ==> name@ == "none"@,
        effort is Xhigh ==> name@ == "xhigh"@,
{
    model::effort_round_trip(effort);
}

/// The output of a tool that is small is given to the model whole, between the tags of its tool; one
/// that holds no closing tag is given as it is. A large one ends with the mark of a cut.
pub proof fn small_output_is_given_whole(name: Seq<char>, body: Seq<char>)
    requires
        forall|at: int| !tool_output::closes_at(body, at),
    ensures
        ({
            let tags = "<tool_output name=\""@ + name + "\" trust=\"untrusted\">\n"@;
            let close = "\n</tool_output>"@;
            &&& text::utf8_len(tags) + text::utf8_len(body) + text::utf8_len(close) <= 65_536
                ==> tool_output::wrapped(name, body) == tags + body + close
            &&& text::utf8_len(tags) + text::utf8_len(body) + text::utf8_len(close) > 65_536
                ==> exists|n: int|
                0 <= n <= body.len() && tool_output::wrapped(name, body) == tags
                    + #[trigger] body.take(n) + "\n... output truncated"@ + close
        }),
{
    tool_output::neutralized_keeps_harmless_text(body);
    if !tool_output::shown_whole(name, body) {
        let room = tool_output::room_for_cut_body(name) as nat;
        tool_output::fitting_prefix_is_longest(body, room);
        let n = tool_output::fitting_prefix(body, room).len() as int;
        assert(tool_output::fitting_prefix(body, room) == body.take(n));
    }
}

} // verus!
