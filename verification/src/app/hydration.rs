//! The conversation that a run starts from, and the context that it sends.

use crate::app::model::{self, ModelMessage, Role};
use crate::error::AppError;
use vstd::prelude::*;

verus! {

pub const SESSION_TRUNCATION_MARKER: &'static str =
    "[older session turns omitted to fit the context budget]";

/// A question of a session and the answer that it got.
#[derive(Debug, PartialEq, Eq)]
pub struct SessionTurn {
    pub question: String,
    pub final_answer: String,
}

/// The conversation of a session, cut to the budget.
#[derive(Debug)]
pub struct SessionHydration {
    pub retained_messages: Vec<ModelMessage>,
    pub dropped_turns: u64,
    pub estimated_tokens_before: u32,
    pub estimated_tokens_after: u32,
}

/// Whether messages are the conversation of some turns: the mark of a cut if there was one, every
/// question with its answer, and the new question.
pub open spec fn is_conversation(
    messages: Seq<ModelMessage>,
    turns: Seq<SessionTurn>,
    question: Seq<char>,
    truncated: bool,
) -> bool {
    let start: int = if truncated {
        1
    } else {
        0
    };
    &&& messages.len() == start + 2 * turns.len() + 1
    &&& truncated ==> model::is_text(messages[0], Role::User, SESSION_TRUNCATION_MARKER@)
    &&& forall|i: int|
        0 <= i < turns.len() ==> {
            &&& model::is_text(messages[start + 2 * i], Role::User, #[trigger] turns[i].question@)
            &&& model::is_text(
                messages[start + 2 * i + 1],
                Role::Assistant,
                turns[i].final_answer@,
            )
        }
    &&& model::is_text(messages.last(), Role::User, question)
}

/// The conversation of the turns from `first` on.
pub fn session_messages_from(
    turns: &Vec<SessionTurn>,
    first: usize,
    question: &str,
    truncated: bool,
) -> (result: Vec<ModelMessage>)
    requires
        first <= turns.len(),
    ensures
        is_conversation(result@, turns@.skip(first as int), question@, truncated),
{
    let mut messages: Vec<ModelMessage> = Vec::new();
    if truncated {
        messages.push(ModelMessage::user_text(SESSION_TRUNCATION_MARKER.to_owned()));
    }
    let ghost start = messages@.len() as int;
    let ghost kept = turns@.skip(first as int);
    let mut i: usize = first;
    while i < turns.len()
        invariant
            first <= i <= turns.len(),
            kept == turns@.skip(first as int),
            start == (if truncated {
                1int
            } else {
                0int
            }),
            messages@.len() == start + 2 * (i - first),
            truncated ==> model::is_text(messages@[0], Role::User, SESSION_TRUNCATION_MARKER@),
            forall|j: int|
                0 <= j < i - first ==> {
                    &&& model::is_text(
                        messages@[start + 2 * j],
                        Role::User,
                        #[trigger] kept[j].question@,
                    )
                    &&& model::is_text(
                        messages@[start + 2 * j + 1],
                        Role::Assistant,
                        kept[j].final_answer@,
                    )
                },
        decreases turns.len() - i,
    {
        assert(kept[i - first] == turns@[i as int]);
        messages.push(ModelMessage::user_text(turns[i].question.clone()));
        messages.push(ModelMessage::assistant_text(turns[i].final_answer.clone()));
        i = i + 1;
    }
    messages.push(ModelMessage::user_text(question.to_owned()));
    messages
}

/// What is sent with every conversation: the instructions, and the tools as JSON.
#[derive(Clone, Copy)]
pub struct SentAlong<'a> {
    pub system: &'a str,
    pub tools_json: &'a str,
}

/// Whether an estimate can be that of the conversation which is left when the oldest `dropped` turns
/// are left out, or an error that of writing it as JSON.
pub open spec fn measured<F: Fn(&Vec<ModelMessage>) -> Result<String, AppError>>(
    write: F,
    along: SentAlong,
    turns: Seq<SessionTurn>,
    question: Seq<char>,
    dropped: int,
    outcome: Result<u32, AppError>,
) -> bool {
    exists|messages: Vec<ModelMessage>, json: Result<String, AppError>|
        {
            &&& is_conversation(messages@, turns.skip(dropped), question, dropped > 0)
            &&& #[trigger] call_ensures(write, (&messages,), json)
            &&& outcome == (match json {
                Ok(words) => Ok::<u32, AppError>(
                    context_tokens(along.system@, words@, along.tools_json@),
                ),
                Err(error) => Err(error),
            })
        }
}

/// Whether a number of dropped turns is the smallest with which the conversation fits its budget,
/// or all of them where it fits with none of them.
pub open spec fn drops_fewest<F: Fn(&Vec<ModelMessage>) -> Result<String, AppError>>(
    write: F,
    along: SentAlong,
    turns: Seq<SessionTurn>,
    question: Seq<char>,
    token_budget: u32,
    estimates: Seq<u32>,
) -> bool {
    let dropped = estimates.len() - 1;
    &&& 0 <= dropped <= turns.len()
    &&& forall|k: int|
        0 <= k <= dropped ==> measured(
            write,
            along,
            turns,
            question,
            k,
            Ok::<u32, AppError>(#[trigger] estimates[k]),
        )
    &&& forall|k: int| 0 <= k < dropped ==> #[trigger] estimates[k] > token_budget
    &&& estimates[dropped] <= token_budget || dropped == turns.len()
}

/// Whether the conversation is larger than its budget with every number of dropped turns that an
/// estimate is given for: none, one, and so on.
pub open spec fn overshoots<F: Fn(&Vec<ModelMessage>) -> Result<String, AppError>>(
    write: F,
    along: SentAlong,
    turns: Seq<SessionTurn>,
    question: Seq<char>,
    token_budget: u32,
    estimates: Seq<u32>,
) -> bool {
    &&& estimates.len() <= turns.len()
    &&& forall|k: int|
        0 <= k < estimates.len() ==> measured(
            write,
            along,
            turns,
            question,
            k,
            Ok::<u32, AppError>(#[trigger] estimates[k]),
        )
    &&& forall|k: int| 0 <= k < estimates.len() ==> #[trigger] estimates[k] > token_budget
}

/// The conversation of a session with a new question. Where it is larger than the budget, the
/// oldest turns are left out, one by one, until it fits or none is left. `write` writes a
/// conversation as JSON.
pub fn hydrated_messages<F: Fn(&Vec<ModelMessage>) -> Result<String, AppError>>(
    turns: &Vec<SessionTurn>,
    question: &str,
    token_budget: u32,
    along: SentAlong,
    write: F,
) -> (result: Result<SessionHydration, AppError>)
    requires
        forall|messages: &Vec<ModelMessage>| #[trigger] call_requires(write, (messages,)),
    ensures
        match result {
            Ok(hydration) => {
                &&& is_conversation(
                    hydration.retained_messages@,
                    turns@.skip(hydration.dropped_turns as int),
                    question@,
                    hydration.dropped_turns > 0,
                )
                &&& exists|estimates: Seq<u32>|
                    {
                        &&& #[trigger] drops_fewest(
                            write,
                            along,
                            turns@,
                            question@,
                            token_budget,
                            estimates,
                        )
                        &&& hydration.dropped_turns == estimates.len() - 1
                        &&& hydration.estimated_tokens_before == estimates[0]
                        &&& hydration.estimated_tokens_after == estimates.last()
                    }
            },
            Err(error) => exists|estimates: Seq<u32>|
                {
                    &&& #[trigger] overshoots(write, along, turns@, question@, token_budget, estimates)
                    &&& measured(
                        write,
                        along,
                        turns@,
                        question@,
                        estimates.len() as int,
                        Err::<u32, AppError>(error),
                    )
                },
        },
{
    let mut first: usize = 0;
    let mut retained = session_messages_from(turns, 0, question, false);
    let before = match write(&retained) {
        Ok(json) => estimated_context_tokens(along.system, json.as_str(), along.tools_json),
        Err(error) => {
            assert(measured(write, along, turns@, question@, 0, Err::<u32, AppError>(error)));
            assert(overshoots(write, along, turns@, question@, token_budget, Seq::<u32>::empty()));
            return Err(error);
        },
    };
    let mut after = before;
    let ghost mut estimates: Seq<u32> = seq![before];
    assert(measured(write, along, turns@, question@, 0, Ok::<u32, AppError>(before)));
    while after > token_budget && first < turns.len()
        invariant
            first <= turns.len(),
            forall|messages: &Vec<ModelMessage>| #[trigger] call_requires(write, (messages,)),
            estimates.len() == first + 1,
            estimates[0] == before,
            estimates[first as int] == after,
            forall|k: int|
                0 <= k <= first ==> measured(
                    write,
                    along,
                    turns@,
                    question@,
                    k,
                    Ok::<u32, AppError>(#[trigger] estimates[k]),
                ),
            forall|k: int| 0 <= k < first ==> #[trigger] estimates[k] > token_budget,
            is_conversation(retained@, turns@.skip(first as int), question@, first > 0),
        decreases turns.len() - first,
    {
        first = first + 1;
        retained = session_messages_from(turns, first, question, true);
        after = match write(&retained) {
            Ok(json) => estimated_context_tokens(along.system, json.as_str(), along.tools_json),
            Err(error) => {
                assert(measured(
                    write,
                    along,
                    turns@,
                    question@,
                    first as int,
                    Err::<u32, AppError>(error),
                ));
                assert(overshoots(write, along, turns@, question@, token_budget, estimates));
                return Err(error);
            },
        };
        assert(measured(write, along, turns@, question@, first as int, Ok::<u32, AppError>(after)));
        proof {
            estimates = estimates.push(after);
        }
    }
    assert(drops_fewest(write, along, turns@, question@, token_budget, estimates));
    Ok(
        SessionHydration {
            retained_messages: retained,
            dropped_turns: first as u64,
            estimated_tokens_before: before,
            estimated_tokens_after: after,
        },
    )
}

/// The sum of two estimates, or the largest there is.
pub open spec fn capped_sum(a: u32, b: u32) -> u32 {
    if a + b <= u32::MAX {
        (a + b) as u32
    } else {
        u32::MAX
    }
}

/// The estimate for a request: its instructions, its messages and its tools, the last two as JSON.
pub open spec fn context_tokens(
    system: Seq<char>,
    messages_json: Seq<char>,
    tools_json: Seq<char>,
) -> u32 {
    capped_sum(
        capped_sum(model::tokens_in(system), model::tokens_in(messages_json)),
        model::tokens_in(tools_json),
    )
}

/// The estimate for a request.
pub fn estimated_context_tokens(system: &str, messages_json: &str, tools_json: &str) -> (result:
    u32)
    ensures
        result == context_tokens(system@, messages_json@, tools_json@),
{
    model::estimate_tokens(system).saturating_add(model::estimate_tokens(messages_json)).saturating_add(
        model::estimate_tokens(tools_json),
    )
}

/// The part that a piece of context plays.
#[derive(Clone, Copy, Debug, PartialEq, Eq, Structural)]
pub enum ContextLane {
    SystemContract,
    RecentTurns,
    ToolSchemas,
}

#[derive(Debug, PartialEq, Eq)]
pub struct ContextFragment {
    pub lane: ContextLane,
    pub source: String,
    pub content: String,
    pub estimated_tokens: u32,
}

#[derive(Debug, PartialEq, Eq)]
pub struct ContextPack {
    pub token_budget: u32,
    pub fragments: Vec<ContextFragment>,
}

/// A piece of context, with its words.
#[verifier::ext_equal]
pub struct FragmentView {
    pub lane: ContextLane,
    pub source: Seq<char>,
    pub content: Seq<char>,
    pub estimated_tokens: u32,
}

impl View for ContextFragment {
    type V = FragmentView;

    open spec fn view(&self) -> FragmentView {
        FragmentView {
            lane: self.lane,
            source: self.source@,
            content: self.content@,
            estimated_tokens: self.estimated_tokens,
        }
    }
}

/// The context of a request, with its words.
#[verifier::ext_equal]
pub struct ContextView {
    pub token_budget: u32,
    pub fragments: Seq<FragmentView>,
}

impl View for ContextPack {
    type V = ContextView;

    open spec fn view(&self) -> ContextView {
        ContextView {
            token_budget: self.token_budget,
            fragments: self.fragments@.map_values(|fragment: ContextFragment| fragment@),
        }
    }
}

/// A text under a source's name, with its estimate.
pub open spec fn fragment_of(
    lane: ContextLane,
    source: Seq<char>,
    content: Seq<char>,
) -> FragmentView {
    FragmentView { lane, source, content, estimated_tokens: model::tokens_in(content) }
}

/// The context of a request: its instructions, its messages and its tools, the last two as JSON.
pub open spec fn context_of(
    system: Seq<char>,
    messages_json: Seq<char>,
    tools_json: Seq<char>,
    token_budget: u32,
) -> ContextView {
    ContextView {
        token_budget,
        fragments: seq![
            fragment_of(ContextLane::SystemContract, "system_prompt"@, system),
            fragment_of(ContextLane::RecentTurns, "model.messages"@, messages_json),
            fragment_of(ContextLane::ToolSchemas, "model.tools"@, tools_json),
        ],
    }
}

fn fragment(lane: ContextLane, source: &str, content: String) -> (result: ContextFragment)
    ensures
        result@ == fragment_of(lane, source@, content@),
{
    let estimated_tokens = model::estimate_tokens(content.as_str());
    ContextFragment { lane, source: source.to_owned(), content, estimated_tokens }
}

/// The context of a request, as it is written to the ledger. The messages and the tools are given
/// as JSON.
pub fn context_pack(
    system: String,
    messages_json: String,
    tools_json: String,
    token_budget: u32,
) -> (result: ContextPack)
    ensures
        result@ == context_of(system@, messages_json@, tools_json@, token_budget),
{
    let mut fragments: Vec<ContextFragment> = Vec::new();
    fragments.push(fragment(ContextLane::SystemContract, "system_prompt", system));
    fragments.push(fragment(ContextLane::RecentTurns, "model.messages", messages_json));
    fragments.push(fragment(ContextLane::ToolSchemas, "model.tools", tools_json));
    let context = ContextPack { token_budget, fragments };
    assert(context@.fragments =~= context_of(
        system@,
        messages_json@,
        tools_json@,
        token_budget,
    ).fragments);
    context
}

} // verus!
