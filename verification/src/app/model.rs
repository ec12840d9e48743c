//! The conversation with the model.

use crate::config::ProviderKind;
use crate::text;
use vstd::prelude::*;

verus! {

/// Who speaks in a message.
#[derive(Clone, Copy, Debug, PartialEq, Eq, Structural)]
pub enum Role {
    User,
    Assistant,
    Tool,
}

/// A part of a message. The input of a tool is JSON.
#[derive(Debug, PartialEq, Eq)]
pub enum ModelBlock {
    Text { text: String },
    ToolUse { id: String, name: String, input: String },
    ToolResult { tool_call_id: String, content: String, is_error: bool },
}

#[derive(Debug, PartialEq, Eq)]
pub struct ModelMessage {
    pub role: Role,
    pub content: Vec<ModelBlock>,
}

/// A tool that the model wants to use.
#[derive(Debug, PartialEq, Eq)]
pub struct ToolUse {
    pub id: String,
    pub name: String,
    pub input: String,
}

/// Why the model stopped.
#[derive(Clone, Copy, Debug, PartialEq, Eq, Structural)]
pub enum ModelStop {
    EndTurn,
    ToolUse,
    MaxOutput,
    ContentFilter,
}

/// What a request took and what its response took, in tokens.
#[derive(Clone, Copy, Debug, PartialEq, Eq, Structural)]
pub struct TokenUsage {
    pub input_tokens: u64,
    pub output_tokens: u64,
}

/// What the model answered, and how many pieces of it were shown while they came in.
#[derive(Debug, PartialEq, Eq)]
pub struct ModelResponse {
    pub text: String,
    pub content: Vec<ModelBlock>,
    pub stop: ModelStop,
    pub usage: TokenUsage,
    pub streamed_deltas: u64,
}

/// The field in which a provider expects the limit on the output.
#[derive(Clone, Copy, Debug, PartialEq, Eq, Structural)]
pub enum TokenLimitField {
    MaxCompletionTokens,
    MaxTokens,
}

/// The field in which a provider expects the limit on the output.
pub fn token_limit_field(kind: &ProviderKind) -> (result: TokenLimitField)
    ensures
        result == (match kind {
            ProviderKind::OpenAi => TokenLimitField::MaxCompletionTokens,
            ProviderKind::OpenRouter => TokenLimitField::MaxTokens,
        }),
{
    match kind {
        ProviderKind::OpenAi => TokenLimitField::MaxCompletionTokens,
        ProviderKind::OpenRouter => TokenLimitField::MaxTokens,
    }
}

/// Whether a message is one text.
pub open spec fn is_text(message: ModelMessage, role: Role, words: Seq<char>) -> bool {
    &&& message.role == role
    &&& message.content@.len() == 1
    &&& message.content@[0] matches ModelBlock::Text { text } && text@ == words
}

/// Whether a message is the result of one tool.
pub open spec fn is_tool_result(
    message: ModelMessage,
    id: String,
    words: Seq<char>,
    is_error: bool,
) -> bool {
    &&& message.role == Role::Tool
    &&& message.content@.len() == 1
    &&& message.content@[0] matches ModelBlock::ToolResult {
        tool_call_id,
        content,
        is_error: failed,
    } && tool_call_id == id && content@ == words && failed == is_error
}

impl ModelMessage {
    pub fn user_text(text: String) -> (result: Self)
        ensures
            is_text(result, Role::User, text@),
    {
        ModelMessage { role: Role::User, content: vec![ModelBlock::Text { text }] }
    }

    pub fn assistant_text(text: String) -> (result: Self)
        ensures
            is_text(result, Role::Assistant, text@),
    {
        ModelMessage { role: Role::Assistant, content: vec![ModelBlock::Text { text }] }
    }

    pub fn assistant_blocks(content: Vec<ModelBlock>) -> (result: Self)
        ensures
            result == (ModelMessage { role: Role::Assistant, content }),
    {
        ModelMessage { role: Role::Assistant, content }
    }

    pub fn tool_result(id: String, words: String, is_error: bool) -> (result: Self)
        ensures
            is_tool_result(result, id, words@, is_error),
    {
        ModelMessage {
            role: Role::Tool,
            content: vec![ModelBlock::ToolResult { tool_call_id: id, content: words, is_error }],
        }
    }
}

/// The tools that a message asks for, in its order.
pub open spec fn tool_uses_in(content: Seq<ModelBlock>) -> Seq<ToolUse>
    decreases content.len(),
{
    if content.len() == 0 {
        Seq::empty()
    } else {
        match content.last() {
            ModelBlock::ToolUse { id, name, input } => tool_uses_in(content.drop_last()).push(
                ToolUse { id, name, input },
            ),
            _ => tool_uses_in(content.drop_last()),
        }
    }
}

/// The tools that a message asks for, in its order.
pub fn tool_uses(content: &Vec<ModelBlock>) -> (result: Vec<ToolUse>)
    ensures
        result@ == tool_uses_in(content@),
{
    let mut uses: Vec<ToolUse> = Vec::new();
    let mut i: usize = 0;
    assert(content@.take(0) =~= Seq::<ModelBlock>::empty());
    while i < content.len()
        invariant
            i <= content.len(),
            uses@ == tool_uses_in(content@.take(i as int)),
        decreases content.len() - i,
    {
        assert(content@.take(i + 1).drop_last() =~= content@.take(i as int));
        if let ModelBlock::ToolUse { id, name, input } = &content[i] {
            uses.push(ToolUse { id: id.clone(), name: name.clone(), input: input.clone() });
        }
        i = i + 1;
    }
    assert(content@.take(i as int) =~= content@);
    uses
}

/// What the ledger keeps of a tool that the model asks for.
#[derive(Debug, PartialEq, Eq)]
pub struct ToolProposal {
    pub tool: String,
    pub input: String,
}

/// What the ledger keeps of the tools that a response asks for: all of them, in their order.
pub open spec fn proposals_in(content: Seq<ModelBlock>) -> Seq<ToolProposal> {
    tool_uses_in(content).map_values(|u: ToolUse| ToolProposal { tool: u.name, input: u.input })
}

/// What the ledger keeps of the tools that a response asks for.
pub fn proposals_from_response(content: &Vec<ModelBlock>) -> (result: Vec<ToolProposal>)
    ensures
        result@ == proposals_in(content@),
{
    let uses = tool_uses(content);
    let mut proposals: Vec<ToolProposal> = Vec::new();
    let mut i: usize = 0;
    while i < uses.len()
        invariant
            i <= uses.len(),
            proposals@.len() == i,
            forall|j: int|
                0 <= j < i ==> #[trigger] proposals@[j] == (ToolProposal {
                    tool: uses@[j].name,
                    input: uses@[j].input,
                }),
        decreases uses.len() - i,
    {
        proposals.push(ToolProposal { tool: uses[i].name.clone(), input: uses[i].input.clone() });
        i = i + 1;
    }
    assert(proposals@ =~= proposals_in(content@));
    proposals
}

/// Whether two of the tools were asked for under one identifier.
pub open spec fn repeats_an_id(uses: Seq<ToolUse>) -> bool {
    exists|i: int, j: int|
        0 <= i < j < uses.len() && (#[trigger] uses[i]).id@ == (#[trigger] uses[j]).id@
}

/// Whether two of the tools were asked for under one identifier.
pub fn has_repeated_id(uses: &Vec<ToolUse>) -> (result: bool)
    ensures
        result == repeats_an_id(uses@),
{
    let mut j: usize = 0;
    while j < uses.len()
        invariant
            j <= uses.len(),
            forall|a: int, b: int|
                0 <= a < b < j ==> (#[trigger] uses@[a]).id@ != (#[trigger] uses@[b]).id@,
        decreases uses.len() - j,
    {
        let mut i: usize = 0;
        while i < j
            invariant
                i <= j < uses.len(),
                forall|a: int| 0 <= a < i ==> (#[trigger] uses@[a]).id@ != uses@[j as int].id@,
            decreases j - i,
        {
            if text::same(uses[i].id.as_str(), uses[j].id.as_str()) {
                assert(uses@[i as int].id@ == uses@[j as int].id@);
                return true;
            }
            i = i + 1;
        }
        j = j + 1;
    }
    false
}

/// The number of tokens that a text is taken to have: one for four characters, and one more.
pub open spec fn tokens_in(content: Seq<char>) -> u32 {
    if content.len() / 4 + 1 <= u32::MAX {
        (content.len() / 4 + 1) as u32
    } else {
        u32::MAX
    }
}

/// The number of tokens that a text is taken to have.
pub fn estimate_tokens(content: &str) -> (result: u32)
    ensures
        result == tokens_in(content@),
{
    let quarter: usize = content.unicode_len() / 4;
    if quarter >= u32::MAX as usize {
        u32::MAX
    } else {
        quarter as u32 + 1
    }
}

/// How much the model is asked to think before it answers.
#[derive(Clone, Copy, Debug, PartialEq, Eq, Structural)]
pub enum ReasoningEffort {
    /// Written `none`.
    Off,
    Minimal,
    Low,
    Medium,
    High,
    Xhigh,
    Max,
}

/// The name of an effort.
pub open spec fn effort_text(effort: ReasoningEffort) -> Seq<char> {
    match effort {
        ReasoningEffort::Off => "none"@,
        ReasoningEffort::Minimal => "minimal"@,
        ReasoningEffort::Low => "low"@,
        ReasoningEffort::Medium => "medium"@,
        ReasoningEffort::High => "high"@,
        ReasoningEffort::Xhigh => "xhigh"@,
        ReasoningEffort::Max => "max"@,
    }
}

/// The effort of a name.
pub open spec fn effort_named(name: Seq<char>) -> Option<ReasoningEffort> {
    if name == "none"@ {
        Some(ReasoningEffort::Off)
    } else if name == "minimal"@ {
        Some(ReasoningEffort::Minimal)
    } else if name == "low"@ {
        Some(ReasoningEffort::Low)
    } else if name == "medium"@ {
        Some(ReasoningEffort::Medium)
    } else if name == "high"@ {
        Some(ReasoningEffort::High)
    } else if name == "xhigh"@ {
        Some(ReasoningEffort::Xhigh)
    } else if name == "max"@ {
        Some(ReasoningEffort::Max)
    } else {
        None
    }
}

impl ReasoningEffort {
    /// The name of an effort.
    pub fn as_str(self) -> (result: &'static str)
        ensures
            result@ == effort_text(self),
    {
        match self {
            ReasoningEffort::Off => "none",
            ReasoningEffort::Minimal => "minimal",
            ReasoningEffort::Low => "low",
            ReasoningEffort::Medium => "medium",
            ReasoningEffort::High => "high",
            ReasoningEffort::Xhigh => "xhigh",
            ReasoningEffort::Max => "max",
        }
    }

    /// The effort of a name.
    pub fn parse(name: &str) -> (result: Option<ReasoningEffort>)
        ensures
            result == effort_named(name@),
    {
        if text::same(name, "none") {
            Some(ReasoningEffort::Off)
        } else if text::same(name, "minimal") {
            Some(ReasoningEffort::Minimal)
        } else if text::same(name, "low") {
            Some(ReasoningEffort::Low)
        } else if text::same(name, "medium") {
            Some(ReasoningEffort::Medium)
        } else if text::same(name, "high") {
            Some(ReasoningEffort::High)
        } else if text::same(name, "xhigh") {
            Some(ReasoningEffort::Xhigh)
        } else if text::same(name, "max") {
            Some(ReasoningEffort::Max)
        } else {
            None
        }
    }
}

/// The name of an effort is read back as that effort.
pub proof fn effort_round_trip(effort: ReasoningEffort)
    ensures
        effort_named(effort_text(effort)) == Some(effort),
{
    reveal_strlit("none");
    reveal_strlit("minimal");
    reveal_strlit("low");
    reveal_strlit("medium");
    reveal_strlit("high");
    reveal_strlit("xhigh");
    reveal_strlit("max");
    assert("none"@[0] == 'n' && "minimal"@[1] == 'i' && "low"@[0] == 'l' && "medium"@[1] == 'e'
        && "high"@[0] == 'h' && "xhigh"@[0] == 'x' && "max"@[1] == 'a' && "minimal"@[0] == 'm'
        && "medium"@[0] == 'm' && "max"@[0] == 'm');
}

/// What one run or one channel sets in place of the configuration.
#[derive(Debug, PartialEq, Eq)]
pub struct RunOverrides {
    pub model: Option<String>,
    pub reasoning_effort: Option<ReasoningEffort>,
}

impl Default for RunOverrides {
    fn default() -> (result: Self)
        ensures
            result == (RunOverrides { model: None, reasoning_effort: None }),
    {
        RunOverrides { model: None, reasoning_effort: None }
    }
}

impl Clone for RunOverrides {
    fn clone(&self) -> (result: Self)
        ensures
            result == *self,
    {
        RunOverrides { model: self.model.clone(), reasoning_effort: self.reasoning_effort }
    }
}

impl RunOverrides {
    /// Whether nothing is set.
    pub fn is_empty(&self) -> (result: bool)
        ensures
            result == (self.model is None && self.reasoning_effort is None),
    {
        self.model.is_none() && self.reasoning_effort.is_none()
    }
}

/// The model that a run uses: the one that is set for it, or the configured one.
pub fn chosen_model(configured: &str, overrides: &RunOverrides) -> (result: String)
    ensures
        result@ == (match overrides.model {
            Some(model) => model@,
            None => configured@,
        }),
{
    match &overrides.model {
        Some(model) => model.clone(),
        None => configured.to_owned(),
    }
}

} // verus!
