//! Whether a tool call may run: by itself, with somebody's approval, or not at all.

use crate::tool_catalog::{self, EffectClass, SHELL_EXEC};
use crate::text;
use vstd::prelude::*;

verus! {

/// A call that the model asks for. Its identifier is made from the step in which it was asked for.
#[derive(Debug, PartialEq, Eq)]
pub struct ToolCall {
    pub step: u32,
    pub tool: String,
    pub effect: EffectClass,
    /// The input, as JSON.
    pub input: String,
}

/// Why a call needs approval or is refused.
#[derive(Debug, PartialEq, Eq)]
pub enum PolicyReason {
    ShellNeedsApproval,
    EffectNeedsApproval(EffectClass),
    ToolNotEnabled(String),
}

#[derive(Debug, PartialEq, Eq)]
pub enum PolicyDecision {
    Allow,
    RequireApproval { reason: PolicyReason },
    Deny { reason: PolicyReason },
}

/// A reason in words.
pub open spec fn reason_text(reason: PolicyReason) -> Seq<char> {
    match reason {
        PolicyReason::ShellNeedsApproval => "shell.exec requires explicit local approval"@,
        PolicyReason::EffectNeedsApproval(effect) => tool_catalog::effect_name(effect)
            + " requires approval"@,
        PolicyReason::ToolNotEnabled(tool) => "tool is not enabled: "@ + tool@,
    }
}

impl PolicyReason {
    /// The reason in words.
    pub fn message(&self) -> (result: String)
        ensures
            result@ == reason_text(*self),
    {
        match self {
            PolicyReason::ShellNeedsApproval =>
                "shell.exec requires explicit local approval".to_owned(),
            PolicyReason::EffectNeedsApproval(effect) => text::concat(
                effect.as_str(),
                " requires approval",
            ),
            PolicyReason::ToolNotEnabled(tool) => text::concat(
                "tool is not enabled: ",
                tool.as_str(),
            ),
        }
    }
}

impl Clone for PolicyReason {
    fn clone(&self) -> (result: Self)
        ensures
            result == *self,
    {
        match self {
            PolicyReason::ShellNeedsApproval => PolicyReason::ShellNeedsApproval,
            PolicyReason::EffectNeedsApproval(effect) => PolicyReason::EffectNeedsApproval(*effect),
            PolicyReason::ToolNotEnabled(tool) => PolicyReason::ToolNotEnabled(tool.clone()),
        }
    }
}

impl Clone for PolicyDecision {
    fn clone(&self) -> (result: Self)
        ensures
            result == *self,
    {
        match self {
            PolicyDecision::Allow => PolicyDecision::Allow,
            PolicyDecision::RequireApproval { reason } => PolicyDecision::RequireApproval {
                reason: reason.clone(),
            },
            PolicyDecision::Deny { reason } => PolicyDecision::Deny { reason: reason.clone() },
        }
    }
}

impl Clone for ToolCall {
    fn clone(&self) -> (result: Self)
        ensures
            result == *self,
    {
        ToolCall {
            step: self.step,
            tool: self.tool.clone(),
            effect: self.effect,
            input: self.input.clone(),
        }
    }
}

/// The decision for an effect where the tool has no rule of its own: reading is allowed, anything
/// else needs approval.
pub open spec fn effect_policy(effect: EffectClass) -> PolicyDecision {
    if effect == EffectClass::ReadOnly {
        PolicyDecision::Allow
    } else {
        PolicyDecision::RequireApproval { reason: PolicyReason::EffectNeedsApproval(effect) }
    }
}

impl EffectClass {
    /// The decision for an effect where the tool has no rule of its own.
    pub fn default_policy(self) -> (result: PolicyDecision)
        ensures
            result == effect_policy(self),
    {
        if self == EffectClass::ReadOnly {
            PolicyDecision::Allow
        } else {
            PolicyDecision::RequireApproval { reason: PolicyReason::EffectNeedsApproval(self) }
        }
    }
}

/// The decision on a call.
pub open spec fn policy(enabled: Seq<Seq<char>>, call: ToolCall) -> PolicyDecision {
    if !enabled.contains(call.tool@) {
        PolicyDecision::Deny { reason: PolicyReason::ToolNotEnabled(call.tool) }
    } else if call.tool@ == SHELL_EXEC@ {
        PolicyDecision::RequireApproval { reason: PolicyReason::ShellNeedsApproval }
    } else {
        effect_policy(call.effect)
    }
}

/// The decision on a call: a tool that is not enabled is refused, the shell always needs approval,
/// and the rest goes by its effect.
pub fn evaluate_policy(enabled_tools: &Vec<String>, call: &ToolCall) -> (result: PolicyDecision)
    ensures
        result == policy(tool_catalog::texts(enabled_tools@), *call),
{
    let ghost names = tool_catalog::texts(enabled_tools@);
    let mut i: usize = 0;
    while i < enabled_tools.len()
        invariant
            i <= enabled_tools.len(),
            names == tool_catalog::texts(enabled_tools@),
            forall|j: int| 0 <= j < i ==> #[trigger] names[j] != call.tool@,
        decreases enabled_tools.len() - i,
    {
        assert(names[i as int] == enabled_tools@[i as int]@);
        if text::same(enabled_tools[i].as_str(), call.tool.as_str()) {
            assert(names.contains(call.tool@));
            if text::same(call.tool.as_str(), SHELL_EXEC) {
                return PolicyDecision::RequireApproval { reason: PolicyReason::ShellNeedsApproval };
            }
            return call.effect.default_policy();
        }
        i = i + 1;
    }
    assert(!names.contains(call.tool@));
    PolicyDecision::Deny { reason: PolicyReason::ToolNotEnabled(call.tool.clone()) }
}

/// Who decides on the calls that need approval.
#[derive(Debug, PartialEq, Eq)]
pub enum ApprovalMode {
    /// The user is asked.
    Prompt,
    /// Writes in the workspace are approved; for the rest the user is asked.
    AutoApprove,
    /// Nothing is approved.
    Deny { actor: String },
    /// Somebody outside the run decides.
    External { actor: String },
}

impl Clone for ApprovalMode {
    fn clone(&self) -> (result: Self)
        ensures
            result == *self,
    {
        match self {
            ApprovalMode::Prompt => ApprovalMode::Prompt,
            ApprovalMode::AutoApprove => ApprovalMode::AutoApprove,
            ApprovalMode::Deny { actor } => ApprovalMode::Deny { actor: actor.clone() },
            ApprovalMode::External { actor } => ApprovalMode::External { actor: actor.clone() },
        }
    }
}

impl Default for ApprovalMode {
    fn default() -> (result: Self)
        ensures
            result is Prompt,
    {
        ApprovalMode::Prompt
    }
}

/// Who gave or refused an approval.
#[derive(Debug, PartialEq, Eq)]
pub enum Actor {
    Yolo,
    Stdin,
    Named(String),
}

impl Clone for Actor {
    fn clone(&self) -> (result: Self)
        ensures
            result == *self,
    {
        match self {
            Actor::Yolo => Actor::Yolo,
            Actor::Stdin => Actor::Stdin,
            Actor::Named(name) => Actor::Named(name.clone()),
        }
    }
}

/// The name under which an actor is stored.
pub open spec fn actor_text(actor: Actor) -> Seq<char> {
    match actor {
        Actor::Yolo => "yolo"@,
        Actor::Stdin => "stdin"@,
        Actor::Named(name) => name@,
    }
}

impl Actor {
    /// The name under which an actor is stored.
    pub fn as_str(&self) -> (result: &str)
        ensures
            result@ == actor_text(*self),
    {
        match self {
            Actor::Yolo => "yolo",
            Actor::Stdin => "stdin",
            Actor::Named(name) => name.as_str(),
        }
    }
}

/// Whether a mode approves a call by itself.
pub open spec fn grants_by_itself(
    mode: ApprovalMode,
    effect: EffectClass,
    policy: PolicyDecision,
) -> bool {
    mode is AutoApprove && policy is RequireApproval && effect == EffectClass::WorkspaceWrite
}

impl ApprovalMode {
    pub fn from_yolo(enabled: bool) -> (result: Self)
        ensures
            result == (if enabled {
                ApprovalMode::AutoApprove
            } else {
                ApprovalMode::Prompt
            }),
    {
        if enabled {
            ApprovalMode::AutoApprove
        } else {
            ApprovalMode::Prompt
        }
    }

    /// Decisions are taken outside the run, in the name of `actor`.
    pub fn external(actor: &str) -> (result: Self)
        ensures
            result matches ApprovalMode::External { actor: name } && name@ == actor@,
    {
        ApprovalMode::External { actor: actor.to_owned() }
    }

    /// Who approves the call without anybody being asked.
    pub fn auto_grant_actor(&self, call: &ToolCall, policy: &PolicyDecision) -> (result: Option<
        Actor,
    >)
        ensures
            result == (if grants_by_itself(*self, call.effect, *policy) {
                Some(Actor::Yolo)
            } else {
                None
            }),
    {
        match (self, policy) {
            (ApprovalMode::AutoApprove, PolicyDecision::RequireApproval { .. }) => {
                if call.effect == EffectClass::WorkspaceWrite {
                    Some(Actor::Yolo)
                } else {
                    None
                }
            },
            _ => None,
        }
    }

    /// Who refuses the call without anybody being asked.
    pub fn deny_actor(&self, policy: &PolicyDecision) -> (result: Option<Actor>)
        ensures
            result == (match (*self, *policy) {
                (ApprovalMode::Deny { actor }, PolicyDecision::RequireApproval { .. }) => Some(
                    Actor::Named(actor),
                ),
                _ => None,
            }),
    {
        match (self, policy) {
            (ApprovalMode::Deny { actor }, PolicyDecision::RequireApproval { .. }) => Some(
                Actor::Named(actor.clone()),
            ),
            _ => None,
        }
    }
}

/// A tool that is not enabled is refused whatever it does, and no mode approves it by itself.
pub proof fn disabled_tool_never_runs(enabled: Seq<Seq<char>>, call: ToolCall, mode: ApprovalMode)
    requires
        !enabled.contains(call.tool@),
    ensures
        policy(enabled, call) is Deny,
        !grants_by_itself(mode, call.effect, policy(enabled, call)),
{
}

/// The shell is never allowed outright: it is refused or needs approval.
pub proof fn shell_is_never_allowed_outright(enabled: Seq<Seq<char>>, call: ToolCall)
    requires
        call.tool@ == SHELL_EXEC@,
    ensures
        policy(enabled, call) !is Allow,
{
}

/// A mode approves by itself nothing but a write in the workspace, whatever the tool.
pub proof fn only_workspace_writes_are_granted_unasked(
    mode: ApprovalMode,
    effect: EffectClass,
    decision: PolicyDecision,
)
    requires
        grants_by_itself(mode, effect, decision),
    ensures
        effect == EffectClass::WorkspaceWrite,
        mode is AutoApprove,
        decision is RequireApproval,
{
}

/// The tools that look at the desktop are not enabled where a configuration names none, are never
/// allowed outright, and no mode approves them by itself.
pub proof fn desktop_tools_need_approval(
    enabled: Seq<Seq<char>>,
    call: ToolCall,
    mode: ApprovalMode,
)
    requires
        tool_catalog::observes_desktop(call.tool@),
        call.effect == tool_catalog::effect_of(call.tool@),
    ensures
        !tool_catalog::default_tools().contains(call.tool@),
        policy(enabled, call) !is Allow,
        !grants_by_itself(mode, call.effect, policy(enabled, call)),
{
    reveal_strlit("file.read");
    reveal_strlit("file.list");
    reveal_strlit("file.write");
    reveal_strlit("file.edit");
    reveal_strlit("shell.exec");
    reveal_strlit("web.fetch");
    reveal_strlit("computer.windows");
    reveal_strlit("computer.observe");
    assert("computer.windows"@[0] == 'c' && "computer.observe"@[0] == 'c');
    assert("file.read"@[0] == 'f' && "file.list"@[0] == 'f' && "file.write"@[0] == 'f'
        && "file.edit"@[0] == 'f' && "shell.exec"@[0] == 's' && "web.fetch"@[0] == 'w');
}

} // verus!
