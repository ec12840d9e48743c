//! What holds of the tools of a run and of who decides on them.

use crate::app::model::{has_repeated_id, ToolUse};
use crate::app::policy::{Actor, ApprovalMode, PolicyDecision, PolicyReason, ToolCall};
use crate::app::run::tool_call;
use crate::app::session::{new_run_id, new_session_id, IdCounter, IdStamp};
use crate::text;
use crate::tool_catalog::{
    self, default_enabled_tools, effect_for_tool, is_desktop_tool, is_known_tool, EffectClass,
};
use vstd::prelude::*;

verus! {

/// Six tools are enabled where none is named: the reading ones first.
pub proof fn six_tools_are_enabled_by_themselves(tools: Vec<String>)
    requires
        call_ensures(default_enabled_tools, (), tools),
    ensures
        tools@.len() == 6,
        tools@[0]@ == "file.read"@ && tools@[1]@ == "file.list"@ && tools@[2]@ == "file.write"@
            && tools@[3]@ == "file.edit"@ && tools@[4]@ == "shell.exec"@ && tools@[5]@
            == "web.fetch"@,
{
    let names = tool_catalog::texts(tools@);
    assert(names.len() == tools@.len());
    assert(names[0] == tools@[0]@ && names[1] == tools@[1]@ && names[2] == tools@[2]@ && names[3]
        == tools@[3]@ && names[4] == tools@[4]@ && names[5] == tools@[5]@);
}

/// Whether a name is in a list of names.
pub open spec fn is_among(name: Seq<char>, tools: Seq<String>) -> bool {
    exists|i: int| 0 <= i < tools.len() && (#[trigger] tools[i])@ == name
}

/// A configuration can enable the tools that are enabled by themselves and the two that look at the
/// desktop, and no others.
pub proof fn known_tools_are_these(
    tool: &str,
    tools: Vec<String>,
    known: bool,
    on_desktop: bool,
)
    requires
        call_ensures(default_enabled_tools, (), tools),
        call_ensures(is_known_tool, (tool,), known),
        call_ensures(is_desktop_tool, (tool,), on_desktop),
    ensures
        known <==> is_among(tool@, tools@) || on_desktop,
        on_desktop <==> tool@ == "computer.windows"@ || tool@ == "computer.observe"@,
{
    let names = tool_catalog::texts(tools@);
    assert(names == tool_catalog::default_tools());
    if names.contains(tool@) {
        let i = choose|i: int| 0 <= i < names.len() && names[i] == tool@;
        assert(tools@[i]@ == tool@);
    }
    if is_among(tool@, tools@) {
        let i = choose|i: int| 0 <= i < tools@.len() && (#[trigger] tools@[i])@ == tool@;
        assert(names[i] == tool@);
    }
}

/// Files are read, or written in the workspace; the web is reached over the network; everything else
/// reaches outside.
pub proof fn a_tool_does_what_its_name_says(tool: &str, effect: EffectClass)
    requires
        call_ensures(effect_for_tool, (tool,), effect),
    ensures
        effect == EffectClass::ReadOnly <==> tool@ == "file.read"@ || tool@ == "file.list"@,
        effect == EffectClass::WorkspaceWrite <==> tool@ == "file.write"@ || tool@ == "file.edit"@,
        effect == EffectClass::Network <==> tool@ == "web.fetch"@,
        effect != EffectClass::SecretAccess,
{
    reveal_strlit("file.read");
    reveal_strlit("file.list");
    reveal_strlit("file.write");
    reveal_strlit("file.edit");
    reveal_strlit("web.fetch");
    assert("file.read"@[5] == 'r' && "file.list"@[5] == 'l' && "file.write"@[5] == 'w'
        && "file.edit"@[5] == 'e' && "web.fetch"@[0] == 'w' && "file.read"@[0] == 'f');
    assert("file.list"@[0] == 'f' && "file.write"@[0] == 'f' && "file.edit"@[0] == 'f');
}

/// A call is the tool that the model asked for, with its input, in the step that it was asked in.
pub proof fn a_call_is_what_was_asked_for(
    step: u32,
    used: &ToolUse,
    call: ToolCall,
    name: &str,
    effect: EffectClass,
)
    requires
        call_ensures(tool_call, (step, used), call),
        name@ == used.name@,
        call_ensures(effect_for_tool, (name,), effect),
    ensures
        call.step == step && call.tool == used.name && call.input == used.input,
        call.effect == effect,
{
}

/// Two uses of a tool under one identifier are noticed, and nothing else is.
pub proof fn a_repeated_identifier_is_noticed(uses: &Vec<ToolUse>, repeated: bool)
    requires
        call_ensures(has_repeated_id, (uses,), repeated),
    ensures
        repeated <==> exists|i: int, j: int|
            0 <= i < uses@.len() && 0 <= j < uses@.len() && i != j && (#[trigger] uses@[i]).id@ == (
            #[trigger] uses@[j]).id@,
{
    if exists|i: int, j: int|
        0 <= i < uses@.len() && 0 <= j < uses@.len() && i != j && (#[trigger] uses@[i]).id@ == (
        #[trigger] uses@[j]).id@ {
        let (i, j) = choose|i: int, j: int|
            0 <= i < uses@.len() && 0 <= j < uses@.len() && i != j && (#[trigger] uses@[i]).id@ == (
            #[trigger] uses@[j]).id@;
        let (first, second): (int, int) = if i < j {
            (i, j)
        } else {
            (j, i)
        };
        assert(0 <= first < second < uses@.len() && uses@[first].id@ == uses@[second].id@);
    }
}

/// Reading is allowed; any other effect needs approval, for that effect.
pub proof fn only_reading_is_allowed_by_itself(effect: EffectClass, decision: PolicyDecision)
    requires
        call_ensures(EffectClass::default_policy, (effect,), decision),
    ensures
        decision is Allow <==> effect == EffectClass::ReadOnly,
        !(decision is Allow) ==> decision == (PolicyDecision::RequireApproval {
            reason: PolicyReason::EffectNeedsApproval(effect),
        }),
{
}

/// Without being asked, a mode approves only writes in the workspace that need it, and only where
/// it was switched on; it refuses only where it is made to refuse. It never does both.
pub proof fn a_mode_decides_only_what_it_may(
    mode: &ApprovalMode,
    call: &ToolCall,
    policy: &PolicyDecision,
    granted: Option<Actor>,
    denied: Option<Actor>,
    enabled: bool,
    switched: ApprovalMode,
)
    requires
        call_ensures(ApprovalMode::auto_grant_actor, (mode, call, policy), granted),
        call_ensures(ApprovalMode::deny_actor, (mode, policy), denied),
        call_ensures(ApprovalMode::from_yolo, (enabled,), switched),
    ensures
        granted is Some <==> mode is AutoApprove && policy is RequireApproval && call.effect
            == EffectClass::WorkspaceWrite,
        granted matches Some(actor) ==> actor == Actor::Yolo,
        denied is Some <==> mode is Deny && policy is RequireApproval,
        denied matches Some(actor) ==> (*mode matches ApprovalMode::Deny { actor: name } && actor
            == Actor::Named(name)),
        !(granted is Some && denied is Some),
        enabled <==> switched is AutoApprove,
        !enabled ==> switched is Prompt,
{
}

/// A reason names what it is about.
pub proof fn a_reason_names_its_cause(reason: &PolicyReason, words: String)
    requires
        call_ensures(PolicyReason::message, (reason,), words),
    ensures
        *reason matches PolicyReason::ToolNotEnabled(tool) ==> words@ == "tool is not enabled: "@
            + tool@,
        *reason is ShellNeedsApproval ==> words@ == "shell.exec requires explicit local approval"@,
        *reason == PolicyReason::EffectNeedsApproval(EffectClass::WorkspaceWrite) ==> words@
            == "workspace_write"@ + " requires approval"@,
        *reason == PolicyReason::EffectNeedsApproval(EffectClass::Network) ==> words@ == "network"@
            + " requires approval"@,
        *reason == PolicyReason::EffectNeedsApproval(EffectClass::ExternalSideEffect) ==> words@
            == "external_side_effect"@ + " requires approval"@,
        *reason == PolicyReason::EffectNeedsApproval(EffectClass::SecretAccess) ==> words@
            == "secret_access"@ + " requires approval"@,
{
}

/// A stamp tells when and where it was made; the next one has the next number, and another number.
pub proof fn stamps_are_numbered(
    before: IdCounter,
    after: IdCounter,
    millis: u128,
    process: u32,
    stamp: IdStamp,
)
    requires
        exists|x: &mut IdCounter|
            *x == before && *final(x) == after && #[trigger] call_ensures(
                IdCounter::stamp,
                (x, millis, process),
                stamp,
            ),
    ensures
        stamp.millis == millis && stamp.process == process,
        stamp.sequence == before.next,
        before.next < u64::MAX ==> after.next == before.next + 1,
        after.next != before.next,
{
}

/// The identifier of a run and that of a session are told apart by how they start, and both tell
/// their stamp.
pub proof fn an_identifier_tells_its_stamp(stamp: IdStamp, run_id: String, session_id: String)
    requires
        call_ensures(new_run_id, (stamp,), run_id),
        call_ensures(new_session_id, (stamp,), session_id),
    ensures
        ({
            let told = "_"@ + text::decimal(stamp.millis as nat) + "_"@ + text::decimal(
                stamp.process as nat,
            ) + "_"@ + text::decimal(stamp.sequence as nat);
            run_id@ == "run"@ + told && session_id@ == "session"@ + told
        }),
        run_id@ != session_id@,
{
    let told = "_"@ + text::decimal(stamp.millis as nat) + "_"@ + text::decimal(
        stamp.process as nat,
    ) + "_"@ + text::decimal(stamp.sequence as nat);
    reveal_strlit("run");
    reveal_strlit("session");
    assert(run_id@ =~= "run"@ + told);
    assert(session_id@ =~= "session"@ + told);
    assert(("run"@ + told)[0] == 'r' && ("session"@ + told)[0] == 's');
}

} // verus!
