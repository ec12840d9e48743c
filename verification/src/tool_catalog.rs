//! The tools that the agent knows by name.

use crate::text;
use vstd::prelude::*;

verus! {

pub const FILE_READ: &'static str = "file.read";

pub const FILE_LIST: &'static str = "file.list";

pub const FILE_WRITE: &'static str = "file.write";

pub const FILE_EDIT: &'static str = "file.edit";

pub const SHELL_EXEC: &'static str = "shell.exec";

pub const WEB_FETCH: &'static str = "web.fetch";

pub const COMPUTER_WINDOWS: &'static str = "computer.windows";

pub const COMPUTER_OBSERVE: &'static str = "computer.observe";

/// The tools that are enabled where a configuration names none, in the order in which they are
/// offered.
pub open spec fn default_tools() -> Seq<Seq<char>> {
    seq![FILE_READ@, FILE_LIST@, FILE_WRITE@, FILE_EDIT@, SHELL_EXEC@, WEB_FETCH@]
}

/// The tools that look at the desktop.
pub open spec fn observes_desktop(tool: Seq<char>) -> bool {
    tool == COMPUTER_WINDOWS@ || tool == COMPUTER_OBSERVE@
}

/// The tools that a configuration can enable.
pub open spec fn known_tool(tool: Seq<char>) -> bool {
    default_tools().contains(tool) || observes_desktop(tool)
}

/// The texts of a list of strings.
pub open spec fn texts(list: Seq<String>) -> Seq<Seq<char>> {
    list.map_values(|s: String| s@)
}

/// The tools that are enabled where a configuration names none.
pub fn default_enabled_tools() -> (result: Vec<String>)
    ensures
        texts(result@) == default_tools(),
{
    let mut tools: Vec<String> = Vec::new();
    tools.push(FILE_READ.to_owned());
    tools.push(FILE_LIST.to_owned());
    tools.push(FILE_WRITE.to_owned());
    tools.push(FILE_EDIT.to_owned());
    tools.push(SHELL_EXEC.to_owned());
    tools.push(WEB_FETCH.to_owned());
    assert(texts(tools@) =~= default_tools());
    tools
}

/// The same names once more.
pub fn clone_names(names: &Vec<String>) -> (result: Vec<String>)
    ensures
        result@ == names@,
{
    let mut copy: Vec<String> = Vec::new();
    let mut i: usize = 0;
    while i < names.len()
        invariant
            i <= names.len(),
            copy@ == names@.take(i as int),
        decreases names.len() - i,
    {
        copy.push(names[i].clone());
        i = i + 1;
    }
    copy
}

/// Whether a tool looks at the desktop.
pub fn is_desktop_tool(tool: &str) -> (result: bool)
    ensures
        result == observes_desktop(tool@),
{
    text::same(tool, COMPUTER_WINDOWS) || text::same(tool, COMPUTER_OBSERVE)
}

/// Whether a configuration can enable the tool.
pub fn is_known_tool(tool: &str) -> (result: bool)
    ensures
        result == known_tool(tool@),
{
    let ghost d = default_tools();
    assert(d[0] == FILE_READ@ && d[1] == FILE_LIST@ && d[2] == FILE_WRITE@ && d[3] == FILE_EDIT@
        && d[4] == SHELL_EXEC@ && d[5] == WEB_FETCH@);
    text::same(tool, FILE_READ) || text::same(tool, FILE_LIST) || text::same(tool, FILE_WRITE)
        || text::same(tool, FILE_EDIT) || text::same(tool, SHELL_EXEC) || text::same(
        tool,
        WEB_FETCH,
    ) || is_desktop_tool(tool)
}

/// What a tool does to the world outside the conversation.
#[derive(Clone, Copy, Debug, PartialEq, Eq, Structural)]
pub enum EffectClass {
    ReadOnly,
    WorkspaceWrite,
    Network,
    ExternalSideEffect,
    SecretAccess,
}

/// The name of a kind of effect, as it is shown and stored.
pub open spec fn effect_name(effect: EffectClass) -> Seq<char> {
    match effect {
        EffectClass::ReadOnly => "read_only"@,
        EffectClass::WorkspaceWrite => "workspace_write"@,
        EffectClass::Network => "network"@,
        EffectClass::ExternalSideEffect => "external_side_effect"@,
        EffectClass::SecretAccess => "secret_access"@,
    }
}

impl EffectClass {
    /// The name of a kind of effect, as it is shown and stored.
    pub fn as_str(self) -> (result: &'static str)
        ensures
            result@ == effect_name(self),
    {
        match self {
            EffectClass::ReadOnly => "read_only",
            EffectClass::WorkspaceWrite => "workspace_write",
            EffectClass::Network => "network",
            EffectClass::ExternalSideEffect => "external_side_effect",
            EffectClass::SecretAccess => "secret_access",
        }
    }
}

/// What a tool does: the files are read or written, the web is fetched, and anything else reaches
/// outside.
pub open spec fn effect_of(tool: Seq<char>) -> EffectClass {
    if tool == FILE_READ@ || tool == FILE_LIST@ {
        EffectClass::ReadOnly
    } else if tool == FILE_WRITE@ || tool == FILE_EDIT@ {
        EffectClass::WorkspaceWrite
    } else if tool == WEB_FETCH@ {
        EffectClass::Network
    } else {
        EffectClass::ExternalSideEffect
    }
}

/// What a tool does.
pub fn effect_for_tool(tool: &str) -> (result: EffectClass)
    ensures
        result == effect_of(tool@),
{
    if text::same(tool, FILE_READ) || text::same(tool, FILE_LIST) {
        EffectClass::ReadOnly
    } else if text::same(tool, FILE_WRITE) || text::same(tool, FILE_EDIT) {
        EffectClass::WorkspaceWrite
    } else if text::same(tool, WEB_FETCH) {
        EffectClass::Network
    } else {
        EffectClass::ExternalSideEffect
    }
}

} // verus!
