use plato_agent::app::policy::{
    ApprovalMode, PolicyDecision, PolicyReason, ToolCall, evaluate_policy,
};
use plato_agent::tool_catalog::{
    EffectClass, SHELL_EXEC, default_enabled_tools, effect_for_tool,
};

fn call(tool: &str, effect: EffectClass, input: &str) -> ToolCall {
    ToolCall {
        step: 0,
        tool: tool.to_string(),
        effect,
        input: input.to_string(),
    }
}

fn required() -> PolicyDecision {
    PolicyDecision::RequireApproval {
        reason: PolicyReason::EffectNeedsApproval(EffectClass::WorkspaceWrite),
    }
}

fn granted(mode: ApprovalMode, call: &ToolCall, policy: &PolicyDecision) -> Option<String> {
    mode.auto_grant_actor(call, policy)
        .map(|actor| actor.as_str().to_string())
}

fn denied(mode: ApprovalMode, policy: &PolicyDecision) -> Option<String> {
    mode.deny_actor(policy)
        .map(|actor| actor.as_str().to_string())
}

fn deny_mode() -> ApprovalMode {
    ApprovalMode::Deny {
        actor: "daemon".to_string(),
    }
}

fn enabled(tool: &str) -> Vec<String> {
    vec![tool.to_string()]
}

const WRITE_INPUT: &str = r#"{"path": "out.txt", "content": "hello"}"#;

#[test]
fn yolo_auto_grants_required_approval() {
    let policy = required();
    let call = call("file.write", EffectClass::WorkspaceWrite, WRITE_INPUT);

    assert_eq!(
        granted(ApprovalMode::AutoApprove, &call, &policy).as_deref(),
        Some("yolo")
    );
    assert_eq!(granted(ApprovalMode::Prompt, &call, &policy), None);
    assert_eq!(granted(deny_mode(), &call, &policy), None);
}

#[test]
fn yolo_does_not_auto_grant_shell_exec() {
    let call = call(
        SHELL_EXEC,
        EffectClass::ExternalSideEffect,
        r#"{"command": "cargo test"}"#,
    );
    assert_eq!(granted(ApprovalMode::AutoApprove, &call, &required()), None);
}

#[test]
fn yolo_does_not_auto_grant_network_tools() {
    let call = call(
        "http.fetch",
        EffectClass::Network,
        r#"{"url": "https://example.com"}"#,
    );
    let policy = evaluate_policy(&enabled("http.fetch"), &call);

    assert!(matches!(policy, PolicyDecision::RequireApproval { .. }));
    assert_eq!(granted(ApprovalMode::AutoApprove, &call, &policy), None);
}

#[test]
fn yolo_does_not_auto_grant_secret_or_external_effects() {
    for effect in [EffectClass::ExternalSideEffect, EffectClass::SecretAccess] {
        let call = call("custom.effect", effect, "{}");
        assert_eq!(granted(ApprovalMode::AutoApprove, &call, &required()), None);
    }
}

#[test]
fn deny_mode_marks_required_approval_as_denied() {
    let policy = required();
    assert_eq!(denied(deny_mode(), &policy).as_deref(), Some("daemon"));
    assert_eq!(denied(ApprovalMode::Prompt, &policy), None);
}

#[test]
fn yolo_does_not_auto_grant_denials() {
    let policy = PolicyDecision::Deny {
        reason: PolicyReason::ToolNotEnabled("file.write".to_string()),
    };
    let call = call("file.write", EffectClass::WorkspaceWrite, WRITE_INPUT);
    assert_eq!(granted(ApprovalMode::AutoApprove, &call, &policy), None);
}

#[test]
fn disabled_tools_still_deny() {
    let call = call("file.write", EffectClass::WorkspaceWrite, WRITE_INPUT);
    assert!(matches!(
        evaluate_policy(&enabled("file.read"), &call),
        PolicyDecision::Deny { .. }
    ));
}

#[test]
fn enabled_file_read_is_allowed() {
    let call = call("file.read", EffectClass::ReadOnly, r#"{"path": "README.md"}"#);
    assert_eq!(
        evaluate_policy(&enabled("file.read"), &call),
        PolicyDecision::Allow
    );
}

#[test]
fn enabled_file_list_is_allowed() {
    let call = call("file.list", EffectClass::ReadOnly, r#"{"path": "."}"#);
    assert_eq!(
        evaluate_policy(&enabled("file.list"), &call),
        PolicyDecision::Allow
    );
}

#[test]
fn enabled_file_write_requires_approval() {
    let call = call("file.write", EffectClass::WorkspaceWrite, WRITE_INPUT);
    assert!(matches!(
        evaluate_policy(&enabled("file.write"), &call),
        PolicyDecision::RequireApproval { .. }
    ));
}

#[test]
fn enabled_file_edit_requires_approval() {
    let call = call("file.edit", EffectClass::WorkspaceWrite, WRITE_INPUT);
    assert!(matches!(
        evaluate_policy(&enabled("file.edit"), &call),
        PolicyDecision::RequireApproval { .. }
    ));
}

#[test]
fn enabled_shell_exec_requires_approval() {
    let call = call(
        SHELL_EXEC,
        EffectClass::ExternalSideEffect,
        r#"{"command": "cargo test"}"#,
    );
    assert!(matches!(
        evaluate_policy(&enabled(SHELL_EXEC), &call),
        PolicyDecision::RequireApproval { reason }
            if reason.message() == "shell.exec requires explicit local approval"
    ));
}

#[test]
fn disabled_shell_exec_denies() {
    let call = call(
        SHELL_EXEC,
        EffectClass::ExternalSideEffect,
        r#"{"command": "cargo test"}"#,
    );
    assert!(matches!(
        evaluate_policy(&enabled("file.read"), &call),
        PolicyDecision::Deny { reason } if reason.message() == "tool is not enabled: shell.exec"
    ));
}

#[test]
fn an_effect_that_needs_approval_says_so() {
    for (effect, words) in [
        (EffectClass::WorkspaceWrite, "workspace_write requires approval"),
        (EffectClass::Network, "network requires approval"),
        (
            EffectClass::ExternalSideEffect,
            "external_side_effect requires approval",
        ),
        (EffectClass::SecretAccess, "secret_access requires approval"),
    ] {
        match effect.default_policy() {
            PolicyDecision::RequireApproval { reason } => assert_eq!(reason.message(), words),
            other => panic!("{other:?}"),
        }
    }
    assert_eq!(
        EffectClass::ReadOnly.default_policy(),
        PolicyDecision::Allow
    );
}

#[test]
fn an_outside_actor_neither_grants_nor_denies_by_itself() {
    let call = call("file.write", EffectClass::WorkspaceWrite, WRITE_INPUT);
    assert_eq!(
        granted(ApprovalMode::external("daemon"), &call, &required()),
        None
    );
    assert_eq!(denied(ApprovalMode::external("daemon"), &required()), None);
    assert_eq!(ApprovalMode::from_yolo(true), ApprovalMode::AutoApprove);
    assert_eq!(ApprovalMode::from_yolo(false), ApprovalMode::Prompt);
}

#[test]
fn desktop_tools_require_approval_and_nothing_grants_it_unasked() {
    for tool in ["computer.windows", "computer.observe"] {
        assert!(!default_enabled_tools().iter().any(|enabled| enabled == tool));
        let call = call(tool, effect_for_tool(tool), "{}");
        let decision = evaluate_policy(&enabled(tool), &call);
        assert!(matches!(decision, PolicyDecision::RequireApproval { .. }));
        assert_eq!(granted(ApprovalMode::from_yolo(true), &call, &decision), None);
    }
}
