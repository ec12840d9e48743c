//! What is said between the daemon and its clients.

pub use crate::error::ProtocolError;

use crate::app::model::RunOverrides;
use crate::text;
use crate::tool_catalog::EffectClass;
use vstd::prelude::*;

verus! {

pub const PROTOCOL_VERSION: u32 = 1;

pub const ERROR_DAEMON_SHUTTING_DOWN: &'static str = "daemon_shutting_down";

pub const ERROR_MALFORMED_REQUEST: &'static str = "malformed_request";

pub const ERROR_LAGGED: &'static str = "lagged";

pub const ERROR_INTERNAL: &'static str = "internal_error";

pub const ERROR_ISSUE_PREP_FAILED: &'static str = "issue_prep_failed";

pub const ERROR_NOT_FOUND: &'static str = "not_found";

pub const ERROR_OVERLOAD: &'static str = "overload";

pub const ERROR_RUN_FAILED: &'static str = "run_failed";

pub const ERROR_SESSIONS_LIST_FAILED: &'static str = "sessions_list_failed";

pub const ERROR_UNSUPPORTED_METHOD: &'static str = "unsupported_method";

pub const ERROR_UNSUPPORTED_VERSION: &'static str = "unsupported_version";

pub const ERROR_WORKSPACE_MISMATCH: &'static str = "workspace_mismatch";

/// Where a run stands.
#[derive(Clone, Copy, Debug, PartialEq, Eq, Structural)]
pub enum RunStateName {
    Running,
    Finished,
    Failed,
    Canceled,
    CancelRequested,
    Interrupted,
}

/// The name of a state on the wire.
pub open spec fn state_text(state: RunStateName) -> Seq<char> {
    match state {
        RunStateName::Running => "running"@,
        RunStateName::Finished => "finished"@,
        RunStateName::Failed => "failed"@,
        RunStateName::Canceled => "canceled"@,
        RunStateName::CancelRequested => "cancel_requested"@,
        RunStateName::Interrupted => "interrupted"@,
    }
}

/// Whether a run in this state may still do something.
pub open spec fn is_active(state: RunStateName) -> bool {
    state == RunStateName::Running || state == RunStateName::CancelRequested
}

impl RunStateName {
    pub fn as_str(self) -> (result: &'static str)
        ensures
            result@ == state_text(self),
    {
        match self {
            RunStateName::Running => "running",
            RunStateName::Finished => "finished",
            RunStateName::Failed => "failed",
            RunStateName::Canceled => "canceled",
            RunStateName::CancelRequested => "cancel_requested",
            RunStateName::Interrupted => "interrupted",
        }
    }

    /// Whether a run in this state may still do something.
    pub fn active(self) -> (result: bool)
        ensures
            result == is_active(self),
    {
        matches!(self, RunStateName::Running | RunStateName::CancelRequested)
    }
}

#[derive(Clone, Copy, Debug, PartialEq, Eq, Structural)]
pub enum EnvelopeKind {
    Request,
    Response,
    Event,
    Error,
}

/// One line of the protocol. The parameters and the result are JSON.
#[derive(Debug, PartialEq, Eq)]
pub struct Envelope {
    pub v: u32,
    pub id: Option<String>,
    pub kind: EnvelopeKind,
    pub method: Option<String>,
    pub params: Option<String>,
    pub result: Option<String>,
    pub error: Option<ProtocolError>,
}

/// Whether an envelope is an error with this code and message, in answer to a request.
pub open spec fn is_error(
    envelope: Envelope,
    id: Option<String>,
    method: Option<Seq<char>>,
    code: Seq<char>,
    message: Seq<char>,
) -> bool {
    &&& envelope.v == PROTOCOL_VERSION
    &&& envelope.id == id
    &&& envelope.kind == EnvelopeKind::Error
    &&& option_text(envelope.method) == method
    &&& envelope.params is None
    &&& envelope.result is None
    &&& envelope.error matches Some(error) && error.code@ == code && error.message@ == message
}

/// The text of an optional string.
pub open spec fn option_text(value: Option<String>) -> Option<Seq<char>> {
    match value {
        Some(s) => Some(s@),
        None => None,
    }
}

impl Envelope {
    /// An answer; `result` is JSON.
    pub fn response(id: Option<String>, method: Option<String>, result: String) -> (envelope: Self)
        ensures
            envelope == (Envelope {
                v: PROTOCOL_VERSION,
                id,
                kind: EnvelopeKind::Response,
                method,
                params: None,
                result: Some(result),
                error: None,
            }),
    {
        Envelope {
            v: PROTOCOL_VERSION,
            id,
            kind: EnvelopeKind::Response,
            method,
            params: None,
            result: Some(result),
            error: None,
        }
    }

    /// An answer that says what went wrong.
    pub fn error(id: Option<String>, method: Option<String>, code: &str, message: &str) -> (envelope:
        Self)
        ensures
            is_error(envelope, id, option_text(method), code@, message@),
            envelope.method == method,
    {
        Envelope {
            v: PROTOCOL_VERSION,
            id,
            kind: EnvelopeKind::Error,
            method,
            params: None,
            result: None,
            error: Some(ProtocolError { code: code.to_owned(), message: message.to_owned() }),
        }
    }
}

#[derive(Debug, PartialEq, Eq)]
pub struct HelloParams {
    pub workspace_root: String,
    pub workspace_id: String,
}

#[derive(Debug, PartialEq, Eq)]
pub struct HelloResult {
    pub daemon_version: String,
    pub workspace_id: String,
    pub ledger_path: String,
    pub capabilities: Vec<String>,
}

#[derive(Debug, PartialEq, Eq)]
pub struct RunStartParams {
    pub question: String,
    pub config_path: Option<String>,
    pub overrides: RunOverrides,
    pub wait: Option<bool>,
}

#[derive(Debug, PartialEq, Eq)]
pub struct RunStartResult {
    pub run_id: String,
    pub session_id: String,
    pub ledger_path: String,
    pub status: RunStateName,
    pub final_answer: Option<String>,
}

#[derive(Debug, PartialEq, Eq)]
pub struct MessageAppendParams {
    pub message: String,
    pub session_id: Option<String>,
    pub config_path: Option<String>,
    pub overrides: RunOverrides,
    pub wait: Option<bool>,
}

#[derive(Debug, PartialEq, Eq)]
pub struct IssuePrepStartParams {
    pub input: String,
    pub config_path: Option<String>,
}

#[derive(Debug, PartialEq, Eq)]
pub struct IssuePrepStartResult {
    pub run_dir: String,
    pub outcome: IssuePrepResult,
}

#[derive(Debug, PartialEq, Eq)]
pub enum IssuePrepResult {
    Candidate { markdown: String },
    Blocked { stage: String, reasons: Vec<String> },
}

#[derive(Debug, PartialEq, Eq)]
pub struct EventsStreamParams {
    pub run_id: String,
    pub from_offset: Option<u64>,
    pub limit: Option<usize>,
}

#[derive(Debug, PartialEq, Eq)]
pub struct EventsStreamResult {
    pub run_id: String,
    pub from_offset: u64,
    pub next_offset: u64,
    pub status: RunStateName,
    pub events: Vec<BufferedStreamEvent>,
}

/// What a run tells those who follow it. An entry of the ledger is JSON.
#[derive(Debug, PartialEq, Eq)]
pub enum StreamEvent {
    Ledger { record: String },
    AssistantDelta { run_id: String, turn_id: String, step: u32, delta_index: u64, text: String },
    ApprovalRequested {
        run_id: String,
        tool_call_id: String,
        tool_name: String,
        effect: EffectClass,
        reason: String,
        diff_preview: Option<String>,
        approval_preview: Option<String>,
    },
    Canceled { run_id: String },
}

impl Clone for StreamEvent {
    fn clone(&self) -> (result: Self)
        ensures
            result == *self,
    {
        match self {
            StreamEvent::Ledger { record } => StreamEvent::Ledger { record: record.clone() },
            StreamEvent::AssistantDelta { run_id, turn_id, step, delta_index, text } =>
                StreamEvent::AssistantDelta {
                run_id: run_id.clone(),
                turn_id: turn_id.clone(),
                step: *step,
                delta_index: *delta_index,
                text: text.clone(),
            },
            StreamEvent::ApprovalRequested {
                run_id,
                tool_call_id,
                tool_name,
                effect,
                reason,
                diff_preview,
                approval_preview,
            } => StreamEvent::ApprovalRequested {
                run_id: run_id.clone(),
                tool_call_id: tool_call_id.clone(),
                tool_name: tool_name.clone(),
                effect: *effect,
                reason: reason.clone(),
                diff_preview: diff_preview.clone(),
                approval_preview: approval_preview.clone(),
            },
            StreamEvent::Canceled { run_id } => StreamEvent::Canceled { run_id: run_id.clone() },
        }
    }
}

/// An event with its place among all events of its run.
#[derive(Debug, PartialEq, Eq)]
pub struct BufferedStreamEvent {
    pub offset: u64,
    pub event: StreamEvent,
}

impl Clone for BufferedStreamEvent {
    fn clone(&self) -> (result: Self)
        ensures
            result == *self,
    {
        BufferedStreamEvent { offset: self.offset, event: self.event.clone() }
    }
}

#[derive(Clone, Copy, Debug, PartialEq, Eq, Structural)]
pub enum ApprovalDecision {
    Grant,
    Deny,
}

#[derive(Debug, PartialEq, Eq)]
pub struct ApprovalDecideParams {
    pub run_id: String,
    pub tool_call_id: String,
    pub decision: ApprovalDecision,
    pub reason: Option<String>,
}

#[derive(Debug, PartialEq, Eq)]
pub struct RunCancelParams {
    pub run_id: String,
}

#[derive(Debug, PartialEq, Eq)]
pub struct CommandAcceptedResult {
    pub run_id: String,
    pub status: RunStateName,
}

#[derive(Clone, Copy, Debug, PartialEq, Eq, Structural)]
pub enum ShutdownIfIdleResultName {
    Shutdown,
    RefusedActive,
}

#[derive(Clone, Copy, Debug, PartialEq, Eq, Structural)]
pub struct ShutdownIfIdleResult {
    pub result: ShutdownIfIdleResultName,
}

#[derive(Debug, PartialEq, Eq)]
pub struct SessionsListResult {
    pub sessions: Vec<SessionSummary>,
}

#[derive(Debug, PartialEq, Eq)]
pub struct SessionSummary {
    pub session_id: String,
    pub run_id: String,
    pub status: RunStateName,
    pub latest_question: String,
    pub ledger_path: String,
}

#[derive(Debug, PartialEq, Eq)]
pub struct TranscriptReadParams {
    pub run_id: Option<String>,
    pub session_id: Option<String>,
}

#[derive(Debug, PartialEq, Eq)]
pub struct TranscriptReadResult {
    pub run_id: String,
    pub status: RunStateName,
    pub final_answer: Option<String>,
    pub transcript: String,
    pub typed: Option<TypedTranscript>,
    pub pending_approval: Option<PendingApprovalSnapshot>,
}

#[derive(Debug, PartialEq, Eq)]
pub struct PendingApprovalSnapshot {
    pub run_id: String,
    pub tool_call_id: String,
    pub tool_name: String,
    pub effect: EffectClass,
    pub reason: Option<String>,
    pub input_preview: Option<String>,
    pub approval_preview: Option<String>,
    pub diff_preview: Option<String>,
}

#[derive(Debug, PartialEq, Eq)]
pub struct TypedTranscript {
    pub runs: Vec<TypedRun>,
}

#[derive(Debug, PartialEq, Eq)]
pub struct TypedRun {
    pub run_id: String,
    pub session_index: u64,
    pub status: RunStateName,
    pub entries: Vec<TypedTranscriptEntry>,
}

#[derive(Clone, Copy, Debug, PartialEq, Eq, Structural)]
pub enum ApprovalDecisionName {
    Granted,
    Denied,
}

/// One thing that a reader of a run is told. The input of a tool is JSON.
#[derive(Debug, PartialEq, Eq)]
pub enum TypedTranscriptEntry {
    User { text: String },
    Assistant { text: String },
    ToolCall { call_id: String, tool: String, input: String },
    ToolResult { call_id: String, summary: String },
    Approval {
        call_id: String,
        decision: ApprovalDecisionName,
        actor_id: String,
        reason: Option<String>,
    },
    PolicyDenied { call_id: String, reason: String },
    ToolFailed { call_id: String, error: String },
}

/// Whether a request was taken as it was sent, or why it was not: the first fault decides.
pub open spec fn request_checked(
    parsed: Result<Envelope, String>,
    result: Result<Envelope, Envelope>,
) -> bool {
    match parsed {
        Err(error) => result matches Err(reply) && is_error(
            reply,
            None,
            None,
            ERROR_MALFORMED_REQUEST@,
            "request is not a valid protocol envelope: "@ + error@,
        ),
        Ok(envelope) => if envelope.v != PROTOCOL_VERSION {
            result matches Err(reply) && is_error(
                reply,
                envelope.id,
                option_text(envelope.method),
                ERROR_UNSUPPORTED_VERSION@,
                "unsupported protocol version: "@ + text::decimal(envelope.v as nat),
            )
        } else if envelope.kind != EnvelopeKind::Request {
            result matches Err(reply) && is_error(
                reply,
                envelope.id,
                option_text(envelope.method),
                ERROR_MALFORMED_REQUEST@,
                "envelope kind must be request"@,
            )
        } else if envelope.method is None {
            result matches Err(reply) && is_error(
                reply,
                envelope.id,
                None,
                ERROR_MALFORMED_REQUEST@,
                "request method is required"@,
            )
        } else {
            result == Ok::<Envelope, Envelope>(envelope)
        },
    }
}

/// Takes over a request, or answers it with what is wrong with it. `parsed` is what came of reading
/// the line as an envelope: the envelope, or the reader's complaint.
pub fn decode_request(parsed: Result<Envelope, String>) -> (result: Result<Envelope, Envelope>)
    ensures
        request_checked(parsed, result),
{
    let envelope = match parsed {
        Ok(envelope) => envelope,
        Err(error) => {
            let message = text::concat(
                "request is not a valid protocol envelope: ",
                error.as_str(),
            );
            return Err(
                Envelope::error(None, None, ERROR_MALFORMED_REQUEST, message.as_str()),
            );
        },
    };
    if envelope.v != PROTOCOL_VERSION {
        let version = text::to_decimal(envelope.v as u64);
        let message = text::concat("unsupported protocol version: ", version.as_str());
        return Err(
            Envelope::error(
                envelope.id,
                envelope.method,
                ERROR_UNSUPPORTED_VERSION,
                message.as_str(),
            ),
        );
    }
    if envelope.kind != EnvelopeKind::Request {
        return Err(
            Envelope::error(
                envelope.id,
                envelope.method,
                ERROR_MALFORMED_REQUEST,
                "envelope kind must be request",
            ),
        );
    }
    if envelope.method.is_none() {
        return Err(
            Envelope::error(
                envelope.id,
                None,
                ERROR_MALFORMED_REQUEST,
                "request method is required",
            ),
        );
    }
    Ok(envelope)
}

} // verus!
