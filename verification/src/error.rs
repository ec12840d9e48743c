//! What can go wrong, and how it is told.

use crate::text;
use vstd::prelude::*;

verus! {

/// An error that one side of the daemon protocol reports to the other.
#[derive(Clone, Debug, PartialEq, Eq)]
pub struct ProtocolError {
    pub code: String,
    pub message: String,
}

/// The kinds of input and output failure that the logic tells apart.
#[derive(Clone, Copy, Debug, PartialEq, Eq, Structural)]
pub enum IoKind {
    NotFound,
    UnexpectedEof,
    ConnectionRefused,
    ConnectionReset,
    ConnectionAborted,
    BrokenPipe,
    NotConnected,
    TimedOut,
    WouldBlock,
    Other,
}

#[derive(Clone, Debug, PartialEq, Eq)]
pub enum AppError {
    /// A configuration or a command line that cannot be used.
    Config(String),
    /// A question without any text in it.
    EmptyQuestion,
    /// The run was canceled.
    RunCanceled,
    /// The run ended without an answer.
    RunFailed(String),
    /// The model's service or another remote service failed.
    Provider(String),
    /// The model's service asked to be called again later: the number of seconds, as the bits of
    /// the binary64 number that it gave.
    ProviderCompletionRateLimited { retry_after_seconds: Option<u64> },
    /// What the other side of the daemon connection sent does not follow the protocol.
    DaemonProtocol(String),
    /// The daemon answered with an error.
    DaemonResponse(ProtocolError),
    /// Another process holds the lock.
    DaemonLockHeld { path: String, owner: String },
    /// The ledger holds no session.
    NoSqliteSessions,
    /// The ledger holds no run.
    NoSqliteRuns,
    RunNotFound(String),
    SessionNotFound(String),
    /// Input or output failed.
    Io { kind: IoKind, message: String },
    /// A text is not the JSON that it should be.
    Json(String),
    /// A text is not the TOML that it should be.
    Toml(String),
    /// The context of a request to the model is larger than its budget.
    ContextBudgetExceeded { used: u32, budget: u32 },
    /// Issue preparation came to a stop.
    IssuePrepBlocked { stage: String, reasons: String, run_dir: String },
    /// An identifier or a record was refused.
    Core(String),
}

/// An error in words.
pub open spec fn error_text(error: AppError) -> Seq<char> {
    match error {
        AppError::Config(message) => "config error: "@ + message@,
        AppError::EmptyQuestion => "question must not be empty"@,
        AppError::RunCanceled => "run did not finish: run canceled"@,
        AppError::RunFailed(reason) => "run did not finish: "@ + reason@,
        AppError::Provider(message) => "provider error: "@ + message@,
        AppError::ProviderCompletionRateLimited { .. } =>
            "provider completion POST returned http 429 before response body"@,
        AppError::DaemonProtocol(message) => "daemon protocol error: "@ + message@,
        AppError::DaemonResponse(error) => "daemon error "@ + error.code@ + ": "@ + error.message@,
        AppError::DaemonLockHeld { path, owner } => "daemon lock is held: "@ + path@ + " ("@
            + owner@ + ")"@,
        AppError::NoSqliteSessions => "no sessions in the ledger"@,
        AppError::NoSqliteRuns => "no runs in the ledger"@,
        AppError::RunNotFound(run_id) => "run not found: "@ + run_id@,
        AppError::SessionNotFound(session_id) => "session not found: "@ + session_id@,
        AppError::Io { message, .. } => message@,
        AppError::Json(message) => message@,
        AppError::Toml(message) => message@,
        AppError::ContextBudgetExceeded { used, budget } => "context budget exceeded: used "@
            + text::decimal(used as nat) + ", budget "@ + text::decimal(budget as nat),
        AppError::IssuePrepBlocked { stage, reasons, run_dir } => "issue prep blocked at "@ + stage@
            + ": "@ + reasons@ + " (run_dir: "@ + run_dir@ + ")"@,
        AppError::Core(message) => message@,
    }
}

impl AppError {
    /// The error in words.
    pub fn message(&self) -> (result: String)
        ensures
            result@ == error_text(*self),
    {
        match self {
            AppError::Config(message) => text::concat("config error: ", message.as_str()),
            AppError::EmptyQuestion => "question must not be empty".to_owned(),
            AppError::RunCanceled => "run did not finish: run canceled".to_owned(),
            AppError::RunFailed(reason) => text::concat("run did not finish: ", reason.as_str()),
            AppError::Provider(message) => text::concat("provider error: ", message.as_str()),
            AppError::ProviderCompletionRateLimited { .. } =>
                "provider completion POST returned http 429 before response body".to_owned(),
            AppError::DaemonProtocol(message) => text::concat(
                "daemon protocol error: ",
                message.as_str(),
            ),
            AppError::DaemonResponse(error) => {
                let mut out = text::concat3("daemon error ", error.code.as_str(), ": ");
                out.append(error.message.as_str());
                out
            },
            AppError::DaemonLockHeld { path, owner } => {
                let mut out = text::concat3("daemon lock is held: ", path.as_str(), " (");
                out.append(owner.as_str());
                out.append(")");
                out
            },
            AppError::NoSqliteSessions => "no sessions in the ledger".to_owned(),
            AppError::NoSqliteRuns => "no runs in the ledger".to_owned(),
            AppError::RunNotFound(run_id) => text::concat("run not found: ", run_id.as_str()),
            AppError::SessionNotFound(session_id) => text::concat(
                "session not found: ",
                session_id.as_str(),
            ),
            AppError::Io { message, .. } => message.clone(),
            AppError::Json(message) => message.clone(),
            AppError::Toml(message) => message.clone(),
            AppError::ContextBudgetExceeded { used, budget } => {
                let used_text = text::to_decimal(*used as u64);
                let budget_text = text::to_decimal(*budget as u64);
                let mut out = text::concat3(
                    "context budget exceeded: used ",
                    used_text.as_str(),
                    ", budget ",
                );
                out.append(budget_text.as_str());
                out
            },
            AppError::IssuePrepBlocked { stage, reasons, run_dir } => {
                let mut out = text::concat3("issue prep blocked at ", stage.as_str(), ": ");
                out.append(reasons.as_str());
                out.append(" (run_dir: ");
                out.append(run_dir.as_str());
                out.append(")");
                out
            },
            AppError::Core(message) => message.clone(),
        }
    }
}

/// Whether a result is the refusal of a configuration with this text.
pub open spec fn refused_with<T>(result: Result<T, AppError>, message: Seq<char>) -> bool {
    result matches Err(AppError::Config(found)) && found@ == message
}

/// Whether an error is the failure of a remote service with this text.
pub open spec fn is_provider_error(error: AppError, message: Seq<char>) -> bool {
    error matches AppError::Provider(found) && found@ == message
}

/// The failure of a remote service.
pub fn provider_error(message: &str) -> (result: AppError)
    ensures
        is_provider_error(result, message@),
{
    AppError::Provider(message.to_owned())
}

/// The refusal of a configuration.
pub fn config_error(message: &str) -> (result: AppError)
    ensures
        result matches AppError::Config(found) && found@ == message@,
{
    AppError::Config(message.to_owned())
}

} // verus!
