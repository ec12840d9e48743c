//! What the daemon answers to each request.

use crate::app::model::RunOverrides;
use crate::app::policy::ApprovalMode;
use crate::app::session::{self, RunEvent, RunLedger, RunOptions, RunOutcome, RunSession};
use crate::daemon::events;
use crate::daemon::protocol::{
    self, ApprovalDecideParams, BufferedStreamEvent, CommandAcceptedResult, Envelope,
    EventsStreamParams, EventsStreamResult, HelloParams, HelloResult, IssuePrepResult,
    IssuePrepStartParams, IssuePrepStartResult, RunCancelParams, RunStartResult, RunStateName,
    ShutdownIfIdleResult, ShutdownIfIdleResultName, StreamEvent, ERROR_DAEMON_SHUTTING_DOWN,
    ERROR_INTERNAL, ERROR_ISSUE_PREP_FAILED, ERROR_LAGGED, ERROR_MALFORMED_REQUEST,
    ERROR_NOT_FOUND, ERROR_OVERLOAD, ERROR_RUN_FAILED, ERROR_UNSUPPORTED_METHOD,
    ERROR_WORKSPACE_MISMATCH,
};
use crate::daemon::runtime::{
    self, CancelOutcome, DaemonRuntime, IssuePrepAdmissionError, RunAdmissionError, RunRecord,
    ShutdownIfIdleDecision,
};
use crate::error::AppError;
use crate::json::{self, JsonPart, JsonPartView};
use crate::{error, paths, text, tool_catalog};
use vstd::prelude::*;

verus! {

pub const DEFAULT_EVENT_LIMIT: usize = 64;

pub const MAX_EVENT_LIMIT: usize = 128;

pub const EVENT_COLLECTOR_PANIC: &'static str = "daemon event collector panicked";

/// The requests that the daemon understands.
#[derive(Clone, Copy, Debug, PartialEq, Eq, Structural)]
pub enum Method {
    Hello,
    RunStart,
    MessageAppend,
    IssuePrepStart,
    EventsStream,
    ApprovalDecide,
    RunCancel,
    SessionsList,
    ShutdownIfIdle,
    TranscriptRead,
}

/// The name of a request on the wire.
pub open spec fn method_text(method: Method) -> Seq<char> {
    match method {
        Method::Hello => "hello"@,
        Method::RunStart => "run.start"@,
        Method::MessageAppend => "message.append"@,
        Method::IssuePrepStart => "issue-prep.start"@,
        Method::EventsStream => "events.stream"@,
        Method::ApprovalDecide => "approval.decide"@,
        Method::RunCancel => "run.cancel"@,
        Method::SessionsList => "sessions.list"@,
        Method::ShutdownIfIdle => "daemon.shutdown_if_idle"@,
        Method::TranscriptRead => "transcript.read"@,
    }
}

impl Method {
    pub fn as_str(self) -> (result: &'static str)
        ensures
            result@ == method_text(self),
    {
        match self {
            Method::Hello => "hello",
            Method::RunStart => "run.start",
            Method::MessageAppend => "message.append",
            Method::IssuePrepStart => "issue-prep.start",
            Method::EventsStream => "events.stream",
            Method::ApprovalDecide => "approval.decide",
            Method::RunCancel => "run.cancel",
            Method::SessionsList => "sessions.list",
            Method::ShutdownIfIdle => "daemon.shutdown_if_idle",
            Method::TranscriptRead => "transcript.read",
        }
    }
}

/// The request of a name.
pub open spec fn method_named(name: Seq<char>) -> Option<Method> {
    if name == "hello"@ {
        Some(Method::Hello)
    } else if name == "run.start"@ {
        Some(Method::RunStart)
    } else if name == "message.append"@ {
        Some(Method::MessageAppend)
    } else if name == "issue-prep.start"@ {
        Some(Method::IssuePrepStart)
    } else if name == "events.stream"@ {
        Some(Method::EventsStream)
    } else if name == "approval.decide"@ {
        Some(Method::ApprovalDecide)
    } else if name == "run.cancel"@ {
        Some(Method::RunCancel)
    } else if name == "sessions.list"@ {
        Some(Method::SessionsList)
    } else if name == "daemon.shutdown_if_idle"@ {
        Some(Method::ShutdownIfIdle)
    } else if name == "transcript.read"@ {
        Some(Method::TranscriptRead)
    } else {
        None
    }
}

fn find_method(name: &str) -> (result: Option<Method>)
    ensures
        result == method_named(name@),
{
    if text::same(name, "hello") {
        Some(Method::Hello)
    } else if text::same(name, "run.start") {
        Some(Method::RunStart)
    } else if text::same(name, "message.append") {
        Some(Method::MessageAppend)
    } else if text::same(name, "issue-prep.start") {
        Some(Method::IssuePrepStart)
    } else if text::same(name, "events.stream") {
        Some(Method::EventsStream)
    } else if text::same(name, "approval.decide") {
        Some(Method::ApprovalDecide)
    } else if text::same(name, "run.cancel") {
        Some(Method::RunCancel)
    } else if text::same(name, "sessions.list") {
        Some(Method::SessionsList)
    } else if text::same(name, "daemon.shutdown_if_idle") {
        Some(Method::ShutdownIfIdle)
    } else if text::same(name, "transcript.read") {
        Some(Method::TranscriptRead)
    } else {
        None
    }
}

/// The request that an envelope makes, or the answer to one that the daemon does not understand.
pub fn handle_request(id: Option<String>, method: Option<String>) -> (result: Result<
    Method,
    Envelope,
>)
    ensures
        match method {
            None => result matches Err(reply) && protocol::is_error(
                reply,
                id,
                None,
                ERROR_MALFORMED_REQUEST@,
                "request method is required"@,
            ),
            Some(name) => match method_named(name@) {
                Some(known) => result == Ok::<Method, Envelope>(known),
                None => result matches Err(reply) && protocol::is_error(
                    reply,
                    id,
                    Some(name@),
                    ERROR_UNSUPPORTED_METHOD@,
                    "unsupported method: "@ + name@,
                ),
            },
        },
{
    match method {
        Some(name) => match find_method(name.as_str()) {
            Some(known) => Ok(known),
            None => {
                let message = text::concat("unsupported method: ", name.as_str());
                Err(Envelope::error(id, Some(name), ERROR_UNSUPPORTED_METHOD, message.as_str()))
            },
        },
        None => Err(
            Envelope::error(id, None, ERROR_MALFORMED_REQUEST, "request method is required"),
        ),
    }
}

/// Every request that the daemon understands is found under its own name.
pub proof fn every_method_is_reached(method: Method)
    ensures
        method_named(method_text(method)) == Some(method),
{
    reveal_strlit("hello");
    reveal_strlit("run.start");
    reveal_strlit("message.append");
    reveal_strlit("issue-prep.start");
    reveal_strlit("events.stream");
    reveal_strlit("approval.decide");
    reveal_strlit("run.cancel");
    reveal_strlit("sessions.list");
    reveal_strlit("daemon.shutdown_if_idle");
    reveal_strlit("transcript.read");
    assert("hello"@.len() == 5 && "run.start"@.len() == 9 && "message.append"@.len() == 14
        && "issue-prep.start"@.len() == 16 && "events.stream"@.len() == 13 && "sessions.list"@[0]
        == 's' && "events.stream"@[0] == 'e' && "approval.decide"@[0] == 'a' && "transcript.read"@[0]
        == 't' && "run.cancel"@.len() == 10 && "sessions.list"@.len() == 13
        && "daemon.shutdown_if_idle"@.len() == 23 && "transcript.read"@.len() == 15
        && "approval.decide"@.len() == 15);
}

/// The parameters of a request, or the answer to one that lacks them. `parsed` is what came of
/// reading them: nothing where there were none, else the parameters or the reader's complaint.
pub fn handle_with_params<T>(
    id: Option<String>,
    method: Method,
    parsed: Option<Result<T, String>>,
) -> (result: Result<T, Envelope>)
    ensures
        match parsed {
            Some(Ok(params)) => result == Ok::<T, Envelope>(params),
            Some(Err(error)) => result matches Err(reply) && protocol::is_error(
                reply,
                id,
                Some(method_text(method)),
                ERROR_MALFORMED_REQUEST@,
                method_text(method) + " params are invalid: "@ + error@,
            ),
            None => result matches Err(reply) && protocol::is_error(
                reply,
                id,
                Some(method_text(method)),
                ERROR_MALFORMED_REQUEST@,
                method_text(method) + " params are required"@,
            ),
        },
{
    match parsed {
        Some(Ok(params)) => Ok(params),
        Some(Err(error)) => {
            let message = text::concat3(
                method.as_str(),
                " params are invalid: ",
                error.as_str(),
            );
            Err(refusal(id, method, ERROR_MALFORMED_REQUEST, message.as_str()))
        },
        None => {
            let message = text::concat(method.as_str(), " params are required");
            Err(refusal(id, method, ERROR_MALFORMED_REQUEST, message.as_str()))
        },
    }
}

/// An answer that says what went wrong.
fn refusal(id: Option<String>, method: Method, code: &str, message: &str) -> (result: Envelope)
    ensures
        protocol::is_error(result, id, Some(method_text(method)), code@, message@),
{
    Envelope::error(id, Some(method.as_str().to_owned()), code, message)
}

/// The answer of a daemon that is shutting down.
pub fn shutting_down_response(id: Option<String>, method: Method) -> (result: Envelope)
    ensures
        is_shutting_down(result, id, method),
{
    refusal(
        id,
        method,
        ERROR_DAEMON_SHUTTING_DOWN,
        "daemon shutdown is already in progress",
    )
}

/// Whether an envelope is the answer of a daemon that is shutting down.
pub open spec fn is_shutting_down(envelope: Envelope, id: Option<String>, method: Method) -> bool {
    protocol::is_error(
        envelope,
        id,
        Some(method_text(method)),
        ERROR_DAEMON_SHUTTING_DOWN@,
        "daemon shutdown is already in progress"@,
    )
}

/// The answer to a request that names something that does not exist.
pub fn error_response(id: Option<String>, method: Method, message: &str) -> (result: Envelope)
    ensures
        protocol::is_error(
            result,
            id,
            Some(method_text(method)),
            ERROR_NOT_FOUND@,
            message@,
        ),
{
    refusal(id, method, ERROR_NOT_FOUND, message)
}

/// The names of the requests that the daemon understands.
pub open spec fn capability_texts() -> Seq<Seq<char>> {
    seq![
        method_text(Method::Hello),
        method_text(Method::RunStart),
        method_text(Method::MessageAppend),
        method_text(Method::IssuePrepStart),
        method_text(Method::EventsStream),
        method_text(Method::ApprovalDecide),
        method_text(Method::RunCancel),
        method_text(Method::SessionsList),
        method_text(Method::ShutdownIfIdle),
        method_text(Method::TranscriptRead),
    ]
}

/// The names of the requests that the daemon understands.
pub fn capabilities() -> (result: Vec<String>)
    ensures
        tool_catalog::texts(result@) == capability_texts(),
{
    let mut list: Vec<String> = Vec::new();
    list.push(Method::Hello.as_str().to_owned());
    list.push(Method::RunStart.as_str().to_owned());
    list.push(Method::MessageAppend.as_str().to_owned());
    list.push(Method::IssuePrepStart.as_str().to_owned());
    list.push(Method::EventsStream.as_str().to_owned());
    list.push(Method::ApprovalDecide.as_str().to_owned());
    list.push(Method::RunCancel.as_str().to_owned());
    list.push(Method::SessionsList.as_str().to_owned());
    list.push(Method::ShutdownIfIdle.as_str().to_owned());
    list.push(Method::TranscriptRead.as_str().to_owned());
    assert(tool_catalog::texts(list@) =~= capability_texts());
    list
}

/// What is wrong with a greeting, if anything is. `resolved_root` is what came of resolving the
/// client's workspace.
pub open spec fn hello_error(
    runtime: DaemonRuntime,
    params: HelloParams,
    resolved_root: Result<String, String>,
) -> Option<Seq<char>> {
    if params.workspace_id@ != runtime.paths.workspace_id@ {
        Some(
            "workspace_id mismatch: expected "@ + runtime.paths.workspace_id@ + ", got "@
                + params.workspace_id@,
        )
    } else {
        match resolved_root {
            Ok(root) => if root@ == runtime.paths.workspace_root@ {
                None
            } else {
                Some(
                    "workspace_root mismatch: expected "@ + runtime.paths.workspace_root@
                        + ", got "@ + root@,
                )
            },
            Err(error) => Some("workspace_root cannot be resolved: "@ + error@),
        }
    }
}

fn mismatch(what: &str, expected: &str, found: &str) -> (result: String)
    ensures
        result@ == what@ + expected@ + ", got "@ + found@,
{
    let mut out = text::concat3(what, expected, ", got ");
    out.append(found);
    out
}

/// Greets a client of the daemon's own workspace.
pub fn handle_hello(
    runtime: &DaemonRuntime,
    id: Option<String>,
    params: HelloParams,
    resolved_root: Result<String, String>,
    daemon_version: String,
) -> (result: Result<HelloResult, Envelope>)
    ensures
        match hello_error(*runtime, params, resolved_root) {
            Some(message) => result matches Err(reply) && protocol::is_error(
                reply,
                id,
                Some("hello"@),
                ERROR_WORKSPACE_MISMATCH@,
                message,
            ),
            None => result matches Ok(greeting) && {
                &&& greeting.daemon_version == daemon_version
                &&& greeting.workspace_id == runtime.paths.workspace_id
                &&& greeting.ledger_path == runtime.paths.ledger_path
                &&& tool_catalog::texts(greeting.capabilities@) == capability_texts()
            },
        },
{
    if !text::same(params.workspace_id.as_str(), runtime.paths.workspace_id.as_str()) {
        let message = mismatch(
            "workspace_id mismatch: expected ",
            runtime.paths.workspace_id.as_str(),
            params.workspace_id.as_str(),
        );
        return Err(refusal(id, Method::Hello, ERROR_WORKSPACE_MISMATCH, message.as_str()));
    }
    match resolved_root {
        Ok(root) => {
            if !text::same(root.as_str(), runtime.paths.workspace_root.as_str()) {
                let message = mismatch(
                    "workspace_root mismatch: expected ",
                    runtime.paths.workspace_root.as_str(),
                    root.as_str(),
                );
                return Err(
                    refusal(id, Method::Hello, ERROR_WORKSPACE_MISMATCH, message.as_str()),
                );
            }
        },
        Err(error) => {
            let message = text::concat("workspace_root cannot be resolved: ", error.as_str());
            return Err(refusal(id, Method::Hello, ERROR_WORKSPACE_MISMATCH, message.as_str()));
        },
    }
    Ok(
        HelloResult {
            daemon_version,
            workspace_id: runtime.paths.workspace_id.clone(),
            ledger_path: runtime.paths.ledger_path.clone(),
            capabilities: capabilities(),
        },
    )
}

/// The session that a message is appended to, or the answer where there is none: the one that is
/// named, or else the latest. `latest` is what came of looking that up.
pub fn handle_message_append(
    runtime: &DaemonRuntime,
    id: Option<String>,
    session_id: Option<String>,
    latest: Result<String, AppError>,
) -> (result: Result<String, Envelope>)
    ensures
        if runtime.shutdown_accepted {
            result matches Err(reply) && is_shutting_down(reply, id, Method::MessageAppend)
        } else {
            match (session_id, latest) {
                (Some(session_id), _) => result == Ok::<String, Envelope>(session_id),
                (None, Ok(session_id)) => result == Ok::<String, Envelope>(session_id),
                (None, Err(error)) => result matches Err(reply) && protocol::is_error(
                    reply,
                    id,
                    Some("message.append"@),
                    ERROR_NOT_FOUND@,
                    if error is NoSqliteSessions || error is NoSqliteRuns {
                        "no previous session exists"@
                    } else {
                        error::error_text(error)
                    },
                ),
            }
        },
{
    if runtime.shutdown_accepted {
        return Err(shutting_down_response(id, Method::MessageAppend));
    }
    if let Some(session_id) = session_id {
        return Ok(session_id);
    }
    match latest {
        Ok(session_id) => Ok(session_id),
        Err(error) => {
            let message = match &error {
                AppError::NoSqliteSessions => "no previous session exists".to_owned(),
                AppError::NoSqliteRuns => "no previous session exists".to_owned(),
                _ => error.message(),
            };
            Err(error_response(id, Method::MessageAppend, message.as_str()))
        },
    }
}

/// The request that starts a run in a session.
pub open spec fn start_method(session: RunSession) -> Method {
    match session {
        RunSession::Fresh { .. } => Method::RunStart,
        RunSession::Continue { .. } => Method::MessageAppend,
    }
}

/// Whether a run was set up as it was asked for: in the daemon's ledger and workspace, with the
/// daemon deciding on its calls.
pub open spec fn is_setup(
    options: RunOptions,
    runtime: DaemonRuntime,
    run_id: String,
    question: String,
    session: RunSession,
    config_path: Option<String>,
    overrides: RunOverrides,
) -> bool {
    &&& options.question == question
    &&& options.config_path == config_path
    &&& options.overrides == overrides
    &&& options.ledger == RunLedger::DefaultSqlite(runtime.paths.ledger_path)
    &&& options.workspace_root == runtime.paths.workspace_root
    &&& options.approval_mode matches ApprovalMode::External { actor } && actor@ == "daemon"@
    &&& options.run_id == Some(run_id)
    &&& options.session == Some(session)
    &&& !options.stream_to_stderr
}

/// Whether a run is fresh: on its way, with nothing asked of it and nothing told of it yet.
pub open spec fn is_fresh(record: RunRecord, run_id: String, session_id: Seq<char>) -> bool {
    &&& record.well_formed()
    &&& record.run_id == run_id
    &&& record.session_id@ == session_id
    &&& !record.cancel
    &&& record.status == (runtime::RunStatus {
        state: RunStateName::Running,
        final_answer: None,
        error: None,
    })
    &&& record.events@ == events::window_of(Seq::empty())
    &&& record.approvals@.len() == 0
}

/// Admits a run and sets it up, or answers why not. The identifier is a new one.
pub fn start_run(
    runtime: &mut DaemonRuntime,
    id: Option<String>,
    run_id: String,
    question: String,
    session: RunSession,
    config_path: Option<String>,
    overrides: RunOverrides,
) -> (result: Result<RunOptions, Envelope>)
    requires
        old(runtime).well_formed(),
        runtime::run_refusal(*old(runtime), session::session_text(session)) is None
            ==> !runtime::has_run(old(runtime).runs@, run_id@),
    ensures
        final(runtime).well_formed(),
        ({
            let session_id = session::session_text(session);
            let i = runtime::active_index(old(runtime).runs@, session_id);
            if old(runtime).shutdown_accepted {
                &&& result matches Err(reply) && is_shutting_down(reply, id, start_method(session))
                &&& *final(runtime) == *old(runtime)
            } else if i < old(runtime).runs@.len() {
                &&& result matches Err(reply) && protocol::is_error(
                    reply,
                    id,
                    Some(method_text(start_method(session))),
                    ERROR_OVERLOAD@,
                    "session already has an active run: "@ + session_id + " ("@ + old(
                        runtime,
                    ).runs@[i].run_id@ + ")"@,
                )
                &&& *final(runtime) == *old(runtime)
            } else {
                &&& result matches Ok(options) && is_setup(
                    options,
                    *old(runtime),
                    run_id,
                    question,
                    session,
                    config_path,
                    overrides,
                )
                &&& *final(runtime) == (DaemonRuntime {
                    runs: final(runtime).runs,
                    ..*old(runtime)
                })
                &&& final(runtime).runs@.len() == old(runtime).runs@.len() + 1
                &&& final(runtime).runs@.drop_last() == old(runtime).runs@
                &&& is_fresh(final(runtime).runs@.last(), run_id, session_id)
                &&& final(runtime).runs@.last().ledger_path == old(runtime).paths.ledger_path
            }
        }),
{
    let method = match &session {
        RunSession::Fresh { .. } => Method::RunStart,
        RunSession::Continue { .. } => Method::MessageAppend,
    };
    let session_id = session.session_id().to_owned();
    let record = RunRecord::new(
        run_id.clone(),
        session_id.clone(),
        runtime.paths.ledger_path.clone(),
    );
    match runtime.reserve_run(record) {
        Ok(()) => {},
        Err(RunAdmissionError::ShuttingDown) => {
            return Err(shutting_down_response(id, method));
        },
        Err(RunAdmissionError::SessionActive { run_id: active }) => {
            let mut message = text::concat3(
                "session already has an active run: ",
                session_id.as_str(),
                " (",
            );
            message.append(active.as_str());
            message.append(")");
            return Err(refusal(id, method, ERROR_OVERLOAD, message.as_str()));
        },
    }
    assert(runtime.runs@.drop_last() =~= old(runtime).runs@);
    Ok(
        RunOptions {
            question,
            config_path,
            overrides,
            ledger: RunLedger::DefaultSqlite(runtime.paths.ledger_path.clone()),
            workspace_root: runtime.paths.workspace_root.clone(),
            approval_mode: ApprovalMode::external("daemon"),
            run_id: Some(run_id),
            session: Some(session),
            stream_to_stderr: false,
        },
    )
}

/// What a client is told of a run that it started.
pub open spec fn start_result(record: RunRecord) -> RunStartResult {
    RunStartResult {
        run_id: record.run_id,
        session_id: record.session_id,
        ledger_path: record.ledger_path,
        status: record.status.state,
        final_answer: record.status.final_answer,
    }
}

/// What a client is told of a run that it started.
pub fn run_start_response(record: &RunRecord) -> (result: RunStartResult)
    ensures
        result == start_result(*record),
{
    RunStartResult {
        run_id: record.run_id.clone(),
        session_id: record.session_id.clone(),
        ledger_path: record.ledger_path.clone(),
        status: record.status.state,
        final_answer: record.status.final_answer.clone(),
    }
}

/// What the client that waited for a run is told where it failed.
pub fn run_failed_response(id: Option<String>, session: &RunSession, error: &AppError) -> (result:
    Envelope)
    ensures
        protocol::is_error(
            result,
            id,
            Some(method_text(start_method(*session))),
            ERROR_RUN_FAILED@,
            error::error_text(*error),
        ),
{
    let method = match session {
        RunSession::Fresh { .. } => Method::RunStart,
        RunSession::Continue { .. } => Method::MessageAppend,
    };
    let message = error.message();
    refusal(id, method, ERROR_RUN_FAILED, message.as_str())
}

/// What a client that started a run is told of it by now. A client that asked to wait is told
/// nothing before the run has an outcome, and then how the run stands or why it failed; any other
/// is told how the run stands, whatever comes of it.
pub fn answer_start(
    wait: Option<bool>,
    id: Option<String>,
    session: &RunSession,
    record: &RunRecord,
    outcome: Option<&Result<RunOutcome, AppError>>,
) -> (result: Option<Result<RunStartResult, Envelope>>)
    ensures
        if wait != Some(true) {
            result == Some(Ok::<RunStartResult, Envelope>(start_result(*record)))
        } else {
            match outcome {
                None => result is None,
                Some(Ok(_)) => result == Some(
                    Ok::<RunStartResult, Envelope>(start_result(*record)),
                ),
                Some(Err(error)) => result matches Some(Err(reply)) && protocol::is_error(
                    reply,
                    id,
                    Some(method_text(start_method(*session))),
                    ERROR_RUN_FAILED@,
                    error::error_text(*error),
                ),
            }
        },
{
    if wait.unwrap_or(false) {
        match outcome {
            None => None,
            Some(Ok(_)) => Some(Ok(run_start_response(record))),
            Some(Err(error)) => Some(Err(run_failed_response(id, session, error))),
        }
    } else {
        Some(Ok(run_start_response(record)))
    }
}

/// Ends a run once all of its events were collected. A collector that broke down makes the run a
/// failed one, whatever its outcome was.
pub fn finish_run_after_event_collection(
    runtime: &mut DaemonRuntime,
    run_id: &str,
    outcome: Result<RunOutcome, AppError>,
    collected: bool,
) -> (result: Result<RunOutcome, AppError>)
    requires
        old(runtime).well_formed(),
        runtime::has_run(old(runtime).runs@, run_id@),
        !runtime::remembers_end(old(runtime).terminal_runs@, run_id@),
    ensures
        final(runtime).well_formed(),
        if collected {
            result == outcome
        } else {
            result matches Err(AppError::RunFailed(words)) && words@ == EVENT_COLLECTOR_PANIC@
        },
        result is Ok ==> runtime::completes(
            *old(runtime),
            *final(runtime),
            run_id@,
            runtime::RunStatus {
                state: RunStateName::Finished,
                final_answer: Some(result->Ok_0.final_answer),
                error: None,
            },
        ),
        result is Err ==> runtime::fails(
            *old(runtime),
            *final(runtime),
            run_id@,
            result->Err_0,
        ),
{
    let outcome = if collected {
        outcome
    } else {
        Err(AppError::RunFailed(EVENT_COLLECTOR_PANIC.to_owned()))
    };
    match &outcome {
        Ok(done) => runtime.finish_run(run_id, done.final_answer.clone()),
        Err(error) => runtime.finish_run_with_error(run_id, error),
    }
    outcome
}

/// What issue preparation is given to work with.
#[derive(Debug, PartialEq, Eq)]
pub struct IssuePrepOptions {
    pub workspace_root: String,
    pub config_path: Option<String>,
    pub run_dir: String,
    pub input: String,
}

/// Where issue preparation keeps its files.
pub open spec fn issue_prep_dir(workspace_root: Seq<char>, run_id: Seq<char>) -> Seq<char> {
    paths::joined(
        paths::joined(paths::joined(workspace_root, ".plato"@), "issue-prep"@),
        run_id,
    )
}

/// Admits issue preparation and sets it up, or answers why not.
pub fn handle_issue_prep_start(
    runtime: &mut DaemonRuntime,
    id: Option<String>,
    params: IssuePrepStartParams,
    run_id: String,
) -> (result: Result<IssuePrepOptions, Envelope>)
    requires
        old(runtime).well_formed(),
    ensures
        final(runtime).well_formed(),
        if old(runtime).shutdown_accepted {
            &&& result matches Err(reply) && is_shutting_down(reply, id, Method::IssuePrepStart)
            &&& *final(runtime) == *old(runtime)
        } else if old(runtime).issue_prep_active {
            &&& result matches Err(reply) && protocol::is_error(
                reply,
                id,
                Some("issue-prep.start"@),
                ERROR_OVERLOAD@,
                "issue prep is already active"@,
            )
            &&& *final(runtime) == *old(runtime)
        } else {
            &&& result matches Ok(options) && {
                &&& options.workspace_root == old(runtime).paths.workspace_root
                &&& options.config_path == params.config_path
                &&& options.run_dir@ == issue_prep_dir(
                    old(runtime).paths.workspace_root@,
                    run_id@,
                )
                &&& options.input == params.input
            }
            &&& *final(runtime) == (DaemonRuntime { issue_prep_active: true, ..*old(runtime) })
        },
{
    match runtime.reserve_issue_prep() {
        Ok(()) => {},
        Err(IssuePrepAdmissionError::ShuttingDown) => {
            return Err(shutting_down_response(id, Method::IssuePrepStart));
        },
        Err(IssuePrepAdmissionError::Active) => {
            return Err(
                refusal(
                    id,
                    Method::IssuePrepStart,
                    ERROR_OVERLOAD,
                    "issue prep is already active",
                ),
            );
        },
    }
    let plato = paths::join(runtime.paths.workspace_root.as_str(), ".plato");
    let all = paths::join(plato.as_str(), "issue-prep");
    let run_dir = paths::join(all.as_str(), run_id.as_str());
    Ok(
        IssuePrepOptions {
            workspace_root: runtime.paths.workspace_root.clone(),
            config_path: params.config_path,
            run_dir,
            input: params.input,
        },
    )
}

/// Ends issue preparation and answers with what came of it, whether it succeeded or not.
pub fn finish_issue_prep(
    runtime: &mut DaemonRuntime,
    id: Option<String>,
    run_dir: String,
    outcome: Result<IssuePrepResult, AppError>,
) -> (result: Result<IssuePrepStartResult, Envelope>)
    requires
        old(runtime).well_formed(),
    ensures
        final(runtime).well_formed(),
        *final(runtime) == (DaemonRuntime { issue_prep_active: false, ..*old(runtime) }),
        match outcome {
            Ok(outcome) => result == Ok::<IssuePrepStartResult, Envelope>(
                IssuePrepStartResult { run_dir, outcome },
            ),
            Err(error) => result matches Err(reply) && protocol::is_error(
                reply,
                id,
                Some("issue-prep.start"@),
                ERROR_ISSUE_PREP_FAILED@,
                error::error_text(error) + "; run directory: "@ + run_dir@,
            ),
        },
{
    runtime.release_issue_prep();
    match outcome {
        Ok(outcome) => Ok(IssuePrepStartResult { run_dir, outcome }),
        Err(error) => {
            let words = error.message();
            let message = text::concat3(words.as_str(), "; run directory: ", run_dir.as_str());
            Err(refusal(id, Method::IssuePrepStart, ERROR_ISSUE_PREP_FAILED, message.as_str()))
        },
    }
}

/// Whether the parameters of a request to shut down are as they must be: absent, or an empty
/// object.
pub open spec fn shutdown_params_ok(params: Option<JsonPartView>) -> bool {
    match params {
        None => true,
        Some(JsonPartView::Object { is_empty }) => is_empty,
        Some(_) => false,
    }
}

/// Shuts the daemon down, unless something is on its way; `params_ok` says whether the parameters
/// are as they must be.
pub fn decide_shutdown(
    runtime: &mut DaemonRuntime,
    id: Option<String>,
    method: Option<String>,
    params_ok: bool,
) -> (result: Result<ShutdownIfIdleResult, Envelope>)
    requires
        old(runtime).well_formed(),
    ensures
        final(runtime).well_formed(),
        shutdown_decided(*old(runtime), *final(runtime), id, method, params_ok, result),
{
    if !params_ok {
        return Err(
            Envelope::error(
                id,
                method,
                ERROR_MALFORMED_REQUEST,
                "daemon.shutdown_if_idle params must be omitted or an empty object",
            ),
        );
    }
    match runtime.shutdown_if_idle() {
        ShutdownIfIdleDecision::Shutdown => Ok(
            ShutdownIfIdleResult { result: ShutdownIfIdleResultName::Shutdown },
        ),
        ShutdownIfIdleDecision::RefusedActive => Ok(
            ShutdownIfIdleResult { result: ShutdownIfIdleResultName::RefusedActive },
        ),
        ShutdownIfIdleDecision::AlreadyShuttingDown => Err(
            shutting_down_response(id, Method::ShutdownIfIdle),
        ),
    }
}

/// What comes of a request to shut down.
pub open spec fn shutdown_decided(
    before: DaemonRuntime,
    after: DaemonRuntime,
    id: Option<String>,
    method: Option<String>,
    params_ok: bool,
    result: Result<ShutdownIfIdleResult, Envelope>,
) -> bool {
    if !params_ok {
        &&& after == before
        &&& result matches Err(reply) && protocol::is_error(
            reply,
            id,
            protocol::option_text(method),
            ERROR_MALFORMED_REQUEST@,
            "daemon.shutdown_if_idle params must be omitted or an empty object"@,
        )
    } else if before.shutdown_accepted {
        &&& after == before
        &&& result matches Err(reply) && is_shutting_down(reply, id, Method::ShutdownIfIdle)
    } else if before.issue_prep_active || runtime::any_active(before.runs@) {
        &&& after == before
        &&& result == Ok::<ShutdownIfIdleResult, Envelope>(
            ShutdownIfIdleResult { result: ShutdownIfIdleResultName::RefusedActive },
        )
    } else {
        &&& after == (DaemonRuntime { shutdown_accepted: true, ..before })
        &&& result == Ok::<ShutdownIfIdleResult, Envelope>(
            ShutdownIfIdleResult { result: ShutdownIfIdleResultName::Shutdown },
        )
    }
}

/// Whether the parameters of a request to shut down are as they must be.
pub fn empty_params(params: &Option<JsonPart>) -> (result: bool)
    ensures
        result == shutdown_params_ok(
            match params {
                Some(part) => Some(part@),
                None => None,
            },
        ),
{
    match params {
        None => true,
        Some(JsonPart::Object { is_empty }) => *is_empty,
        Some(_) => false,
    }
}

/// Shuts the daemon down, unless something is on its way. The parameters are JSON.
pub fn handle_shutdown_if_idle(
    runtime: &mut DaemonRuntime,
    id: Option<String>,
    method: Option<String>,
    params: &Option<String>,
) -> (result: Result<ShutdownIfIdleResult, Envelope>)
    requires
        old(runtime).well_formed(),
    ensures
        final(runtime).well_formed(),
        shutdown_decided(
            *old(runtime),
            *final(runtime),
            id,
            method,
            shutdown_params_ok(
                match params {
                    Some(words) => Some(json::json_at(words@, ""@)),
                    None => None,
                },
            ),
            result,
        ),
{
    let part = match params {
        Some(words) => Some(json::part_at(words.as_str(), "")),
        None => None,
    };
    let params_ok = empty_params(&part);
    decide_shutdown(runtime, id, method, params_ok)
}

/// Where a run stands among the known ones, or what a client is told where it is not known.
pub fn find_run(runtime: &DaemonRuntime, run_id: &str) -> (result: Result<usize, String>)
    ensures
        match result {
            Ok(i) => {
                &&& i == runtime::run_index(runtime.runs@, run_id@)
                &&& i < runtime.runs@.len()
                &&& runtime.runs@[i as int].run_id@ == run_id@
                &&& runtime::has_run(runtime.runs@, run_id@)
            },
            Err(message) => !runtime::has_run(runtime.runs@, run_id@) && message@
                == "run not found: "@ + run_id@,
        },
{
    match runtime.find_index(run_id) {
        Some(i) => Ok(i),
        None => Err(text::concat("run not found: ", run_id)),
    }
}

/// Whether an envelope says that a run is not known.
pub open spec fn is_run_not_found(
    envelope: Envelope,
    id: Option<String>,
    method: Method,
    run_id: Seq<char>,
) -> bool {
    protocol::is_error(
        envelope,
        id,
        Some(method_text(method)),
        ERROR_NOT_FOUND@,
        "run not found: "@ + run_id,
    )
}

/// The place from which events are read: the one that is asked for, or else the end.
pub open spec fn stream_start(record: RunRecord, params: EventsStreamParams) -> u64 {
    match params.from_offset {
        Some(offset) => offset,
        None => record.events.next_offset,
    }
}

/// The number of events that are asked for.
pub open spec fn stream_limit(params: EventsStreamParams) -> usize {
    match params.limit {
        Some(limit) => limit,
        None => DEFAULT_EVENT_LIMIT,
    }
}

/// What comes of asking for the events of a run.
pub open spec fn events_streamed(
    runtime: DaemonRuntime,
    id: Option<String>,
    params: EventsStreamParams,
    result: Result<EventsStreamResult, Envelope>,
) -> bool {
    if !runtime::has_run(runtime.runs@, params.run_id@) {
        result matches Err(reply) && is_run_not_found(
            reply,
            id,
            Method::EventsStream,
            params.run_id@,
        )
    } else {
        let record = runtime.runs@[runtime::run_index(runtime.runs@, params.run_id@)];
        let from = stream_start(record, params);
        let limit = stream_limit(params);
        if limit > MAX_EVENT_LIMIT {
            result matches Err(reply) && protocol::is_error(
                reply,
                id,
                Some("events.stream"@),
                ERROR_OVERLOAD@,
                "event stream limit exceeds maximum 128: "@ + text::decimal(limit as nat),
            )
        } else if from < record.events.first_offset {
            result matches Err(reply) && protocol::is_error(
                reply,
                id,
                Some("events.stream"@),
                ERROR_LAGGED@,
                "requested offset "@ + text::decimal(from as nat)
                    + " is no longer buffered; first available is "@ + text::decimal(
                    record.events.first_offset as nat,
                ),
            )
        } else {
            result matches Ok(page) && {
                &&& page.run_id == record.run_id
                &&& page.from_offset == from
                &&& page.next_offset == from + page.events@.len()
                &&& page.status == record.status.state
                &&& page.events@.map_values(|e: BufferedStreamEvent| e.event) == events::page_of(
                    record.events@,
                    from as nat,
                    limit as nat,
                )
                &&& events::placed(page.events@, from as nat)
            }
        }
    }
}

/// The events of a run, from a place on.
pub fn handle_events_stream(
    runtime: &DaemonRuntime,
    id: Option<String>,
    params: EventsStreamParams,
) -> (result: Result<EventsStreamResult, Envelope>)
    requires
        runtime.well_formed(),
    ensures
        events_streamed(*runtime, id, params, result),
{
    let i: usize = match find_run(runtime, params.run_id.as_str()) {
        Ok(i) => i,
        Err(message) => {
            return Err(error_response(id, Method::EventsStream, message.as_str()));
        },
    };
    let record = &runtime.runs[i];
    let limit: usize = match params.limit {
        Some(limit) => limit,
        None => DEFAULT_EVENT_LIMIT,
    };
    if limit > MAX_EVENT_LIMIT {
        let count = text::to_decimal(limit as u64);
        let message = text::concat("event stream limit exceeds maximum 128: ", count.as_str());
        return Err(refusal(id, Method::EventsStream, ERROR_OVERLOAD, message.as_str()));
    }
    let from_offset: u64 = match params.from_offset {
        Some(offset) => offset,
        None => record.events.next_offset,
    };
    match record.events.page(from_offset, limit) {
        Some(events) => {
            let next_offset: u64 = from_offset + events.len() as u64;
            Ok(
                EventsStreamResult {
                    run_id: record.run_id.clone(),
                    from_offset,
                    next_offset,
                    status: record.status.state,
                    events,
                },
            )
        },
        None => {
            let wanted = text::to_decimal(from_offset);
            let first = text::to_decimal(record.events.first_offset);
            let mut message = text::concat3(
                "requested offset ",
                wanted.as_str(),
                " is no longer buffered; first available is ",
            );
            message.append(first.as_str());
            Err(refusal(id, Method::EventsStream, ERROR_LAGGED, message.as_str()))
        },
    }
}

/// Whether an envelope says that no call waits under an identifier.
pub open spec fn is_approval_not_found(
    envelope: Envelope,
    id: Option<String>,
    call_id: Seq<char>,
) -> bool {
    protocol::is_error(
        envelope,
        id,
        Some("approval.decide"@),
        ERROR_NOT_FOUND@,
        "pending approval not found: "@ + call_id,
    )
}

/// The index of the run that a request names.
pub open spec fn named_run(runtime: DaemonRuntime, run_id: Seq<char>) -> int {
    runtime::run_index(runtime.runs@, run_id)
}

/// The call of a run that a client can decide on.
pub open spec fn decidable(record: RunRecord, call_id: Seq<char>) -> bool {
    let i = runtime::approval_index(record.approvals@, call_id);
    !record.cancel && i < record.approvals@.len() && record.approvals@[i].decision is None
}

/// What a client's decision means for the call.
pub open spec fn decided_outcome(params: ApprovalDecideParams) -> runtime::ExternalApprovalOutcome {
    match (params.decision, params.reason) {
        (protocol::ApprovalDecision::Grant, _) => runtime::ExternalApprovalOutcome::Granted {
            actor: runtime::GrantActor::Daemon,
        },
        (protocol::ApprovalDecision::Deny, Some(words)) =>
            runtime::ExternalApprovalOutcome::Denied {
            actor: runtime::GrantActor::Daemon,
            reason: runtime::OutsideDenial::Given(words),
        },
        (protocol::ApprovalDecision::Deny, None) => runtime::ExternalApprovalOutcome::Denied {
            actor: runtime::GrantActor::Daemon,
            reason: runtime::OutsideDenial::ByClient,
        },
    }
}

/// Decides on a call that waits. It can be decided once, while its run was not asked to stop.
pub fn handle_approval_decide(
    runtime: &mut DaemonRuntime,
    id: Option<String>,
    params: ApprovalDecideParams,
) -> (result: Result<CommandAcceptedResult, Envelope>)
    requires
        old(runtime).well_formed(),
    ensures
        final(runtime).well_formed(),
        if !runtime::has_run(old(runtime).runs@, params.run_id@) {
            &&& result matches Err(reply) && is_run_not_found(
                reply,
                id,
                Method::ApprovalDecide,
                params.run_id@,
            )
            &&& *final(runtime) == *old(runtime)
        } else {
            let i = named_run(*old(runtime), params.run_id@);
            let before = old(runtime).runs@[i];
            let after = final(runtime).runs@[i];
            &&& *final(runtime) == (DaemonRuntime { runs: final(runtime).runs, ..*old(runtime) })
            &&& final(runtime).runs@ == old(runtime).runs@.update(i, after)
            &&& after == (RunRecord { approvals: after.approvals, ..before })
            &&& if decidable(before, params.tool_call_id@) {
                let n = runtime::approval_index(before.approvals@, params.tool_call_id@);
                &&& result == Ok::<CommandAcceptedResult, Envelope>(
                    CommandAcceptedResult { run_id: before.run_id, status: before.status.state },
                )
                &&& after.approvals@ == before.approvals@.update(
                    n,
                    runtime::PendingApproval {
                        decision: Some(decided_outcome(params)),
                        ..before.approvals@[n]
                    },
                )
            } else {
                &&& result matches Err(reply) && is_approval_not_found(
                    reply,
                    id,
                    params.tool_call_id@,
                )
                &&& after.approvals@ == before.approvals@
            }
        },
{
    let i: usize = match find_run(runtime, params.run_id.as_str()) {
        Ok(i) => i,
        Err(message) => {
            return Err(error_response(id, Method::ApprovalDecide, message.as_str()));
        },
    };
    let ghost before = *runtime;
    assert(runtime.runs@[i as int].well_formed());
    let accepted = runtime.runs[i].decide(
        params.tool_call_id.as_str(),
        params.decision,
        params.reason,
    );
    assert(runtime.runs@ =~= before.runs@.update(i as int, runtime.runs@[i as int]));
    proof {
        runtime::changing_a_run_keeps_consistency(before, *runtime, i as int);
    }
    if accepted {
        Ok(
            CommandAcceptedResult {
                run_id: runtime.runs[i].run_id.clone(),
                status: runtime.runs[i].status.state,
            },
        )
    } else {
        let message = text::concat(
            "pending approval not found: ",
            params.tool_call_id.as_str(),
        );
        Err(error_response(id, Method::ApprovalDecide, message.as_str()))
    }
}

/// Whether a request to stop a run was answered as it should be, and what it changed.
pub open spec fn cancel_answered(
    before: DaemonRuntime,
    id: Option<String>,
    run_id: Seq<char>,
    after: DaemonRuntime,
    result: Result<CommandAcceptedResult, Envelope>,
) -> bool {
    if !runtime::has_run(before.runs@, run_id) {
        &&& result matches Err(reply) && is_run_not_found(reply, id, Method::RunCancel, run_id)
        &&& after == before
    } else {
        let i = named_run(before, run_id);
        let asked = before.runs@[i];
        let told = after.runs@[i];
        &&& after == (DaemonRuntime { runs: after.runs, ..before })
        &&& after.runs@ == before.runs@.update(i, told)
        &&& exists|outcome: CancelOutcome|
            {
                &&& #[trigger] runtime::cancels(asked, told, outcome)
                &&& if outcome == CancelOutcome::NotActive {
                    result matches Err(reply) && protocol::is_error(
                        reply,
                        id,
                        Some("run.cancel"@),
                        ERROR_NOT_FOUND@,
                        "run is not active: "@ + asked.run_id@,
                    )
                } else {
                    result == Ok::<CommandAcceptedResult, Envelope>(
                        CommandAcceptedResult {
                            run_id: asked.run_id,
                            status: RunStateName::CancelRequested,
                        },
                    )
                }
            }
    }
}

/// Asking the daemon a second time to stop a run changes nothing, and is accepted with the same
/// answer where the first request was accepted and refused where it was refused.
pub proof fn a_second_cancel_changes_nothing(
    before: DaemonRuntime,
    once: DaemonRuntime,
    twice: DaemonRuntime,
    first_id: Option<String>,
    second_id: Option<String>,
    run_id: Seq<char>,
    first: Result<CommandAcceptedResult, Envelope>,
    second: Result<CommandAcceptedResult, Envelope>,
)
    requires
        before.well_formed(),
        cancel_answered(before, first_id, run_id, once, first),
        cancel_answered(once, second_id, run_id, twice, second),
    ensures
        twice == (DaemonRuntime { runs: twice.runs, ..once }),
        twice.runs@ == once.runs@,
        first is Ok ==> second == first,
        first is Err ==> second is Err && once.runs@ == before.runs@,
{
    if runtime::has_run(before.runs@, run_id) {
        runtime::run_index_finds(before.runs@, run_id);
        let i = named_run(before, run_id);
        assert(once.runs@[i].run_id@ == run_id);
        runtime::run_index_finds(once.runs@, run_id);
        let j = named_run(once, run_id);
        assert(before.runs@[j].run_id@ == once.runs@[j].run_id@);
        assert(i == j);
        assert(once.runs@.update(i, twice.runs@[i]) =~= once.runs@);
        if first is Err {
            assert(before.runs@.update(i, once.runs@[i]) =~= before.runs@);
        }
    } else {
        assert(twice.runs@ == once.runs@);
    }
}

/// Asks a run to stop. A run that was asked before is answered in the same way and not asked
/// again; one that has ended is left alone.
pub fn handle_run_cancel(
    runtime: &mut DaemonRuntime,
    id: Option<String>,
    params: RunCancelParams,
) -> (result: Result<CommandAcceptedResult, Envelope>)
    requires
        old(runtime).well_formed(),
        forall|i: int|
            0 <= i < old(runtime).runs@.len() && (#[trigger] old(runtime).runs@[i]).run_id@
                == params.run_id@ && old(runtime).runs@[i].status.state == RunStateName::Running
                ==> old(runtime).runs@[i].events.next_offset < u64::MAX,
    ensures
        final(runtime).well_formed(),
        cancel_answered(*old(runtime), id, params.run_id@, *final(runtime), result),
{
    let i: usize = match find_run(runtime, params.run_id.as_str()) {
        Ok(i) => i,
        Err(message) => {
            return Err(error_response(id, Method::RunCancel, message.as_str()));
        },
    };
    let ghost before = *runtime;
    assert(runtime.runs@[i as int].well_formed());
    let outcome = runtime.runs[i].request_cancel();
    assert(runtime.runs@ =~= before.runs@.update(i as int, runtime.runs@[i as int]));
    assert(runtime::cancels(before.runs@[i as int], runtime.runs@[i as int], outcome));
    proof {
        runtime::changing_a_run_keeps_consistency(before, *runtime, i as int);
    }
    match outcome {
        CancelOutcome::NotActive => {
            let message = text::concat("run is not active: ", runtime.runs[i].run_id.as_str());
            Err(error_response(id, Method::RunCancel, message.as_str()))
        },
        _ => Ok(
            CommandAcceptedResult {
                run_id: runtime.runs[i].run_id.clone(),
                status: runtime.runs[i].status.state,
            },
        ),
    }
}

/// Passes on what a run tells those who watch it. An entry of the ledger is given as JSON.
pub fn collect_run_event(record: &mut RunRecord, event: RunEvent, ledger_json: String)
    requires
        old(record).well_formed(),
        old(record).events.next_offset < u64::MAX,
    ensures
        final(record).well_formed(),
        *final(record) == (RunRecord { events: final(record).events, ..*old(record) }),
        final(record).events@ == events::pushed(
            old(record).events@,
            match event {
                RunEvent::Ledger(_) => StreamEvent::Ledger { record: ledger_json },
                RunEvent::AssistantDelta(delta) => StreamEvent::AssistantDelta {
                    run_id: delta.run_id,
                    turn_id: delta.turn_id,
                    step: delta.step,
                    delta_index: delta.delta_index,
                    text: delta.text,
                },
            },
        ),
{
    match event {
        RunEvent::Ledger(_) => record.push_recorded_event(ledger_json),
        RunEvent::AssistantDelta(delta) => record.push_assistant_delta(delta),
    }
}

/// The call of a run that waits for a decision, where the run is known.
pub fn runtime_pending_approval(runtime: &DaemonRuntime, run_id: &str) -> (result: Option<
    protocol::PendingApprovalSnapshot,
>)
    ensures
        !runtime::has_run(runtime.runs@, run_id@) ==> result is None,
        runtime::has_run(runtime.runs@, run_id@) ==> result == ({
            let record = runtime.runs@[runtime::run_index(runtime.runs@, run_id@)];
            let n = runtime::undecided_index(record.approvals@);
            if record.cancel || record.status.state != RunStateName::Running || n
                >= record.approvals@.len() {
                None
            } else {
                Some(runtime::snapshot_of(record.approvals@[n].request))
            }
        }),
{
    match runtime.find_index(run_id) {
        Some(i) => runtime.runs[i].pending_approval(),
        None => None,
    }
}

/// The code under which a failure to read a run is reported.
pub fn transcript_error_code(error: &AppError) -> (result: &'static str)
    ensures
        result@ == (if error is RunNotFound || error is SessionNotFound || error is NoSqliteRuns
            || error is NoSqliteSessions {
            ERROR_NOT_FOUND@
        } else {
            ERROR_INTERNAL@
        }),
{
    match error {
        AppError::RunNotFound(_) => ERROR_NOT_FOUND,
        AppError::SessionNotFound(_) => ERROR_NOT_FOUND,
        AppError::NoSqliteRuns => ERROR_NOT_FOUND,
        AppError::NoSqliteSessions => ERROR_NOT_FOUND,
        _ => ERROR_INTERNAL,
    }
}

} // verus!
