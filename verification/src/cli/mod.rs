//! The command line: what it may ask for, and what it comes to.

use crate::app::session::{RunLedger, RunSession, check_question};
use crate::error;
use crate::error::AppError;
use crate::paths;
use crate::text;
use vstd::prelude::*;

pub mod entry_laws;
pub mod output;
pub mod output_laws;
pub mod prompt;
pub mod prompt_laws;

verus! {

/// How long a daemon may take to answer.
pub const DAEMON_CLIENT_TIMEOUT: u128 = 3_000_000_000;

/// The pause between two looks at the daemon.
pub const DAEMON_POLL: u128 = 50_000_000;

/// What was asked for on the command line.
#[derive(Debug, PartialEq, Eq)]
pub struct Cli {
    pub config: Option<String>,
    pub events: Option<String>,
    /// The SQLite ledger: not named, named without a path, or with one.
    pub db: Option<Option<String>>,
    pub yolo: bool,
    pub continue_session: bool,
    pub tui: bool,
    pub command: Option<Command>,
    pub question: Vec<String>,
}

#[derive(Debug, PartialEq, Eq)]
pub enum Command {
    /// Run the workspace daemon in the foreground.
    Daemon { socket: Option<String> },
    /// Run an explicit gateway connector.
    Gateway { command: GatewayCommand },
    Replay { run: Option<String>, file: Option<String> },
    /// Run the fixed, file-backed issue preparation pipeline.
    IssuePrep { command: IssuePrepCommand },
}

#[derive(Debug, PartialEq, Eq)]
pub enum GatewayCommand {
    /// Run the Discord gateway for this workspace.
    Discord { socket: Option<String> },
}

#[derive(Debug, PartialEq, Eq)]
pub enum IssuePrepCommand {
    /// Create a run from Markdown on stdin and process it.
    Start { run_dir: String },
}

/// Whether the terminal interface starts without being asked for: nothing else is, and both ends
/// are terminals.
pub fn implicit_tui_requested(cli: &Cli, stdin_is_terminal: bool, stdout_is_terminal: bool) -> (result:
    bool)
    ensures
        result == implicit_tui(*cli, stdin_is_terminal, stdout_is_terminal),
{
    cli.command.is_none() && cli.question.len() == 0 && stdin_is_terminal && stdout_is_terminal
}

pub open spec fn implicit_tui(cli: Cli, stdin_is_terminal: bool, stdout_is_terminal: bool) -> bool {
    cli.command is None && cli.question@.len() == 0 && stdin_is_terminal && stdout_is_terminal
}

/// Whether an option is set that only a single run understands.
pub open spec fn has_run_option(cli: Cli) -> bool {
    cli.events is Some || cli.db is Some || cli.yolo || cli.continue_session
}

fn run_option(cli: &Cli) -> (result: bool)
    ensures
        result == has_run_option(*cli),
{
    cli.events.is_some() || cli.db.is_some() || cli.yolo || cli.continue_session
}

/// What is wrong with a command line that starts the daemon.
pub open spec fn daemon_error(cli: Cli) -> Option<Seq<char>> {
    if cli.config is Some || has_run_option(cli) || cli.question@.len() > 0 {
        Some(
            "plato daemon cannot be combined with --config, --events, --db, --yolo, -c, or a question"@,
        )
    } else {
        None
    }
}

/// What is wrong with a command line that starts a gateway.
pub open spec fn gateway_error(cli: Cli) -> Option<Seq<char>> {
    if has_run_option(cli) || cli.question@.len() > 0 {
        Some("plato gateway cannot be combined with --events, --db, --yolo, -c, or a question"@)
    } else {
        None
    }
}

/// What is wrong with a command line that starts issue preparation.
pub open spec fn issue_prep_error(cli: Cli) -> Option<Seq<char>> {
    if has_run_option(cli) {
        Some("plato issue-prep cannot be combined with --events, --db, --yolo, or -c"@)
    } else if cli.question@.len() > 0 {
        Some("plato issue-prep cannot be combined with a question"@)
    } else {
        None
    }
}

/// What is wrong with a command line that starts the terminal interface.
pub open spec fn tui_error(cli: Cli) -> Option<Seq<char>> {
    if cli.command is Some {
        Some("plato --tui cannot be combined with subcommands"@)
    } else if cli.question@.len() > 0 {
        Some("plato --tui cannot be combined with a question"@)
    } else if has_run_option(cli) {
        Some("plato --tui cannot be combined with --events, --db, --yolo, or -c"@)
    } else {
        None
    }
}

/// Whether a result is the refusal with this text, or a success where there is none.
pub open spec fn checked(result: Result<(), AppError>, expected: Option<Seq<char>>) -> bool {
    match expected {
        Some(message) => error::refused_with(result, message),
        None => result is Ok,
    }
}

pub fn validate_daemon_cli(cli: &Cli) -> (result: Result<(), AppError>)
    ensures
        checked(result, daemon_error(*cli)),
{
    if cli.config.is_some() || run_option(cli) || cli.question.len() > 0 {
        return Err(
            error::config_error(
                "plato daemon cannot be combined with --config, --events, --db, --yolo, -c, or a question",
            ),
        );
    }
    Ok(())
}

pub fn validate_gateway_cli(cli: &Cli) -> (result: Result<(), AppError>)
    ensures
        checked(result, gateway_error(*cli)),
{
    if run_option(cli) || cli.question.len() > 0 {
        return Err(
            error::config_error(
                "plato gateway cannot be combined with --events, --db, --yolo, -c, or a question",
            ),
        );
    }
    Ok(())
}

pub fn validate_issue_prep_cli(cli: &Cli) -> (result: Result<(), AppError>)
    ensures
        checked(result, issue_prep_error(*cli)),
{
    if run_option(cli) {
        return Err(
            error::config_error(
                "plato issue-prep cannot be combined with --events, --db, --yolo, or -c",
            ),
        );
    }
    if cli.question.len() > 0 {
        return Err(error::config_error("plato issue-prep cannot be combined with a question"));
    }
    Ok(())
}

pub fn validate_tui_cli(cli: &Cli) -> (result: Result<(), AppError>)
    ensures
        checked(result, tui_error(*cli)),
{
    if cli.command.is_some() {
        return Err(error::config_error("plato --tui cannot be combined with subcommands"));
    }
    if cli.question.len() > 0 {
        return Err(error::config_error("plato --tui cannot be combined with a question"));
    }
    if run_option(cli) {
        return Err(
            error::config_error(
                "plato --tui cannot be combined with --events, --db, --yolo, or -c",
            ),
        );
    }
    Ok(())
}

/// What the terminal interface is started with.
#[derive(Debug, PartialEq, Eq)]
pub struct TuiOptions {
    pub workspace: String,
    pub config: Option<String>,
    pub socket: Option<String>,
    pub run: Option<String>,
    pub snapshot: bool,
}

impl TuiOptions {
    pub fn new(workspace: String) -> (result: Self)
        ensures
            result == (TuiOptions {
                workspace,
                config: None,
                socket: None,
                run: None,
                snapshot: false,
            }),
    {
        TuiOptions { workspace, config: None, socket: None, run: None, snapshot: false }
    }
}

/// What the terminal interface is started with, if the command line asks for nothing else.
pub fn tui_options_from_cli(cli: &Cli, workspace_root: &str) -> (result: Result<
    TuiOptions,
    AppError,
>)
    ensures
        match tui_error(*cli) {
            Some(message) => error::refused_with(result, message),
            None => result matches Ok(options) && options.workspace@ == workspace_root@
                && options.config == cli.config && options.socket is None && options.run is None
                && !options.snapshot,
        },
{
    match validate_tui_cli(cli) {
        Ok(()) => {
            let mut options = TuiOptions::new(workspace_root.to_owned());
            options.config = cli.config.clone();
            Ok(options)
        },
        Err(failed) => Err(failed),
    }
}

/// What a command line comes to.
#[derive(Clone, Copy, Debug, PartialEq, Eq, Structural)]
pub enum Entry {
    Tui,
    Daemon,
    Gateway,
    Replay,
    IssuePrep,
    Prompt,
}

/// What a command line comes to, whether or not its options fit that.
pub open spec fn entry_asked(
    cli: Cli,
    stdin_is_terminal: bool,
    stdout_is_terminal: bool,
) -> Entry {
    if cli.tui || implicit_tui(cli, stdin_is_terminal, stdout_is_terminal) {
        Entry::Tui
    } else {
        match cli.command {
            Some(Command::Daemon { .. }) => Entry::Daemon,
            Some(Command::Gateway { .. }) => Entry::Gateway,
            Some(Command::Replay { .. }) => Entry::Replay,
            Some(Command::IssuePrep { .. }) => Entry::IssuePrep,
            None => Entry::Prompt,
        }
    }
}

/// What is wrong with the options, for what the command line comes to.
pub open spec fn entry_error(cli: Cli, entry: Entry) -> Option<Seq<char>> {
    match entry {
        Entry::Tui => tui_error(cli),
        Entry::Daemon => daemon_error(cli),
        Entry::Gateway => gateway_error(cli),
        Entry::IssuePrep => issue_prep_error(cli),
        Entry::Replay | Entry::Prompt => None,
    }
}

/// What a command line comes to.
pub fn entry(cli: &Cli, stdin_is_terminal: bool, stdout_is_terminal: bool) -> (result: Result<
    Entry,
    AppError,
>)
    ensures
        ({
            let asked = entry_asked(*cli, stdin_is_terminal, stdout_is_terminal);
            match entry_error(*cli, asked) {
                Some(message) => error::refused_with(result, message),
                None => result == Ok::<Entry, AppError>(asked),
            }
        }),
{
    let (asked, check) = if cli.tui || implicit_tui_requested(
        cli,
        stdin_is_terminal,
        stdout_is_terminal,
    ) {
        (Entry::Tui, validate_tui_cli(cli))
    } else {
        match &cli.command {
            Some(Command::Daemon { .. }) => (Entry::Daemon, validate_daemon_cli(cli)),
            Some(Command::Gateway { .. }) => (Entry::Gateway, validate_gateway_cli(cli)),
            Some(Command::Replay { .. }) => (Entry::Replay, Ok(())),
            Some(Command::IssuePrep { .. }) => (Entry::IssuePrep, validate_issue_prep_cli(cli)),
            None => (Entry::Prompt, Ok(())),
        }
    };
    match check {
        Ok(()) => Ok(asked),
        Err(failed) => Err(failed),
    }
}

/// The terminal interface, a service and issue preparation start only without the options of a
/// single run.
pub proof fn run_options_are_for_runs(
    cli: Cli,
    stdin_is_terminal: bool,
    stdout_is_terminal: bool,
)
    requires
        has_run_option(cli),
        entry_error(cli, entry_asked(cli, stdin_is_terminal, stdout_is_terminal)) is None,
    ensures
        ({
            let asked = entry_asked(cli, stdin_is_terminal, stdout_is_terminal);
            asked == Entry::Prompt || asked == Entry::Replay
        }),
{
}

/// The question of a prompt, which must say something.
pub fn prompt_question(cli: &Cli) -> (result: Result<String, AppError>)
    ensures
        if text::is_blank(text::separated(cli.question@, " "@)) {
            result == Err::<String, AppError>(AppError::EmptyQuestion)
        } else {
            result matches Ok(question) && question@ == text::separated(cli.question@, " "@)
        },
{
    let question = text::separate(&cli.question, " ");
    match check_question(question.as_str()) {
        Ok(()) => Ok(question),
        Err(failed) => Err(failed),
    }
}

/// Whether a prompt may go to a daemon that serves the workspace: not where the ledger is named or
/// approvals are waived.
pub fn daemon_prompt_eligible(cli: &Cli) -> (result: bool)
    ensures
        result == (cli.events is None && !(cli.db matches Some(Some(_))) && !cli.yolo),
{
    cli.events.is_none() && !matches!(cli.db, Some(Some(_))) && !cli.yolo
}

/// A path of the command line, taken relative to the workspace.
pub fn resolve_cli_path(path: String, workspace_root: &str) -> (result: String)
    ensures
        result@ == paths::joined(workspace_root@, path@),
{
    if paths::absolute(path.as_str()) {
        path
    } else {
        paths::join(workspace_root, path.as_str())
    }
}

/// Whether a result is the ledger that is named by the command line, or else the default one;
/// `default_sqlite` is the workspace's default ledger, or why it has none.
pub open spec fn is_sqlite_ledger(
    result: Result<RunLedger, AppError>,
    db: Option<Option<String>>,
    workspace_root: Seq<char>,
    default_sqlite: Result<String, AppError>,
) -> bool {
    match db {
        Some(Some(path)) => result matches Ok(RunLedger::Sqlite(found)) && found@ == paths::joined(
            workspace_root,
            path@,
        ),
        _ => match default_sqlite {
            Ok(path) => result == Ok::<RunLedger, AppError>(RunLedger::DefaultSqlite(path)),
            Err(failed) => result == Err::<RunLedger, AppError>(failed),
        },
    }
}

/// The SQLite ledger that the command line names, or else the default one.
pub fn sqlite_ledger(
    db: Option<Option<String>>,
    workspace_root: &str,
    default_sqlite: Result<String, AppError>,
) -> (result: Result<RunLedger, AppError>)
    ensures
        is_sqlite_ledger(result, db, workspace_root@, default_sqlite),
{
    match db {
        Some(Some(path)) => Ok(RunLedger::Sqlite(resolve_cli_path(path, workspace_root))),
        _ => match default_sqlite {
            Ok(path) => Ok(RunLedger::DefaultSqlite(path)),
            Err(failed) => Err(failed),
        },
    }
}

/// The ledger of a run.
pub fn run_ledger(
    events: Option<String>,
    db: Option<Option<String>>,
    workspace_root: &str,
    default_sqlite: Result<String, AppError>,
) -> (result: Result<RunLedger, AppError>)
    ensures
        match events {
            Some(path) => if db is Some {
                error::refused_with(result, "--events and --db are mutually exclusive"@)
            } else {
                result == Ok::<RunLedger, AppError>(RunLedger::Jsonl(path))
            },
            None => is_sqlite_ledger(result, db, workspace_root@, default_sqlite),
        },
{
    if db.is_some() && events.is_some() {
        return Err(error::config_error("--events and --db are mutually exclusive"));
    }
    match events {
        Some(path) => Ok(RunLedger::Jsonl(path)),
        None => sqlite_ledger(db, workspace_root, default_sqlite),
    }
}

/// The ledger of a replay.
pub fn replay_ledger(
    db: Option<Option<String>>,
    file: Option<String>,
    workspace_root: &str,
    default_sqlite: Result<String, AppError>,
) -> (result: Result<RunLedger, AppError>)
    ensures
        match file {
            Some(path) => if db is Some {
                error::refused_with(result, "replay accepts either --db or a JSONL file, not both"@)
            } else {
                result == Ok::<RunLedger, AppError>(RunLedger::Jsonl(path))
            },
            None => is_sqlite_ledger(result, db, workspace_root@, default_sqlite),
        },
{
    match file {
        Some(path) => if db.is_some() {
            Err(error::config_error("replay accepts either --db or a JSONL file, not both"))
        } else {
            Ok(RunLedger::Jsonl(path))
        },
        None => sqlite_ledger(db, workspace_root, default_sqlite),
    }
}

/// Whether the workspace's lock is needed for a ledger: a file of events belongs to nobody else.
pub fn needs_workspace_lock(ledger: &RunLedger) -> (result: bool)
    ensures
        result == !(ledger is Jsonl),
{
    !matches!(ledger, RunLedger::Jsonl(_))
}

/// The session of a run. `latest` is the latest session of the ledger, or why there is none, and
/// `fresh` the identifier of a new one.
pub fn run_session(
    continue_session: bool,
    ledger: &RunLedger,
    latest: Result<String, AppError>,
    fresh: String,
) -> (result: Result<Option<RunSession>, AppError>)
    ensures
        match (*ledger, continue_session) {
            (RunLedger::Jsonl(_), true) => error::refused_with(
                result,
                "plato -c requires the SQLite ledger; remove --events"@,
            ),
            (RunLedger::Jsonl(_), false) => result == Ok::<Option<RunSession>, AppError>(None),
            (_, false) => result == Ok::<Option<RunSession>, AppError>(
                Some(RunSession::Fresh { session_id: fresh }),
            ),
            (_, true) => match latest {
                Ok(session_id) => result == Ok::<Option<RunSession>, AppError>(
                    Some(RunSession::Continue { session_id }),
                ),
                Err(AppError::NoSqliteSessions) | Err(AppError::NoSqliteRuns) =>
                    error::refused_with(
                    result,
                    "plato -c found no previous SQLite session; run plato \"...\" first"@,
                ),
                Err(failed) => result == Err::<Option<RunSession>, AppError>(failed),
            },
        },
{
    if matches!(ledger, RunLedger::Jsonl(_)) {
        return if continue_session {
            Err(error::config_error("plato -c requires the SQLite ledger; remove --events"))
        } else {
            Ok(None)
        };
    }
    if !continue_session {
        return Ok(Some(RunSession::Fresh { session_id: fresh }));
    }
    match latest {
        Ok(session_id) => Ok(Some(RunSession::Continue { session_id })),
        Err(AppError::NoSqliteSessions) | Err(AppError::NoSqliteRuns) => Err(
            error::config_error(
                "plato -c found no previous SQLite session; run plato \"...\" first",
            ),
        ),
        Err(failed) => Err(failed),
    }
}

/// What is replayed.
#[derive(Debug, PartialEq, Eq)]
pub enum ReplaySource {
    File { path: String },
    Sqlite { path: String, run: Option<String> },
    DefaultSqlite { path: String, run: Option<String> },
}

/// What is replayed: a file of events holds one run, so that none can be named.
pub fn replay_source(ledger: RunLedger, run: Option<String>) -> (result: Result<
    ReplaySource,
    AppError,
>)
    ensures
        match ledger {
            RunLedger::Sqlite(path) => result == Ok::<ReplaySource, AppError>(
                ReplaySource::Sqlite { path, run },
            ),
            RunLedger::DefaultSqlite(path) => result == Ok::<ReplaySource, AppError>(
                ReplaySource::DefaultSqlite { path, run },
            ),
            RunLedger::Jsonl(path) => if run is Some {
                error::refused_with(result, "replay --run requires --db"@)
            } else {
                result == Ok::<ReplaySource, AppError>(ReplaySource::File { path })
            },
        },
{
    match ledger {
        RunLedger::Sqlite(path) => Ok(ReplaySource::Sqlite { path, run }),
        RunLedger::DefaultSqlite(path) => Ok(ReplaySource::DefaultSqlite { path, run }),
        RunLedger::Jsonl(path) => if run.is_some() {
            Err(error::config_error("replay --run requires --db"))
        } else {
            Ok(ReplaySource::File { path })
        },
    }
}

/// What follows from a look at a daemon that was just started.
#[derive(Debug, PartialEq, Eq)]
pub enum DaemonStart {
    Ready,
    /// Wait a little, and look again.
    Poll,
    /// The process ended.
    Exited(AppError),
    /// The process is to be killed.
    TimedOut(AppError),
}

/// What follows from a look at a daemon that was just started: whether it serves the workspace,
/// how its process ended, if it did, and whether it had its time. `deadline` is the moment by which
/// it is to serve.
pub fn wait_for_persistent_daemon(
    serving: bool,
    exited: Option<String>,
    now: u128,
    deadline: u128,
    socket_path: &str,
) -> (result: DaemonStart)
    ensures
        if serving {
            result == DaemonStart::Ready
        } else if exited is Some {
            result matches DaemonStart::Exited(AppError::Config(message)) && message@
                == "persistent plato-agentd exited before accepting connections: "@ + exited->0@
        } else if now >= deadline {
            result matches DaemonStart::TimedOut(AppError::Config(message)) && message@
                == "timed out waiting for persistent plato-agentd at "@ + socket_path@
        } else {
            result == DaemonStart::Poll
        },
{
    if serving {
        return DaemonStart::Ready;
    }
    if let Some(status) = exited {
        return DaemonStart::Exited(
            AppError::Config(
                text::concat(
                    "persistent plato-agentd exited before accepting connections: ",
                    status.as_str(),
                ),
            ),
        );
    }
    if now >= deadline {
        return DaemonStart::TimedOut(
            AppError::Config(
                text::concat("timed out waiting for persistent plato-agentd at ", socket_path),
            ),
        );
    }
    DaemonStart::Poll
}

} // verus!
