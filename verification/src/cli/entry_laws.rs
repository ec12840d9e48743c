//! What holds of every command line, whatever stands on it.

use crate::app::session::{RunLedger, RunSession};
use crate::cli::{
    daemon_prompt_eligible, entry, needs_workspace_lock, replay_ledger, replay_source, run_ledger,
    run_session, wait_for_persistent_daemon, Cli, Command, DaemonStart, Entry, ReplaySource,
};
use crate::error::AppError;
use vstd::prelude::*;

verus! {

/// Whether an option stands on a command line that only a single run understands.
pub open spec fn asks_for_a_run(cli: Cli) -> bool {
    cli.events is Some || cli.db is Some || cli.yolo || cli.continue_session
}

/// Whether the terminal interface starts.
pub open spec fn starts_tui(cli: Cli, in_terminal: bool, out_terminal: bool) -> bool {
    cli.tui || (cli.command is None && cli.question@.len() == 0 && in_terminal && out_terminal)
}

/// A command line comes to the terminal interface where that is asked for, or where nothing is and
/// both ends are terminals; else to its command, or to a prompt. Options that its command does not
/// understand are refused, and nothing else is.
pub proof fn a_command_line_comes_to_what_it_asks_for(
    cli: &Cli,
    in_terminal: bool,
    out_terminal: bool,
    result: Result<Entry, AppError>,
)
    requires
        call_ensures(entry, (cli, in_terminal, out_terminal), result),
    ensures
        starts_tui(*cli, in_terminal, out_terminal) ==> {
            &&& result is Ok <==> cli.command is None && cli.question@.len() == 0
                && !asks_for_a_run(*cli)
            &&& result matches Ok(asked) ==> asked == Entry::Tui
        },
        !starts_tui(*cli, in_terminal, out_terminal) ==> match cli.command {
            None => result == Ok::<Entry, AppError>(Entry::Prompt),
            Some(Command::Replay { .. }) => result == Ok::<Entry, AppError>(Entry::Replay),
            Some(Command::Daemon { .. }) => {
                &&& result is Ok <==> cli.config is None && cli.question@.len() == 0
                    && !asks_for_a_run(*cli)
                &&& result matches Ok(asked) ==> asked == Entry::Daemon
            },
            Some(Command::Gateway { .. }) => {
                &&& result is Ok <==> cli.question@.len() == 0 && !asks_for_a_run(*cli)
                &&& result matches Ok(asked) ==> asked == Entry::Gateway
            },
            Some(Command::IssuePrep { .. }) => {
                &&& result is Ok <==> cli.question@.len() == 0 && !asks_for_a_run(*cli)
                &&& result matches Ok(asked) ==> asked == Entry::IssuePrep
            },
        },
        result matches Err(error) ==> error is Config,
{
}

/// A prompt goes to the daemon only where neither a ledger is named nor approvals are waived.
pub proof fn a_prompt_with_a_ledger_of_its_own_stays_here(cli: &Cli, goes: bool)
    requires
        call_ensures(daemon_prompt_eligible, (cli,), goes),
    ensures
        cli.events is Some ==> !goes,
        cli.db is Some && cli.db->0 is Some ==> !goes,
        cli.yolo ==> !goes,
        cli.events is None && !cli.yolo && (cli.db is None || cli.db->0 is None) ==> goes,
{
}

/// The ledger of a run is the file of events that is named, or the database that is named, or the
/// workspace's own; both at once are refused. Only a file of events needs no lock.
pub proof fn a_run_has_one_ledger(
    events: Option<String>,
    db: Option<Option<String>>,
    root: &str,
    usual: Result<String, AppError>,
    result: Result<RunLedger, AppError>,
    ledger: &RunLedger,
    locked: bool,
)
    requires
        call_ensures(run_ledger, (events, db, root, usual), result),
        call_ensures(needs_workspace_lock, (ledger,), locked),
    ensures
        events is Some && db is Some ==> result matches Err(AppError::Config(_)),
        events is Some && db is None ==> result == Ok::<RunLedger, AppError>(
            RunLedger::Jsonl(events->0),
        ),
        events is None && db is Some && db->0 is Some ==> (result matches Ok(
            RunLedger::Sqlite(path),
        ) && (db->0->0@.len() > 0 && db->0->0@[0] == '/' ==> path@ == db->0->0@)),
        events is None && (db is None || db->0 is None) ==> match usual {
            Ok(path) => result == Ok::<RunLedger, AppError>(RunLedger::DefaultSqlite(path)),
            Err(error) => result == Err::<RunLedger, AppError>(error),
        },
        locked <==> ledger is Sqlite || ledger is DefaultSqlite,
{
}

/// What is replayed is the file that is named, or else the ledger; a file and a ledger at once are
/// refused, and so is a run of a file.
pub proof fn a_replay_has_one_source(
    db: Option<Option<String>>,
    file: Option<String>,
    root: &str,
    usual: Result<String, AppError>,
    found: Result<RunLedger, AppError>,
    ledger: RunLedger,
    run: Option<String>,
    source: Result<ReplaySource, AppError>,
)
    requires
        call_ensures(replay_ledger, (db, file, root, usual), found),
        call_ensures(replay_source, (ledger, run), source),
    ensures
        file is Some && db is Some ==> found matches Err(AppError::Config(_)),
        file is Some && db is None ==> found == Ok::<RunLedger, AppError>(
            RunLedger::Jsonl(file->0),
        ),
        file is None && (db is None || db->0 is None) && usual is Ok ==> found == Ok::<
            RunLedger,
            AppError,
        >(RunLedger::DefaultSqlite(usual->Ok_0)),
        source is Err <==> ledger is Jsonl && run is Some,
        source matches Ok(ReplaySource::File { path }) ==> ledger == RunLedger::Jsonl(path),
        source matches Ok(ReplaySource::Sqlite { path, run: named }) ==> ledger
            == RunLedger::Sqlite(path) && named == run,
        source matches Ok(ReplaySource::DefaultSqlite { path, run: named }) ==> ledger
            == RunLedger::DefaultSqlite(path) && named == run,
{
}

/// A run goes on with the latest session exactly where that is asked for, and otherwise opens the new
/// one; a file of events has no sessions.
pub proof fn a_run_goes_on_only_where_asked_to(
    go_on: bool,
    ledger: &RunLedger,
    latest: Result<String, AppError>,
    fresh: String,
    result: Result<Option<RunSession>, AppError>,
)
    requires
        call_ensures(run_session, (go_on, ledger, latest, fresh), result),
    ensures
        ledger is Jsonl && !go_on ==> result == Ok::<Option<RunSession>, AppError>(None),
        ledger is Jsonl && go_on ==> result is Err,
        ledger !is Jsonl && !go_on ==> result == Ok::<Option<RunSession>, AppError>(
            Some(RunSession::Fresh { session_id: fresh }),
        ),
        ledger !is Jsonl && go_on && latest is Ok ==> result == Ok::<
            Option<RunSession>,
            AppError,
        >(Some(RunSession::Continue { session_id: latest->Ok_0 })),
        ledger !is Jsonl && go_on && latest is Err ==> result is Err,
{
}

/// A daemon that was just started is waited for until it serves, ends, or has had its time; one that
/// serves is ready, however late.
pub proof fn a_daemon_is_waited_for(
    serving: bool,
    exited: Option<String>,
    now: u128,
    deadline: u128,
    socket: &str,
    start: DaemonStart,
)
    requires
        call_ensures(wait_for_persistent_daemon, (serving, exited, now, deadline, socket), start),
    ensures
        start is Ready <==> serving,
        start is Exited <==> !serving && exited is Some,
        start is TimedOut <==> !serving && exited is None && now >= deadline,
        start is Poll <==> !serving && exited is None && now < deadline,
{
}

} // verus!
