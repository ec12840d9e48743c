//! What holds of everything that the command line prints.

use crate::app::session::{RunLedger, RunOutcome};
use crate::cli::output::{
    self, gateway_daemon_error, issue_prep_output, run_success_output, shell_quote,
    sqlite_replay_hint, Output,
};
use crate::cli::{
    prompt_question, resolve_cli_path, sqlite_ledger, tui_options_from_cli, Cli, TuiOptions,
};
use crate::daemon::protocol::IssuePrepResult;
use crate::error::AppError;
use crate::text;
use vstd::prelude::*;

verus! {

/// A text is kept as it is where a shell takes it so; and always a shell reads the text back.
pub proof fn a_shell_reads_a_quoted_text_back(value: &str, word: String)
    requires
        call_ensures(shell_quote, (value,), word),
    ensures
        output::shell_word(word@, false) == Some(value@),
        output::all_plain(value@) ==> word@ == value@,
        !output::all_plain(value@) ==> word@.len() >= 2 && word@[0] == '\'' && word@.last() == '\'',
{
    output::a_shell_reads_the_text_back(value@);
}

/// A hint names the run, its ledger, and the command that replays it from there.
pub proof fn a_hint_names_run_and_ledger(run_id: &str, path: &str, word: String, hint: String)
    requires
        call_ensures(sqlite_replay_hint, (run_id, path), hint),
        call_ensures(shell_quote, (path,), word),
    ensures
        hint@ == "run_id: "@ + run_id@ + "\nledger_path: "@ + path@ + "\nreplay: plato replay --db="@
            + word@ + " --run "@ + run_id@ + "\n"@,
{
}

/// The answer goes to the standard output on a line of its own. The hint goes to the standard error,
/// where the ledger is one that can be replayed by it; a plain file has none.
pub proof fn an_answer_and_its_hint_are_apart(
    outcome: &RunOutcome,
    ledger: &RunLedger,
    printed: Output,
    run_id: &str,
    path: &str,
    hint: String,
)
    requires
        call_ensures(run_success_output, (outcome, ledger), printed),
        call_ensures(sqlite_replay_hint, (run_id, path), hint),
        run_id@ == outcome.run_id@,
    ensures
        printed.stdout@ == outcome.final_answer@ + "\n"@,
        ledger is Jsonl ==> printed.stderr@.len() == 0,
        *ledger matches RunLedger::Sqlite(file) && file@ == path@ ==> printed.stderr@ == hint@,
        *ledger matches RunLedger::DefaultSqlite(file) && file@ == path@ ==> printed.stderr@
            == hint@,
{
}

/// A prepared issue is printed as it is, and its directory named; where there is none, the stage,
/// every reason and the directory are told.
pub proof fn a_prepared_issue_is_printed_as_it_is(
    outcome: IssuePrepResult,
    run_dir: String,
    result: Result<Output, AppError>,
)
    requires
        call_ensures(issue_prep_output, (outcome, run_dir), result),
    ensures
        result is Ok <==> outcome is Candidate,
        outcome matches IssuePrepResult::Candidate { markdown } ==> result->Ok_0.stdout == markdown
            && result->Ok_0.stderr@ == "run_dir: "@ + run_dir@ + "\n"@,
        outcome matches IssuePrepResult::Blocked { stage, reasons } ==> (result matches Err(
            AppError::IssuePrepBlocked { stage: told, reasons: words, run_dir: dir },
        ) && told == stage && dir == run_dir && (reasons@.len() == 1 ==> words@ == reasons@[0]@) && (
        reasons@.len() == 2 ==> words@ == reasons@[0]@ + "; "@ + reasons@[1]@)),
{
    if let IssuePrepResult::Blocked { stage, reasons } = outcome {
        if reasons@.len() == 2 {
            reveal_with_fuel(text::separated, 2);
        }
    }
}

/// A gateway without its daemon says where it looked, what failed, and how to start the daemon: at
/// the socket that was named, if one was.
pub proof fn a_missing_daemon_is_explained(
    socket: &Option<String>,
    socket_path: &str,
    failed: &AppError,
    result: AppError,
    why: String,
    named: &str,
    word: String,
)
    requires
        call_ensures(gateway_daemon_error, (socket, socket_path, failed), result),
        call_ensures(AppError::message, (failed,), why),
        call_ensures(shell_quote, (named,), word),
    ensures
        result is Config,
        *socket is None ==> result->Config_0@
            == "workspace daemon is unavailable or incompatible at "@ + socket_path@ + ": "@ + why@
            + "; start it with `"@ + "plato daemon"@ + "`"@,
        *socket is Some && socket->0@ == named@ ==> result->Config_0@
            == "workspace daemon is unavailable or incompatible at "@ + socket_path@ + ": "@ + why@
            + "; start it with `"@ + ("plato daemon --socket "@ + word@) + "`"@,
{
}

/// A ledger that is named is taken from the workspace; without a name the default one is, or why
/// there is none.
pub proof fn a_named_ledger_is_taken_from_the_workspace(
    db: Option<Option<String>>,
    workspace_root: &str,
    default_sqlite: Result<String, AppError>,
    result: Result<RunLedger, AppError>,
    path: String,
    taken: String,
)
    requires
        call_ensures(sqlite_ledger, (db, workspace_root, default_sqlite), result),
        call_ensures(resolve_cli_path, (path, workspace_root), taken),
    ensures
        db == Some(Some(path)) ==> (result matches Ok(RunLedger::Sqlite(found)) && found@ == taken@),
        !(db matches Some(Some(_))) ==> match default_sqlite {
            Ok(usual) => result == Ok::<RunLedger, AppError>(RunLedger::DefaultSqlite(usual)),
            Err(failed) => result == Err::<RunLedger, AppError>(failed),
        },
        path@.len() > 0 && path@[0] == '/' ==> taken@ == path@,
{
}

/// A prompt's question is its words with a space between them; it must say something.
pub proof fn a_question_is_its_words(cli: &Cli, result: Result<String, AppError>)
    requires
        call_ensures(prompt_question, (cli,), result),
    ensures
        cli.question@.len() == 0 ==> result == Err::<String, AppError>(AppError::EmptyQuestion),
        cli.question@.len() == 1 ==> (result is Ok <==> exists|i: int|
            0 <= i < cli.question@[0]@.len() && !text::is_space(#[trigger] cli.question@[0]@[i])),
        cli.question@.len() == 1 && result is Ok ==> result->Ok_0@ == cli.question@[0]@,
        cli.question@.len() == 2 && result is Ok ==> result->Ok_0@ == cli.question@[0]@ + " "@
            + cli.question@[1]@,
        result is Err ==> result == Err::<String, AppError>(AppError::EmptyQuestion),
{
    if cli.question@.len() == 2 {
        reveal_with_fuel(text::separated, 2);
    }
}

/// The terminal interface takes its workspace and its configuration from the command line, and
/// nothing else.
pub proof fn the_interface_goes_by_the_command_line(
    cli: &Cli,
    workspace_root: &str,
    result: Result<TuiOptions, AppError>,
)
    requires
        call_ensures(tui_options_from_cli, (cli, workspace_root), result),
    ensures
        result is Ok <==> cli.command is None && cli.question@.len() == 0 && cli.events is None
            && cli.db is None && !cli.yolo && !cli.continue_session,
        result matches Ok(options) ==> options.workspace@ == workspace_root@ && options.config
            == cli.config && options.socket is None && options.run is None && !options.snapshot,
{
}

/// An error names what it is about.
pub proof fn an_error_names_what_it_is_about(error: &AppError, words: String)
    requires
        call_ensures(AppError::message, (error,), words),
    ensures
        *error matches AppError::Config(message) ==> words@ == "config error: "@ + message@,
        *error matches AppError::Provider(message) ==> words@ == "provider error: "@ + message@,
        *error matches AppError::RunFailed(reason) ==> words@ == "run did not finish: "@ + reason@,
        *error is RunCanceled ==> words@ == "run did not finish: run canceled"@,
        *error is EmptyQuestion ==> words@ == "question must not be empty"@,
        *error matches AppError::DaemonProtocol(message) ==> words@ == "daemon protocol error: "@
            + message@,
        *error matches AppError::DaemonResponse(answer) ==> words@ == "daemon error "@
            + answer.code@ + ": "@ + answer.message@,
        *error matches AppError::DaemonLockHeld { path, owner } ==> words@
            == "daemon lock is held: "@ + path@ + " ("@ + owner@ + ")"@,
        *error matches AppError::RunNotFound(run_id) ==> words@ == "run not found: "@ + run_id@,
        *error matches AppError::SessionNotFound(session_id) ==> words@ == "session not found: "@
            + session_id@,
        *error matches AppError::Io { message, .. } ==> words@ == message@,
        *error matches AppError::Json(message) ==> words@ == message@,
        *error matches AppError::Toml(message) ==> words@ == message@,
        *error matches AppError::Core(message) ==> words@ == message@,
        *error matches AppError::ContextBudgetExceeded { used, budget } ==> words@
            == "context budget exceeded: used "@ + text::decimal(used as nat) + ", budget "@
            + text::decimal(budget as nat),
        *error matches AppError::IssuePrepBlocked { stage, reasons, run_dir } ==> words@
            == "issue prep blocked at "@ + stage@ + ": "@ + reasons@ + " (run_dir: "@ + run_dir@
            + ")"@,
{
}

} // verus!
