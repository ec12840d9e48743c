//! What the command line prints.

use crate::app::session::{RunLedger, RunOutcome};
use crate::daemon::protocol::IssuePrepResult;
use crate::error::AppError;
use crate::text;
use vstd::prelude::*;

verus! {

/// What goes to the standard output and to the standard error.
#[derive(Debug, PartialEq, Eq)]
pub struct Output {
    pub stdout: String,
    pub stderr: String,
}

/// Whether a shell takes a character as it is.
pub open spec fn is_plain(c: char) -> bool {
    text::is_alphanumeric(c) || c == '_' || c == '.' || c == '/' || c == ':' || c == '-'
}

pub open spec fn all_plain(s: Seq<char>) -> bool {
    forall|i: int| 0 <= i < s.len() ==> is_plain(#[trigger] s[i])
}

/// A text with each single quote made a closing quote, an escaped quote and an opening one.
pub open spec fn quotes_escaped(s: Seq<char>) -> Seq<char>
    decreases s.len(),
{
    if s.len() == 0 {
        s
    } else if s[0] == '\'' {
        seq!['\'', '\\', '\'', '\''] + quotes_escaped(s.drop_first())
    } else {
        seq![s[0]] + quotes_escaped(s.drop_first())
    }
}

/// A text as a word of a shell.
pub open spec fn quoted(s: Seq<char>) -> Seq<char> {
    if all_plain(s) {
        s
    } else {
        seq!['\''] + quotes_escaped(s) + seq!['\'']
    }
}

/// A text as a word of a shell.
pub fn shell_quote(value: &str) -> (result: String)
    ensures
        result@ == quoted(value@),
{
    let chars = text::chars_of(value);
    let mut plain = true;
    let mut i: usize = 0;
    while i < chars.len()
        invariant
            i <= chars@.len(),
            chars@ == value@,
            plain == all_plain(value@.take(i as int)),
        decreases chars@.len() - i,
    {
        let c = chars[i];
        let before = plain;
        if !(text::alphanumeric(c) || c == '_' || c == '.' || c == '/' || c == ':' || c == '-') {
            plain = false;
        }
        proof {
            let shorter = value@.take(i as int);
            let longer = value@.take(i + 1);
            assert(longer[i as int] == c);
            assert forall|j: int| 0 <= j < shorter.len() implies shorter[j] == longer[j] by {}
            if before {
                assert(all_plain(longer) == is_plain(c)) by {
                    assert forall|j: int|
                        0 <= j < longer.len() && is_plain(c) implies is_plain(
                        #[trigger] longer[j],
                    ) by {
                        if j < i {
                            assert(longer[j] == shorter[j]);
                        }
                    }
                }
            } else {
                let bad = choose|j: int|
                    0 <= j < shorter.len() && !is_plain(#[trigger] shorter[j]);
                assert(longer[bad] == shorter[bad]);
            }
        }
        i = i + 1;
    }
    assert(value@.take(i as int) =~= value@);
    if plain {
        return value.to_owned();
    }
    let mut out = String::new();
    out.push('\'');
    let mut k: usize = 0;
    assert(value@.skip(0) =~= value@);
    while k < chars.len()
        invariant
            k <= chars@.len(),
            chars@ == value@,
            out@ + quotes_escaped(value@.skip(k as int)) =~= seq!['\''] + quotes_escaped(value@),
        decreases chars@.len() - k,
    {
        assert(value@.skip(k as int).drop_first() =~= value@.skip(k + 1));
        let c = chars[k];
        if c == '\'' {
            out.push('\'');
            out.push('\\');
            out.push('\'');
            out.push('\'');
        } else {
            out.push(c);
        }
        k = k + 1;
    }
    assert(value@.skip(k as int) =~= Seq::<char>::empty());
    out.push('\'');
    out
}

/// How a shell reads a word: what stands between single quotes as it is, and outside of them a
/// character behind a backslash. `inside` says whether a quote is open. There is no word where a
/// quote stays open, a backslash ends it, or a character stands bare that a shell does not take as
/// it is.
pub open spec fn shell_word(s: Seq<char>, inside: bool) -> Option<Seq<char>>
    decreases s.len(),
{
    if s.len() == 0 {
        if inside {
            None
        } else {
            Some(s)
        }
    } else if s[0] == '\'' {
        shell_word(s.drop_first(), !inside)
    } else if !inside && s[0] == '\\' {
        if s.len() == 1 {
            None
        } else {
            put_before(s[1], shell_word(s.skip(2), inside))
        }
    } else if inside || is_plain(s[0]) {
        put_before(s[0], shell_word(s.drop_first(), inside))
    } else {
        None
    }
}

pub open spec fn put_before(c: char, rest: Option<Seq<char>>) -> Option<Seq<char>> {
    match rest {
        Some(rest) => Some(seq![c] + rest),
        None => None,
    }
}

proof fn escaped_reads_back(s: Seq<char>)
    ensures
        shell_word(quotes_escaped(s) + seq!['\''], true) == Some(s),
    decreases s.len(),
{
    let end = seq!['\''];
    if s.len() == 0 {
        let t = quotes_escaped(s) + end;
        assert(t.drop_first() =~= Seq::<char>::empty());
        assert(shell_word(t.drop_first(), false) == Some(Seq::<char>::empty()));
        assert(s =~= Seq::<char>::empty());
    } else {
        let rest = s.drop_first();
        escaped_reads_back(rest);
        let tail = quotes_escaped(rest) + end;
        assert(seq![s[0]] + rest =~= s);
        if s[0] == '\'' {
            let t = quotes_escaped(s) + end;
            assert(t =~= seq!['\'', '\\', '\'', '\''] + tail);
            let t1 = t.drop_first();
            assert(t1 =~= seq!['\\', '\'', '\''] + tail);
            let t2 = t1.skip(2);
            assert(t2 =~= seq!['\''] + tail);
            let t3 = t2.drop_first();
            assert(t3 =~= tail);
            assert(shell_word(t2, false) == shell_word(t3, true));
            assert(shell_word(t1, false) == put_before('\'', shell_word(t2, false)));
            assert(shell_word(t, true) == shell_word(t1, false));
        } else {
            let t = quotes_escaped(s) + end;
            assert(t =~= seq![s[0]] + tail);
            assert(t.drop_first() =~= tail);
            assert(shell_word(t, true) == put_before(s[0], shell_word(tail, true)));
        }
    }
}

/// A shell reads a quoted text as one word, which is the text.
pub proof fn a_shell_reads_the_text_back(s: Seq<char>)
    ensures
        shell_word(quoted(s), false) == Some(s),
    decreases s.len(),
{
    if all_plain(s) {
        if s.len() > 0 {
            let rest = s.drop_first();
            assert forall|i: int| 0 <= i < rest.len() implies is_plain(#[trigger] rest[i]) by {
                assert(rest[i] == s[i + 1]);
            }
            a_shell_reads_the_text_back(rest);
            assert(is_plain(s[0]));
            assert(seq![s[0]] + rest =~= s);
        }
    } else {
        let t = quoted(s);
        assert(t.drop_first() =~= quotes_escaped(s) + seq!['\'']);
        escaped_reads_back(s);
    }
}

/// How to replay a run.
pub open spec fn replay_hint(run_id: Seq<char>, path: Seq<char>) -> Seq<char> {
    "run_id: "@ + run_id + "\nledger_path: "@ + path + "\nreplay: plato replay --db="@ + quoted(
        path,
    ) + " --run "@ + run_id + "\n"@
}

/// How to replay a run.
pub fn sqlite_replay_hint(run_id: &str, path: &str) -> (result: String)
    ensures
        result@ == replay_hint(run_id@, path@),
{
    let mut hint = text::concat3("run_id: ", run_id, "\nledger_path: ");
    hint.append(path);
    hint.append("\nreplay: plato replay --db=");
    hint.append(shell_quote(path).as_str());
    hint.append(" --run ");
    hint.append(run_id);
    hint.append("\n");
    hint
}

/// What is printed of a run that came to its end: the answer, and, where the ledger can be
/// replayed, how.
pub fn run_success_output(outcome: &RunOutcome, ledger: &RunLedger) -> (result: Output)
    ensures
        result.stdout@ == outcome.final_answer@ + "\n"@,
        result.stderr@ == (match *ledger {
            RunLedger::Jsonl(_) => Seq::<char>::empty(),
            RunLedger::Sqlite(path) => replay_hint(outcome.run_id@, path@),
            RunLedger::DefaultSqlite(path) => replay_hint(outcome.run_id@, path@),
        }),
{
    let stderr = match ledger {
        RunLedger::Jsonl(_) => String::new(),
        RunLedger::Sqlite(path) => sqlite_replay_hint(outcome.run_id.as_str(), path.as_str()),
        RunLedger::DefaultSqlite(path) => sqlite_replay_hint(
            outcome.run_id.as_str(),
            path.as_str(),
        ),
    };
    Output { stdout: text::concat(outcome.final_answer.as_str(), "\n"), stderr }
}

/// What is printed of issue preparation: the candidate and where its files are, or why there is
/// none.
pub fn issue_prep_output(outcome: IssuePrepResult, run_dir: String) -> (result: Result<
    Output,
    AppError,
>)
    ensures
        match outcome {
            IssuePrepResult::Candidate { markdown } => result matches Ok(output) && output.stdout
                == markdown && output.stderr@ == "run_dir: "@ + run_dir@ + "\n"@,
            IssuePrepResult::Blocked { stage, reasons } => result matches Err(
                AppError::IssuePrepBlocked { stage: found, reasons: words, run_dir: dir },
            ) && found == stage && dir == run_dir && words@ == text::separated(reasons@, "; "@),
        },
{
    match outcome {
        IssuePrepResult::Candidate { markdown } => Ok(
            Output {
                stdout: markdown,
                stderr: text::concat3("run_dir: ", run_dir.as_str(), "\n"),
            },
        ),
        IssuePrepResult::Blocked { stage, reasons } => Err(
            AppError::IssuePrepBlocked { stage, reasons: text::separate(&reasons, "; "), run_dir },
        ),
    }
}

/// How to start the daemon that a gateway looks for.
pub open spec fn daemon_hint(socket: Option<Seq<char>>) -> Seq<char> {
    match socket {
        Some(socket) => "plato daemon --socket "@ + quoted(socket),
        None => "plato daemon"@,
    }
}

/// What a gateway reports where the daemon of the workspace cannot be used.
pub fn gateway_daemon_error(socket: &Option<String>, socket_path: &str, failed: &AppError) -> (result:
    AppError)
    ensures
        result matches AppError::Config(message) && message@
            == "workspace daemon is unavailable or incompatible at "@ + socket_path@ + ": "@
            + crate::error::error_text(*failed) + "; start it with `"@ + daemon_hint(
            match *socket {
                Some(socket) => Some(socket@),
                None => None,
            },
        ) + "`"@,
{
    let mut message = text::concat3(
        "workspace daemon is unavailable or incompatible at ",
        socket_path,
        ": ",
    );
    message.append(failed.message().as_str());
    message.append("; start it with `");
    match socket {
        Some(socket) => {
            message.append("plato daemon --socket ");
            message.append(shell_quote(socket.as_str()).as_str());
        },
        None => {
            message.append("plato daemon");
        },
    }
    message.append("`");
    AppError::Config(message)
}

} // verus!
