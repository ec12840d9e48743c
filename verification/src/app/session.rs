//! What a run is asked to do, the session that it belongs to, and the names that it gets.

use crate::app::model::RunOverrides;
use crate::app::policy::ApprovalMode;
use crate::app::run::HarnessEvent;
use crate::error::AppError;
use crate::tool_catalog::EffectClass;
use crate::{error, text};
use vstd::prelude::*;

verus! {

/// The session that a run opens or goes on with.
#[derive(Debug, PartialEq, Eq)]
pub enum RunSession {
    Fresh { session_id: String },
    Continue { session_id: String },
}

/// The identifier of a session.
pub open spec fn session_text(session: RunSession) -> Seq<char> {
    match session {
        RunSession::Fresh { session_id } => session_id@,
        RunSession::Continue { session_id } => session_id@,
    }
}

impl RunSession {
    pub fn session_id(&self) -> (result: &str)
        ensures
            result@ == session_text(*self),
    {
        match self {
            RunSession::Fresh { session_id } => session_id.as_str(),
            RunSession::Continue { session_id } => session_id.as_str(),
        }
    }

    /// Whether the session is created with the run.
    pub fn create_session(&self) -> (result: bool)
        ensures
            result == (self is Fresh),
    {
        matches!(self, RunSession::Fresh { .. })
    }
}

/// Where the entries of a run go.
#[derive(Debug, PartialEq, Eq)]
pub enum RunLedger {
    Jsonl(String),
    Sqlite(String),
    DefaultSqlite(String),
}

#[derive(Debug)]
pub struct RunOptions {
    pub question: String,
    pub config_path: Option<String>,
    pub overrides: RunOverrides,
    pub ledger: RunLedger,
    pub workspace_root: String,
    pub approval_mode: ApprovalMode,
    pub run_id: Option<String>,
    pub session: Option<RunSession>,
    pub stream_to_stderr: bool,
}

#[derive(Debug, PartialEq, Eq)]
pub struct RunOutcome {
    pub run_id: String,
    pub final_answer: String,
}

/// What a run tells those who watch it.
#[derive(Debug, PartialEq, Eq)]
pub enum RunEvent {
    Ledger(HarnessEvent),
    AssistantDelta(AssistantDeltaEvent),
}

/// A piece of the model's answer, shown as it comes in and kept nowhere.
#[derive(Debug, PartialEq, Eq)]
pub struct AssistantDeltaEvent {
    pub run_id: String,
    pub turn_id: String,
    pub step: u32,
    pub delta_index: u64,
    pub text: String,
}

/// What somebody who decides on a call is shown of it.
#[derive(Debug, PartialEq, Eq)]
pub struct ApprovalRequest {
    pub run_id: String,
    pub call_id: String,
    pub tool_name: String,
    pub effect: EffectClass,
    pub reason: String,
    pub input_preview: Option<String>,
    pub approval_preview: Option<String>,
    pub diff_preview: Option<String>,
}

impl Clone for ApprovalRequest {
    fn clone(&self) -> (result: Self)
        ensures
            result == *self,
    {
        ApprovalRequest {
            run_id: self.run_id.clone(),
            call_id: self.call_id.clone(),
            tool_name: self.tool_name.clone(),
            effect: self.effect,
            reason: self.reason.clone(),
            input_preview: self.input_preview.clone(),
            approval_preview: self.approval_preview.clone(),
            diff_preview: self.diff_preview.clone(),
        }
    }
}

/// Refuses a question without any text in it.
pub fn check_question(question: &str) -> (result: Result<(), AppError>)
    ensures
        result == (if text::is_blank(question@) {
            Err::<(), AppError>(AppError::EmptyQuestion)
        } else {
            Ok(())
        }),
{
    if text::blank(question) {
        Err(AppError::EmptyQuestion)
    } else {
        Ok(())
    }
}

/// Whether a run belongs to a session; a session needs a ledger that can hold one.
pub fn uses_session(ledger: &RunLedger, session: &Option<RunSession>) -> (result: Result<
    bool,
    AppError,
>)
    ensures
        if ledger is Jsonl && session is Some {
            error::refused_with(result, "sessions require a SQLite ledger"@)
        } else {
            result == Ok::<bool, AppError>(session is Some)
        },
{
    match (ledger, session) {
        (RunLedger::Jsonl(_), Some(_)) => Err(
            error::config_error("sessions require a SQLite ledger"),
        ),
        (_, Some(_)) => Ok(true),
        (_, None) => Ok(false),
    }
}

/// Whether the answer is shown while it comes in: where there is anybody to show it to.
pub fn stream_enabled(stream_to_stderr: bool, watched: bool) -> (result: bool)
    ensures
        result == (stream_to_stderr || watched),
{
    stream_to_stderr || watched
}

/// What to do with a piece of the answer.
#[derive(Debug, PartialEq, Eq)]
pub enum DeltaStep {
    /// The run is to be canceled: stop reading.
    Cancel,
    /// The piece is empty.
    Skip,
    /// Show the piece, with its place among those that were shown.
    Emit { delta_index: u64 },
}

/// Counts the pieces of an answer that were shown.
#[derive(Debug, PartialEq, Eq)]
pub struct DeltaCounter {
    pub emitted: u64,
}

impl DeltaCounter {
    pub fn new() -> (result: Self)
        ensures
            result.emitted == 0,
    {
        DeltaCounter { emitted: 0 }
    }

    /// Decides on a piece that came in.
    pub fn observe(&mut self, cancel_requested: bool, piece: &str) -> (result: DeltaStep)
        requires
            old(self).emitted < u64::MAX,
        ensures
            result == (if cancel_requested {
                DeltaStep::Cancel
            } else if piece@.len() == 0 {
                DeltaStep::Skip
            } else {
                DeltaStep::Emit { delta_index: old(self).emitted }
            }),
            final(self).emitted == old(self).emitted + (if result is Emit {
                1int
            } else {
                0
            }),
    {
        if cancel_requested {
            return DeltaStep::Cancel;
        }
        if piece.is_empty() {
            return DeltaStep::Skip;
        }
        let delta_index = self.emitted;
        self.emitted = self.emitted + 1;
        DeltaStep::Emit { delta_index }
    }
}

/// A run as its session sees it: it is open until it is marked as finished or failed.
#[derive(Debug, PartialEq, Eq)]
pub struct ActiveSessionRun {
    pub run_id: String,
    pub closed: bool,
}

impl ActiveSessionRun {
    pub fn begin(run_id: String) -> (result: Self)
        ensures
            result == (ActiveSessionRun { run_id, closed: false }),
    {
        ActiveSessionRun { run_id, closed: false }
    }

    /// The session has stored the answer.
    pub fn finish(&mut self)
        ensures
            *final(self) == (ActiveSessionRun { closed: true, ..*old(self) }),
    {
        self.closed = true;
    }

    /// The session has marked the run as failed.
    pub fn fail(&mut self)
        ensures
            *final(self) == (ActiveSessionRun { closed: true, ..*old(self) }),
    {
        self.closed = true;
    }

    /// What the session is told of a run that is dropped: nothing if it was closed.
    pub fn abandoned(&self) -> (result: Option<&'static str>)
        ensures
            match result {
                Some(words) => !self.closed && words@
                    == "run ended before session status was closed"@,
                None => self.closed,
            },
    {
        if self.closed {
            None
        } else {
            Some("run ended before session status was closed")
        }
    }
}

/// The moment and the place at which an identifier is made.
#[derive(Clone, Copy, Debug, PartialEq, Eq, Structural)]
pub struct IdStamp {
    pub millis: u128,
    pub process: u32,
    pub sequence: u64,
}

/// Hands out the stamps of a process, each with the next sequence number. After the last number
/// comes the first one again.
#[derive(Debug, PartialEq, Eq)]
pub struct IdCounter {
    pub next: u64,
}

/// The stamp that a counter hands out, and the counter after that.
pub open spec fn next_stamp(counter: IdCounter, millis: u128, process: u32) -> (IdStamp, IdCounter) {
    (
        IdStamp { millis, process, sequence: counter.next },
        IdCounter {
            next: if counter.next == u64::MAX {
                0
            } else {
                (counter.next + 1) as u64
            },
        },
    )
}

/// A counter after it was asked so many times.
pub open spec fn counter_after(counter: IdCounter, asked: Seq<(u128, u32)>) -> IdCounter
    decreases asked.len(),
{
    if asked.len() == 0 {
        counter
    } else {
        let last = asked.last();
        next_stamp(counter_after(counter, asked.drop_last()), last.0, last.1).1
    }
}

/// The stamp that a counter hands out the `i`-th time that it is asked.
pub open spec fn stamp_at(counter: IdCounter, asked: Seq<(u128, u32)>, i: int) -> IdStamp {
    next_stamp(counter_after(counter, asked.take(i)), asked[i].0, asked[i].1).0
}

impl IdCounter {
    pub fn new() -> (result: Self)
        ensures
            result.next == 0,
    {
        IdCounter { next: 0 }
    }

    /// The stamp of an identifier that is made at a moment, in a process.
    pub fn stamp(&mut self, millis: u128, process: u32) -> (result: IdStamp)
        ensures
            (result, *final(self)) == next_stamp(*old(self), millis, process),
    {
        let sequence = self.next;
        self.next = self.next.wrapping_add(1);
        IdStamp { millis, process, sequence }
    }
}

/// An identifier.
pub open spec fn id_text(prefix: Seq<char>, stamp: IdStamp) -> Seq<char> {
    prefix + "_"@ + text::decimal(stamp.millis as nat) + "_"@ + text::decimal(stamp.process as nat)
        + "_"@ + text::decimal(stamp.sequence as nat)
}

fn generated_id(prefix: &str, stamp: IdStamp) -> (result: String)
    ensures
        result@ == id_text(prefix@, stamp),
{
    let millis = text::to_decimal_wide(stamp.millis);
    let process = text::to_decimal(stamp.process as u64);
    let sequence = text::to_decimal(stamp.sequence);
    let mut out = text::concat3(prefix, "_", millis.as_str());
    out.append("_");
    out.append(process.as_str());
    out.append("_");
    out.append(sequence.as_str());
    out
}

/// An identifier for a run.
pub fn new_run_id(stamp: IdStamp) -> (result: String)
    ensures
        result@ == id_text("run"@, stamp),
{
    generated_id("run", stamp)
}

/// An identifier for a session.
pub fn new_session_id(stamp: IdStamp) -> (result: String)
    ensures
        result@ == id_text("session"@, stamp),
{
    generated_id("session", stamp)
}

/// Identifiers that were made under different sequence numbers differ, whatever else they were
/// made from.
pub proof fn ids_are_unique(
    first_prefix: Seq<char>,
    first: IdStamp,
    second_prefix: Seq<char>,
    second: IdStamp,
)
    requires
        first.sequence != second.sequence,
    ensures
        id_text(first_prefix, first) != id_text(second_prefix, second),
{
    text::numbered_texts_differ(
        first_prefix + "_"@ + text::decimal(first.millis as nat) + "_"@ + text::decimal(
            first.process as nat,
        ),
        first.sequence as nat,
        second_prefix + "_"@ + text::decimal(second.millis as nat) + "_"@ + text::decimal(
            second.process as nat,
        ),
        second.sequence as nat,
    );
}

proof fn counts_up(counter: IdCounter, asked: Seq<(u128, u32)>)
    requires
        asked.len() <= u64::MAX,
    ensures
        ({
            let count = counter.next + asked.len();
            counter_after(counter, asked).next == (if count <= u64::MAX {
                count
            } else {
                count - u64::MAX - 1
            })
        }),
    decreases asked.len(),
{
    if asked.len() > 0 {
        counts_up(counter, asked.drop_last());
    }
}

/// Any two identifiers of a process differ, however close to each other they were made and whatever
/// they are for, as long as there are sequence numbers for all of them.
pub proof fn counted_ids_are_unique(
    counter: IdCounter,
    asked: Seq<(u128, u32)>,
    i: int,
    j: int,
    first_prefix: Seq<char>,
    second_prefix: Seq<char>,
)
    requires
        asked.len() <= u64::MAX,
        0 <= i < j < asked.len(),
    ensures
        id_text(first_prefix, stamp_at(counter, asked, i)) != id_text(
            second_prefix,
            stamp_at(counter, asked, j),
        ),
{
    counts_up(counter, asked.take(i));
    counts_up(counter, asked.take(j));
    ids_are_unique(
        first_prefix,
        stamp_at(counter, asked, i),
        second_prefix,
        stamp_at(counter, asked, j),
    );
}

/// An identifier starts with what it is for.
pub proof fn ids_start_with_their_kind(prefix: Seq<char>, stamp: IdStamp)
    ensures
        (prefix + "_"@).is_prefix_of(id_text(prefix, stamp)),
{
    let id = id_text(prefix, stamp);
    let n = (prefix + "_"@).len() as int;
    assert(id.subrange(0, n) =~= prefix + "_"@);
}

} // verus!
