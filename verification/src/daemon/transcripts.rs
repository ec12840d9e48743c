//! What clients read back: the sessions of a workspace and the runs of a session.

use crate::daemon::handlers;
use crate::daemon::protocol::{
    self, ApprovalDecisionName, Envelope, RunStateName, SessionSummary, TranscriptReadParams,
    TranscriptReadResult, TypedRun, TypedTranscript, TypedTranscriptEntry,
    ERROR_MALFORMED_REQUEST, ERROR_SESSIONS_LIST_FAILED,
};
use crate::daemon::runtime::{self, DaemonRuntime, RunRecord};
use crate::error::AppError;
use crate::{error, text};
use vstd::prelude::*;

verus! {

pub const LATEST_QUESTION_MAX_CHARS: usize = 120;

/// The index of the first line feed from `from` on, or the length.
pub open spec fn line_end(s: Seq<char>, from: int) -> int
    decreases s.len() - from,
{
    if from >= s.len() {
        s.len() as int
    } else if s[from] == '\n' {
        from
    } else {
        line_end(s, from + 1)
    }
}

/// The first line of a text, without what ends it: a line feed, or a carriage return and a line
/// feed.
pub open spec fn first_line(s: Seq<char>) -> Seq<char> {
    let end = line_end(s, 0);
    if 0 < end < s.len() && s[end - 1] == '\r' {
        s.take(end - 1)
    } else {
        s.take(end)
    }
}

/// What is shown of a question in a list: its first line, cut where it is long.
pub open spec fn question_preview(question: Seq<char>) -> Seq<char> {
    let line = first_line(question);
    if line.len() <= LATEST_QUESTION_MAX_CHARS {
        line
    } else {
        line.take(LATEST_QUESTION_MAX_CHARS as int) + "..."@
    }
}

/// What is shown of a question in a list.
pub fn latest_question_preview(question: &str) -> (result: String)
    ensures
        result@ == question_preview(question@),
{
    let chars = text::chars_of(question);
    let mut end: usize = 0;
    while end < chars.len() && chars[end] != '\n'
        invariant
            end <= chars.len(),
            chars@ == question@,
            line_end(question@, 0) == line_end(question@, end as int),
        decreases chars.len() - end,
    {
        end = end + 1;
    }
    assert(line_end(question@, end as int) == end);
    let stop: usize = if end > 0 && end < chars.len() && chars[end - 1] == '\r' {
        end - 1
    } else {
        end
    };
    let ghost line = first_line(question@);
    assert(question@.subrange(0, stop as int) =~= line);
    if stop <= LATEST_QUESTION_MAX_CHARS {
        return text::text_of(&chars, 0, stop);
    }
    assert(question@.subrange(0, LATEST_QUESTION_MAX_CHARS as int) =~= line.take(
        LATEST_QUESTION_MAX_CHARS as int,
    ));
    let mut out = text::text_of(&chars, 0, LATEST_QUESTION_MAX_CHARS);
    out.append("...");
    out
}

/// A session as the ledger keeps it.
#[derive(Debug, PartialEq, Eq)]
pub struct StoredSession {
    pub session_id: String,
    pub run_id: String,
    pub status: RunStateName,
    pub latest_question: String,
}

/// A session as a client sees it.
pub struct SummaryView {
    pub session_id: Seq<char>,
    pub run_id: Seq<char>,
    pub status: RunStateName,
    pub latest_question: Seq<char>,
    pub ledger_path: Seq<char>,
}

impl View for SessionSummary {
    type V = SummaryView;

    open spec fn view(&self) -> SummaryView {
        SummaryView {
            session_id: self.session_id@,
            run_id: self.run_id@,
            status: self.status,
            latest_question: self.latest_question@,
            ledger_path: self.ledger_path@,
        }
    }
}

/// Sessions as a client sees them.
pub open spec fn views(sessions: Seq<SessionSummary>) -> Seq<SummaryView> {
    sessions.map_values(|s: SessionSummary| s@)
}

/// A stored session: one that the ledger has as running is interrupted where no run is on its way
/// in it.
pub open spec fn stored_summary(
    stored: StoredSession,
    runs: Seq<RunRecord>,
    ledger_path: Seq<char>,
) -> SummaryView {
    SummaryView {
        session_id: stored.session_id@,
        run_id: stored.run_id@,
        status: if stored.status == RunStateName::Running && !session_active(
            runs,
            stored.session_id@,
        ) {
            RunStateName::Interrupted
        } else {
            stored.status
        },
        latest_question: question_preview(stored.latest_question@),
        ledger_path,
    }
}

/// Whether a run is on its way in a session.
pub open spec fn session_active(runs: Seq<RunRecord>, session_id: Seq<char>) -> bool {
    exists|i: int| 0 <= i < runs.len() && runtime::runs_in_session(#[trigger] runs[i], session_id)
}

/// The index of the first session with this identifier, or the length.
pub open spec fn session_index(sessions: Seq<SummaryView>, session_id: Seq<char>) -> int
    decreases sessions.len(),
{
    if sessions.len() == 0 {
        0
    } else if sessions[0].session_id == session_id {
        0
    } else {
        1 + session_index(sessions.drop_first(), session_id)
    }
}

/// Sessions with a run that is on its way: its session shows the run, and one that the ledger does
/// not have yet comes first.
pub open spec fn with_run(sessions: Seq<SummaryView>, record: RunRecord) -> Seq<SummaryView> {
    let i = session_index(sessions, record.session_id@);
    if !protocol::is_active(record.status.state) {
        sessions
    } else if i < sessions.len() {
        sessions.update(
            i,
            SummaryView {
                run_id: record.run_id@,
                status: record.status.state,
                ledger_path: record.ledger_path@,
                ..sessions[i]
            },
        )
    } else {
        seq![
            SummaryView {
                session_id: record.session_id@,
                run_id: record.run_id@,
                status: record.status.state,
                latest_question: Seq::empty(),
                ledger_path: record.ledger_path@,
            },
        ] + sessions
    }
}

/// Sessions with all the runs that are on their way.
pub open spec fn with_runs(sessions: Seq<SummaryView>, runs: Seq<RunRecord>) -> Seq<SummaryView>
    decreases runs.len(),
{
    if runs.len() == 0 {
        sessions
    } else {
        with_run(with_runs(sessions, runs.drop_last()), runs.last())
    }
}

/// The sessions of a workspace: those that the ledger keeps, with the runs that are on their way.
pub open spec fn summaries(
    stored: Seq<StoredSession>,
    runs: Seq<RunRecord>,
    ledger_path: Seq<char>,
) -> Seq<SummaryView> {
    with_runs(stored.map_values(|s: StoredSession| stored_summary(s, runs, ledger_path)), runs)
}

proof fn session_index_is_first(sessions: Seq<SummaryView>, session_id: Seq<char>, i: int)
    requires
        0 <= i <= sessions.len(),
        forall|j: int| 0 <= j < i ==> (#[trigger] sessions[j]).session_id != session_id,
        i < sessions.len() ==> sessions[i].session_id == session_id,
    ensures
        session_index(sessions, session_id) == i,
    decreases sessions.len(),
{
    if i > 0 {
        let rest = sessions.drop_first();
        assert(sessions[0].session_id != session_id);
        assert forall|j: int| 0 <= j < i - 1 implies (#[trigger] rest[j]).session_id
            != session_id by {
            assert(rest[j] == sessions[j + 1]);
        }
        session_index_is_first(rest, session_id, i - 1);
    }
}

/// The sessions that are shown as running before some of the runs were added have one on its way,
/// and so do those after.
proof fn running_after_adding(sessions: Seq<SummaryView>, runs: Seq<RunRecord>, n: int)
    requires
        0 <= n <= runs.len(),
        forall|i: int|
            0 <= i < sessions.len() && (#[trigger] sessions[i]).status == RunStateName::Running
                ==> session_active(runs, sessions[i].session_id),
    ensures
        forall|i: int|
            0 <= i < with_runs(sessions, runs.take(n)).len() && (#[trigger] with_runs(
                sessions,
                runs.take(n),
            )[i]).status == RunStateName::Running ==> session_active(
                runs,
                with_runs(sessions, runs.take(n))[i].session_id,
            ),
    decreases n,
{
    if n > 0 {
        running_after_adding(sessions, runs, n - 1);
        assert(runs.take(n).drop_last() =~= runs.take(n - 1));
        let before = with_runs(sessions, runs.take(n - 1));
        let record = runs[n - 1];
        let after = with_run(before, record);
        let k = session_index(before, record.session_id@);
        if k < before.len() {
            session_index_found(before, record.session_id@);
        }
        assert forall|i: int|
            0 <= i < after.len() && (#[trigger] after[i]).status
                == RunStateName::Running implies session_active(runs, after[i].session_id) by {
            if protocol::is_active(record.status.state) {
                assert(runtime::runs_in_session(runs[n - 1], record.session_id@));
                if k < before.len() {
                    if i != k {
                        assert(after[i] == before[i]);
                    }
                } else if i > 0 {
                    assert(after[i] == before[i - 1]);
                }
            } else {
                assert(after[i] == before[i]);
            }
        }
    } else {
        assert(runs.take(0) =~= Seq::<RunRecord>::empty());
    }
}

proof fn session_index_found(sessions: Seq<SummaryView>, session_id: Seq<char>)
    ensures
        0 <= session_index(sessions, session_id) <= sessions.len(),
        session_index(sessions, session_id) < sessions.len() ==> sessions[session_index(
            sessions,
            session_id,
        )].session_id == session_id,
    decreases sessions.len(),
{
    if sessions.len() > 0 && sessions[0].session_id != session_id {
        session_index_found(sessions.drop_first(), session_id);
    }
}

/// A session is shown as running only where a run is on its way in it, whatever the ledger says.
pub proof fn running_sessions_have_a_run(
    stored: Seq<StoredSession>,
    runs: Seq<RunRecord>,
    ledger_path: Seq<char>,
    i: int,
)
    requires
        0 <= i < summaries(stored, runs, ledger_path).len(),
        summaries(stored, runs, ledger_path)[i].status == RunStateName::Running,
    ensures
        session_active(runs, summaries(stored, runs, ledger_path)[i].session_id),
{
    let base = stored.map_values(|s: StoredSession| stored_summary(s, runs, ledger_path));
    assert(runs.take(runs.len() as int) =~= runs);
    running_after_adding(base, runs, runs.len() as int);
}

fn is_session_active(runs: &Vec<RunRecord>, session_id: &str) -> (result: bool)
    ensures
        result == session_active(runs@, session_id@),
{
    let mut i: usize = 0;
    while i < runs.len()
        invariant
            i <= runs.len(),
            forall|j: int|
                0 <= j < i ==> !runtime::runs_in_session(#[trigger] runs@[j], session_id@),
        decreases runs.len() - i,
    {
        if text::same(runs[i].session_id.as_str(), session_id) && runs[i].status.state.active() {
            assert(runtime::runs_in_session(runs@[i as int], session_id@));
            return true;
        }
        i = i + 1;
    }
    false
}

/// The sessions of a workspace. `stored` is what the ledger keeps.
pub fn session_summaries(daemon: &DaemonRuntime, stored: Vec<StoredSession>) -> (result: Vec<
    SessionSummary,
>)
    ensures
        views(result@) == summaries(stored@, daemon.runs@, daemon.paths.ledger_path@),
{
    let ghost path = daemon.paths.ledger_path@;
    let ghost base = stored@.map_values(
        |s: StoredSession| stored_summary(s, daemon.runs@, path),
    );
    let mut sessions: Vec<SessionSummary> = Vec::new();
    let mut i: usize = 0;
    while i < stored.len()
        invariant
            i <= stored.len(),
            path == daemon.paths.ledger_path@,
            sessions@.len() == i,
            forall|j: int|
                0 <= j < i ==> (#[trigger] sessions@[j])@ == stored_summary(
                    stored@[j],
                    daemon.runs@,
                    path,
                ),
        decreases stored.len() - i,
    {
        let session = &stored[i];
        let status = if session.status == RunStateName::Running && !is_session_active(
            &daemon.runs,
            session.session_id.as_str(),
        ) {
            RunStateName::Interrupted
        } else {
            session.status
        };
        sessions.push(
            SessionSummary {
                session_id: session.session_id.clone(),
                run_id: session.run_id.clone(),
                status,
                latest_question: latest_question_preview(session.latest_question.as_str()),
                ledger_path: daemon.paths.ledger_path.clone(),
            },
        );
        i = i + 1;
    }
    assert(views(sessions@) =~= base);
    let mut n: usize = 0;
    assert(daemon.runs@.take(0) =~= Seq::<RunRecord>::empty());
    while n < daemon.runs.len()
        invariant
            n <= daemon.runs@.len(),
            views(sessions@) == with_runs(base, daemon.runs@.take(n as int)),
        decreases daemon.runs@.len() - n,
    {
        assert(daemon.runs@.take(n + 1).drop_last() =~= daemon.runs@.take(n as int));
        assert(daemon.runs@.take(n + 1).last() == daemon.runs@[n as int]);
        add_run(&mut sessions, &daemon.runs[n]);
        n = n + 1;
    }
    assert(daemon.runs@.take(n as int) =~= daemon.runs@);
    sessions
}

/// Adds a run to the sessions, if it is on its way.
fn add_run(sessions: &mut Vec<SessionSummary>, record: &RunRecord)
    ensures
        views(final(sessions)@) == with_run(views(old(sessions)@), *record),
{
    let ghost before = views(sessions@);
    if !record.status.state.active() {
        return;
    }
    let mut i: usize = 0;
    while i < sessions.len()
        invariant
            i <= sessions@.len(),
            sessions@ == old(sessions)@,
            before == views(sessions@),
            protocol::is_active(record.status.state),
            forall|j: int|
                0 <= j < i ==> (#[trigger] before[j]).session_id != record.session_id@,
        decreases sessions@.len() - i,
    {
        assert(before[i as int] == sessions@[i as int]@);
        if text::same(sessions[i].session_id.as_str(), record.session_id.as_str()) {
            proof {
                session_index_is_first(before, record.session_id@, i as int);
            }
            sessions[i].run_id = record.run_id.clone();
            sessions[i].status = record.status.state;
            sessions[i].ledger_path = record.ledger_path.clone();
            assert(views(sessions@) =~= with_run(before, *record));
            return;
        }
        i = i + 1;
    }
    proof {
        session_index_is_first(before, record.session_id@, i as int);
    }
    sessions.insert(
        0,
        SessionSummary {
            session_id: record.session_id.clone(),
            run_id: record.run_id.clone(),
            status: record.status.state,
            latest_question: String::new(),
            ledger_path: record.ledger_path.clone(),
        },
    );
    assert(views(sessions@) =~= with_run(before, *record));
}

/// The sessions of a workspace, or the answer where the ledger cannot be read.
pub fn handle_sessions_list(
    daemon: &DaemonRuntime,
    id: Option<String>,
    stored: Result<Vec<StoredSession>, AppError>,
) -> (result: Result<Vec<SessionSummary>, Envelope>)
    ensures
        match stored {
            Ok(stored) => result matches Ok(sessions) && views(sessions@) == summaries(
                stored@,
                daemon.runs@,
                daemon.paths.ledger_path@,
            ),
            Err(error) => result matches Err(reply) && protocol::is_error(
                reply,
                id,
                Some("sessions.list"@),
                ERROR_SESSIONS_LIST_FAILED@,
                error::error_text(error),
            ),
        },
{
    match stored {
        Ok(stored) => Ok(session_summaries(daemon, stored)),
        Err(error) => {
            let message = error.message();
            Err(
                Envelope::error(
                    id,
                    Some("sessions.list".to_owned()),
                    ERROR_SESSIONS_LIST_FAILED,
                    message.as_str(),
                ),
            )
        },
    }
}

/// One thing that can be read back of a run.
#[derive(Debug, PartialEq, Eq)]
pub enum ReadbackEntry {
    ContextFragment,
    ContextCompacted,
    ModelFailed,
    ToolProposalsRejected,
    ModelMessage { content: String },
    ToolCall { call_id: String, tool: String, input: String },
    ToolResult { call_id: String, summary: String },
    PolicyDenied { call_id: String, reason: String },
    ApprovalGranted { call_id: String, actor_id: String },
    ApprovalDenied { call_id: String, actor_id: String, reason: String },
    ToolFailed { call_id: String, reason: String },
}

/// What a reader is told of an entry, if anything.
pub open spec fn told(entry: ReadbackEntry) -> Option<TypedTranscriptEntry> {
    match entry {
        ReadbackEntry::ContextFragment
        | ReadbackEntry::ContextCompacted
        | ReadbackEntry::ModelFailed
        | ReadbackEntry::ToolProposalsRejected => None,
        ReadbackEntry::ModelMessage { content } => Some(
            TypedTranscriptEntry::Assistant { text: content },
        ),
        ReadbackEntry::ToolCall { call_id, tool, input } => Some(
            TypedTranscriptEntry::ToolCall { call_id, tool, input },
        ),
        ReadbackEntry::ToolResult { call_id, summary } => Some(
            TypedTranscriptEntry::ToolResult { call_id, summary },
        ),
        ReadbackEntry::PolicyDenied { call_id, reason } => Some(
            TypedTranscriptEntry::PolicyDenied { call_id, reason },
        ),
        ReadbackEntry::ApprovalGranted { call_id, actor_id } => Some(
            TypedTranscriptEntry::Approval {
                call_id,
                decision: ApprovalDecisionName::Granted,
                actor_id,
                reason: None,
            },
        ),
        ReadbackEntry::ApprovalDenied { call_id, actor_id, reason } => Some(
            TypedTranscriptEntry::Approval {
                call_id,
                decision: ApprovalDecisionName::Denied,
                actor_id,
                reason: Some(reason),
            },
        ),
        ReadbackEntry::ToolFailed { call_id, reason } => Some(
            TypedTranscriptEntry::ToolFailed { call_id, error: reason },
        ),
    }
}

/// What a reader is told of some entries, in their order.
pub open spec fn told_all(entries: Seq<ReadbackEntry>) -> Seq<TypedTranscriptEntry>
    decreases entries.len(),
{
    if entries.len() == 0 {
        Seq::empty()
    } else {
        match told(entries.last()) {
            Some(entry) => told_all(entries.drop_last()).push(entry),
            None => told_all(entries.drop_last()),
        }
    }
}

fn tell(entry: &ReadbackEntry) -> (result: Option<TypedTranscriptEntry>)
    ensures
        result == told(*entry),
{
    match entry {
        ReadbackEntry::ContextFragment
        | ReadbackEntry::ContextCompacted
        | ReadbackEntry::ModelFailed
        | ReadbackEntry::ToolProposalsRejected => None,
        ReadbackEntry::ModelMessage { content } => Some(
            TypedTranscriptEntry::Assistant { text: content.clone() },
        ),
        ReadbackEntry::ToolCall { call_id, tool, input } => Some(
            TypedTranscriptEntry::ToolCall {
                call_id: call_id.clone(),
                tool: tool.clone(),
                input: input.clone(),
            },
        ),
        ReadbackEntry::ToolResult { call_id, summary } => Some(
            TypedTranscriptEntry::ToolResult {
                call_id: call_id.clone(),
                summary: summary.clone(),
            },
        ),
        ReadbackEntry::PolicyDenied { call_id, reason } => Some(
            TypedTranscriptEntry::PolicyDenied {
                call_id: call_id.clone(),
                reason: reason.clone(),
            },
        ),
        ReadbackEntry::ApprovalGranted { call_id, actor_id } => Some(
            TypedTranscriptEntry::Approval {
                call_id: call_id.clone(),
                decision: ApprovalDecisionName::Granted,
                actor_id: actor_id.clone(),
                reason: None,
            },
        ),
        ReadbackEntry::ApprovalDenied { call_id, actor_id, reason } => Some(
            TypedTranscriptEntry::Approval {
                call_id: call_id.clone(),
                decision: ApprovalDecisionName::Denied,
                actor_id: actor_id.clone(),
                reason: Some(reason.clone()),
            },
        ),
        ReadbackEntry::ToolFailed { call_id, reason } => Some(
            TypedTranscriptEntry::ToolFailed { call_id: call_id.clone(), error: reason.clone() },
        ),
    }
}

/// What a reader is told of a run: the question, and then its entries.
pub fn typed_entries(question: String, entries: &Vec<ReadbackEntry>) -> (result: Vec<
    TypedTranscriptEntry,
>)
    ensures
        result@ == seq![TypedTranscriptEntry::User { text: question }] + told_all(entries@),
{
    let mut out: Vec<TypedTranscriptEntry> = Vec::new();
    let ghost first = TypedTranscriptEntry::User { text: question };
    out.push(TypedTranscriptEntry::User { text: question });
    let mut i: usize = 0;
    assert(entries@.take(0) =~= Seq::<ReadbackEntry>::empty());
    assert(out@ =~= seq![first] + told_all(entries@.take(0)));
    while i < entries.len()
        invariant
            i <= entries.len(),
            out@ == seq![first] + told_all(entries@.take(i as int)),
        decreases entries.len() - i,
    {
        assert(entries@.take(i + 1).drop_last() =~= entries@.take(i as int));
        let ghost before = out@;
        if let Some(entry) = tell(&entries[i]) {
            out.push(entry);
            assert(out@ =~= seq![first] + told_all(entries@.take(i as int)).push(entry));
        }
        i = i + 1;
    }
    assert(entries@.take(i as int) =~= entries@);
    out
}

/// A run as the ledger keeps it, with what can be read back of it.
#[derive(Debug, PartialEq, Eq)]
pub struct SessionRunRecords {
    pub run_id: String,
    pub session_index: u64,
    pub status: RunStateName,
    pub question: String,
    pub final_answer: Option<String>,
    pub entries: Vec<ReadbackEntry>,
}

/// Whether a run was told as it is kept.
pub open spec fn is_typed_run(typed: TypedRun, run: SessionRunRecords) -> bool {
    &&& typed.run_id == run.run_id
    &&& typed.session_index == run.session_index
    &&& typed.status == run.status
    &&& typed.entries@ == seq![TypedTranscriptEntry::User { text: run.question }] + told_all(
        run.entries@,
    )
}

/// What a reader is told of a run.
pub fn typed_run(run: &SessionRunRecords) -> (result: TypedRun)
    ensures
        is_typed_run(result, *run),
{
    TypedRun {
        run_id: run.run_id.clone(),
        session_index: run.session_index,
        status: run.status,
        entries: typed_entries(run.question.clone(), &run.entries),
    }
}

/// Whether a transcript is that of a run, with some runs told in full.
pub open spec fn is_transcript(
    result: TranscriptReadResult,
    latest: SessionRunRecords,
    runs: Seq<SessionRunRecords>,
    transcript: String,
) -> bool {
    &&& result.run_id == latest.run_id
    &&& result.status == latest.status
    &&& result.final_answer == latest.final_answer
    &&& result.transcript == transcript
    &&& result.pending_approval is None
    &&& result.typed matches Some(typed) && {
        &&& typed.runs@.len() == runs.len()
        &&& forall|i: int|
            0 <= i < runs.len() ==> is_typed_run(#[trigger] typed.runs@[i], runs[i])
    }
}

/// The transcript of one run. `run` is what the ledger has of it: nothing where there is no ledger.
pub fn read_run_transcript(
    run_id: &str,
    run: Option<SessionRunRecords>,
    transcript: String,
) -> (result: Result<TranscriptReadResult, AppError>)
    ensures
        match run {
            Some(run) => result matches Ok(read) && is_transcript(read, run, seq![run], transcript),
            None => result matches Err(AppError::RunNotFound(name)) && name@ == run_id@,
        },
{
    match run {
        None => Err(AppError::RunNotFound(run_id.to_owned())),
        Some(run) => {
            let runs: Vec<TypedRun> = vec![typed_run(&run)];
            Ok(
                TranscriptReadResult {
                    run_id: run.run_id,
                    status: run.status,
                    final_answer: run.final_answer,
                    transcript,
                    typed: Some(TypedTranscript { runs }),
                    pending_approval: None,
                },
            )
        },
    }
}

/// The transcript of a session, told as that of its latest run. `runs` is what the ledger has of
/// it: nothing where there is no ledger.
pub fn read_session_transcript(
    session_id: &str,
    runs: Option<Vec<SessionRunRecords>>,
    transcript: String,
) -> (result: Result<TranscriptReadResult, AppError>)
    ensures
        match runs {
            Some(runs) => if runs@.len() > 0 {
                result matches Ok(read) && read.run_id == runs@.last().run_id && read.status
                    == runs@.last().status && read.final_answer == runs@.last().final_answer
                    && is_transcript(read, runs@.last(), runs@, transcript)
            } else {
                result matches Err(AppError::SessionNotFound(name)) && name@ == session_id@
            },
            None => result matches Err(AppError::SessionNotFound(name)) && name@ == session_id@,
        },
{
    let runs = match runs {
        Some(runs) => runs,
        None => return Err(AppError::SessionNotFound(session_id.to_owned())),
    };
    if runs.len() == 0 {
        return Err(AppError::SessionNotFound(session_id.to_owned()));
    }
    let mut typed: Vec<TypedRun> = Vec::new();
    let mut i: usize = 0;
    while i < runs.len()
        invariant
            i <= runs.len(),
            typed@.len() == i,
            forall|j: int| 0 <= j < i ==> is_typed_run(#[trigger] typed@[j], runs@[j]),
        decreases runs.len() - i,
    {
        typed.push(typed_run(&runs[i]));
        i = i + 1;
    }
    let latest = &runs[runs.len() - 1];
    Ok(
        TranscriptReadResult {
            run_id: latest.run_id.clone(),
            status: latest.status,
            final_answer: latest.final_answer.clone(),
            transcript,
            typed: Some(TypedTranscript { runs: typed }),
            pending_approval: None,
        },
    )
}

/// What a request for a transcript asks for.
#[derive(Debug, PartialEq, Eq)]
pub enum TranscriptOf {
    Run(String),
    Session(String),
}

/// What a request for a transcript asks for: a run, or else a session.
pub fn transcript_target(id: Option<String>, params: TranscriptReadParams) -> (result: Result<
    TranscriptOf,
    Envelope,
>)
    ensures
        match (params.run_id, params.session_id) {
            (Some(run_id), _) => result == Ok::<TranscriptOf, Envelope>(TranscriptOf::Run(run_id)),
            (None, Some(session_id)) => result == Ok::<TranscriptOf, Envelope>(
                TranscriptOf::Session(session_id),
            ),
            (None, None) => result matches Err(reply) && protocol::is_error(
                reply,
                id,
                Some("transcript.read"@),
                ERROR_MALFORMED_REQUEST@,
                "run_id or session_id is required"@,
            ),
        },
{
    match (params.run_id, params.session_id) {
        (Some(run_id), _) => Ok(TranscriptOf::Run(run_id)),
        (None, Some(session_id)) => Ok(TranscriptOf::Session(session_id)),
        (None, None) => Err(
            Envelope::error(
                id,
                Some("transcript.read".to_owned()),
                ERROR_MALFORMED_REQUEST,
                "run_id or session_id is required",
            ),
        ),
    }
}

/// A transcript with the call that waits in its run, or the answer where it could not be read.
pub fn handle_transcript_read(
    daemon: &DaemonRuntime,
    id: Option<String>,
    transcript: Result<TranscriptReadResult, AppError>,
) -> (result: Result<TranscriptReadResult, Envelope>)
    ensures
        match transcript {
            Ok(read) => result matches Ok(answer) && {
                &&& answer == (TranscriptReadResult {
                    pending_approval: answer.pending_approval,
                    ..read
                })
                &&& !runtime::has_run(daemon.runs@, read.run_id@) ==> answer.pending_approval
                    is None
                &&& runtime::has_run(daemon.runs@, read.run_id@) ==> answer.pending_approval == ({
                    let record = daemon.runs@[runtime::run_index(daemon.runs@, read.run_id@)];
                    let n = runtime::undecided_index(record.approvals@);
                    if record.cancel || record.status.state != RunStateName::Running || n
                        >= record.approvals@.len() {
                        None
                    } else {
                        Some(runtime::snapshot_of(record.approvals@[n].request))
                    }
                })
            },
            Err(error) => result matches Err(reply) && protocol::is_error(
                reply,
                id,
                Some("transcript.read"@),
                if error is RunNotFound || error is SessionNotFound || error is NoSqliteRuns
                    || error is NoSqliteSessions {
                    protocol::ERROR_NOT_FOUND@
                } else {
                    protocol::ERROR_INTERNAL@
                },
                error::error_text(error),
            ),
        },
{
    match transcript {
        Ok(read) => {
            let pending_approval = handlers::runtime_pending_approval(
                daemon,
                read.run_id.as_str(),
            );
            Ok(TranscriptReadResult { pending_approval, ..read })
        },
        Err(error) => {
            let code = handlers::transcript_error_code(&error);
            let message = error.message();
            Err(
                Envelope::error(
                    id,
                    Some("transcript.read".to_owned()),
                    code,
                    message.as_str(),
                ),
            )
        },
    }
}

} // verus!
