//! What holds of everything that clients read back of runs and sessions.

use crate::daemon::protocol::{
    ApprovalDecisionName, RunStateName, SessionSummary, TranscriptReadResult, TypedRun,
    TypedTranscriptEntry,
};
use crate::daemon::runtime::{self, DaemonRuntime, RunRecord};
use crate::daemon::transcripts::{
    self, latest_question_preview, read_run_transcript, read_session_transcript,
    session_summaries, typed_run, ReadbackEntry, SessionRunRecords, StoredSession, SummaryView,
};
use crate::error::AppError;
use vstd::prelude::*;

verus! {

/// Whether a run has not ended.
pub open spec fn on_its_way(record: RunRecord) -> bool {
    record.status.state == RunStateName::Running || record.status.state
        == RunStateName::CancelRequested
}

/// Whether a session is listed with a run.
pub open spec fn shows_run(session: SummaryView, record: RunRecord) -> bool {
    &&& session.session_id == record.session_id@
    &&& session.run_id == record.run_id@
    &&& session.status == record.status.state
    &&& session.ledger_path == record.ledger_path@
}

/// Whether a session is listed as it is stored.
pub open spec fn shows_stored(
    session: SummaryView,
    stored: StoredSession,
    ledger_path: Seq<char>,
) -> bool {
    &&& session.session_id == stored.session_id@
    &&& session.run_id == stored.run_id@
    &&& session.status == (if stored.status == RunStateName::Running {
        RunStateName::Interrupted
    } else {
        stored.status
    })
    &&& session.ledger_path == ledger_path
    &&& session.latest_question == transcripts::question_preview(stored.latest_question@)
}

proof fn index_found(sessions: Seq<SummaryView>, session_id: Seq<char>)
    ensures
        ({
            let i = transcripts::session_index(sessions, session_id);
            &&& 0 <= i <= sessions.len()
            &&& i < sessions.len() ==> sessions[i].session_id == session_id
        }),
    decreases sessions.len(),
{
    if sessions.len() > 0 && sessions[0].session_id != session_id {
        index_found(sessions.drop_first(), session_id);
    }
}

/// Adding a run leaves the other sessions as they are.
proof fn adding_keeps_others(sessions: Seq<SummaryView>, record: RunRecord, i: int)
    requires
        0 <= i < sessions.len(),
        !on_its_way(record) || sessions[i].session_id != record.session_id@,
    ensures
        exists|j: int|
            0 <= j < transcripts::with_run(sessions, record).len() && #[trigger] transcripts::with_run(
                sessions,
                record,
            )[j] == sessions[i],
{
    index_found(sessions, record.session_id@);
    let after = transcripts::with_run(sessions, record);
    let k = transcripts::session_index(sessions, record.session_id@);
    if !on_its_way(record) || k < sessions.len() {
        assert(after[i] == sessions[i]);
    } else {
        assert(after[i + 1] == sessions[i]);
    }
}

/// Adding a run that is on its way shows it.
proof fn adding_shows(sessions: Seq<SummaryView>, record: RunRecord)
    requires
        on_its_way(record),
    ensures
        exists|j: int|
            0 <= j < transcripts::with_run(sessions, record).len() && shows_run(
                #[trigger] transcripts::with_run(sessions, record)[j],
                record,
            ),
{
    index_found(sessions, record.session_id@);
    let after = transcripts::with_run(sessions, record);
    let k = transcripts::session_index(sessions, record.session_id@);
    if k < sessions.len() {
        assert(shows_run(after[k], record));
    } else {
        assert(shows_run(after[0], record));
    }
}

proof fn shown_after(sessions: Seq<SummaryView>, runs: Seq<RunRecord>, n: int, k: int)
    requires
        runtime::active_sessions_differ(runs),
        0 <= k < n <= runs.len(),
        on_its_way(runs[k]),
    ensures
        exists|j: int|
            0 <= j < transcripts::with_runs(sessions, runs.take(n)).len() && shows_run(
                #[trigger] transcripts::with_runs(sessions, runs.take(n))[j],
                runs[k],
            ),
    decreases n,
{
    assert(runs.take(n).drop_last() =~= runs.take(n - 1));
    assert(runs.take(n).last() == runs[n - 1]);
    let before = transcripts::with_runs(sessions, runs.take(n - 1));
    let after = transcripts::with_runs(sessions, runs.take(n));
    if k == n - 1 {
        adding_shows(before, runs[k]);
    } else {
        shown_after(sessions, runs, n - 1, k);
        let i = choose|i: int| 0 <= i < before.len() && shows_run(#[trigger] before[i], runs[k]);
        adding_keeps_others(before, runs[n - 1], i);
        let j = choose|j: int| 0 <= j < after.len() && #[trigger] after[j] == before[i];
        assert(shows_run(after[j], runs[k]));
    }
}

proof fn kept_after(sessions: Seq<SummaryView>, runs: Seq<RunRecord>, n: int, i: int)
    requires
        0 <= n <= runs.len(),
        0 <= i < sessions.len(),
        forall|k: int|
            0 <= k < runs.len() && on_its_way(#[trigger] runs[k]) ==> runs[k].session_id@
                != sessions[i].session_id,
    ensures
        exists|j: int|
            0 <= j < transcripts::with_runs(sessions, runs.take(n)).len() && #[trigger] transcripts::with_runs(
                sessions,
                runs.take(n),
            )[j] == sessions[i],
    decreases n,
{
    if n == 0 {
        assert(runs.take(0) =~= Seq::<RunRecord>::empty());
        assert(transcripts::with_runs(sessions, runs.take(n))[i] == sessions[i]);
    } else {
        kept_after(sessions, runs, n - 1, i);
        assert(runs.take(n).drop_last() =~= runs.take(n - 1));
        assert(runs.take(n).last() == runs[n - 1]);
        let before = transcripts::with_runs(sessions, runs.take(n - 1));
        let j = choose|j: int| 0 <= j < before.len() && #[trigger] before[j] == sessions[i];
        adding_keeps_others(before, runs[n - 1], j);
        let after = transcripts::with_runs(sessions, runs.take(n));
        let m = choose|m: int| 0 <= m < after.len() && #[trigger] after[m] == before[j];
        assert(after[m] == sessions[i]);
    }
}

proof fn known_after(
    sessions: Seq<SummaryView>,
    stored: Seq<StoredSession>,
    runs: Seq<RunRecord>,
    n: int,
)
    requires
        0 <= n <= runs.len(),
        sessions.len() == stored.len(),
        forall|i: int|
            0 <= i < sessions.len() ==> (#[trigger] sessions[i]).session_id
                == stored[i].session_id@,
    ensures
        forall|j: int|
            0 <= j < transcripts::with_runs(sessions, runs.take(n)).len() ==> known_session(
                (#[trigger] transcripts::with_runs(sessions, runs.take(n))[j]).session_id,
                stored,
                runs,
            ),
    decreases n,
{
    if n == 0 {
        assert(runs.take(0) =~= Seq::<RunRecord>::empty());
    } else {
        known_after(sessions, stored, runs, n - 1);
        assert(runs.take(n).drop_last() =~= runs.take(n - 1));
        assert(runs.take(n).last() == runs[n - 1]);
        let before = transcripts::with_runs(sessions, runs.take(n - 1));
        let after = transcripts::with_runs(sessions, runs.take(n));
        let record = runs[n - 1];
        index_found(before, record.session_id@);
        let k = transcripts::session_index(before, record.session_id@);
        assert forall|j: int| 0 <= j < after.len() implies known_session(
            (#[trigger] after[j]).session_id,
            stored,
            runs,
        ) by {
            if !on_its_way(record) || k < before.len() {
                assert(known_session(before[j].session_id, stored, runs));
                assert(after[j].session_id == before[j].session_id);
            } else if j > 0 {
                assert(known_session(before[j - 1].session_id, stored, runs));
                assert(after[j] == before[j - 1]);
            } else {
                assert(on_its_way(runs[n - 1]));
            }
        }
    }
}

/// Whether the ledger has a session, or a run is on its way in it.
pub open spec fn known_session(
    session_id: Seq<char>,
    stored: Seq<StoredSession>,
    runs: Seq<RunRecord>,
) -> bool {
    ||| exists|i: int| 0 <= i < stored.len() && (#[trigger] stored[i]).session_id@ == session_id
    ||| exists|k: int|
        0 <= k < runs.len() && on_its_way(#[trigger] runs[k]) && runs[k].session_id@ == session_id
}

/// Every run that is on its way is listed in its session, with its identifier, its state and its
/// ledger, whatever the ledger has of the session.
pub proof fn a_run_on_its_way_is_listed(
    daemon: &DaemonRuntime,
    stored: Vec<StoredSession>,
    listed: Vec<SessionSummary>,
    k: int,
)
    requires
        daemon.well_formed(),
        call_ensures(session_summaries, (daemon, stored), listed),
        0 <= k < daemon.runs@.len(),
        on_its_way(daemon.runs@[k]),
    ensures
        exists|j: int| 0 <= j < listed@.len() && shows_run((#[trigger] listed@[j])@, daemon.runs@[k]),
{
    let runs = daemon.runs@;
    let path = daemon.paths.ledger_path@;
    let base = stored@.map_values(
        |s: StoredSession| transcripts::stored_summary(s, runs, path),
    );
    assert(runs.take(runs.len() as int) =~= runs);
    shown_after(base, runs, runs.len() as int, k);
    let all = transcripts::views(listed@);
    let j = choose|j: int| 0 <= j < all.len() && shows_run(#[trigger] all[j], runs[k]);
    assert(listed@[j]@ == all[j]);
}

/// A stored session in which nothing is on its way is listed as it is stored, but that what seemed
/// to be running was interrupted.
pub proof fn a_stored_session_is_listed(
    daemon: &DaemonRuntime,
    stored: Vec<StoredSession>,
    listed: Vec<SessionSummary>,
    i: int,
)
    requires
        call_ensures(session_summaries, (daemon, stored), listed),
        0 <= i < stored@.len(),
        forall|k: int|
            0 <= k < daemon.runs@.len() && on_its_way(#[trigger] daemon.runs@[k])
                ==> daemon.runs@[k].session_id@ != stored@[i].session_id@,
    ensures
        exists|j: int|
            0 <= j < listed@.len() && shows_stored(
                (#[trigger] listed@[j])@,
                stored@[i],
                daemon.paths.ledger_path@,
            ),
{
    let runs = daemon.runs@;
    let path = daemon.paths.ledger_path@;
    let base = stored@.map_values(
        |s: StoredSession| transcripts::stored_summary(s, runs, path),
    );
    assert(runs.take(runs.len() as int) =~= runs);
    assert(base[i] == transcripts::stored_summary(stored@[i], runs, path));
    if transcripts::session_active(runs, stored@[i].session_id@) {
        let k = choose|k: int|
            0 <= k < runs.len() && runtime::runs_in_session(
                #[trigger] runs[k],
                stored@[i].session_id@,
            );
        assert(on_its_way(runs[k]));
    }
    kept_after(base, runs, runs.len() as int, i);
    let all = transcripts::views(listed@);
    let j = choose|j: int| 0 <= j < all.len() && #[trigger] all[j] == base[i];
    assert(listed@[j]@ == all[j]);
}

/// Nothing else is listed: every session in the list is stored, or has a run on its way.
pub proof fn only_known_sessions_are_listed(
    daemon: &DaemonRuntime,
    stored: Vec<StoredSession>,
    listed: Vec<SessionSummary>,
    j: int,
)
    requires
        call_ensures(session_summaries, (daemon, stored), listed),
        0 <= j < listed@.len(),
    ensures
        known_session(listed@[j].session_id@, stored@, daemon.runs@),
{
    let runs = daemon.runs@;
    let path = daemon.paths.ledger_path@;
    let base = stored@.map_values(
        |s: StoredSession| transcripts::stored_summary(s, runs, path),
    );
    assert(runs.take(runs.len() as int) =~= runs);
    known_after(base, stored@, runs, runs.len() as int);
    assert(transcripts::views(listed@)[j] == listed@[j]@);
}

proof fn first_line_is_a_start(s: Seq<char>, from: int)
    requires
        0 <= from <= s.len(),
    ensures
        from <= transcripts::line_end(s, from) <= s.len(),
        forall|i: int|
            from <= i < transcripts::line_end(s, from) ==> #[trigger] s[i] != '\n',
        transcripts::line_end(s, from) < s.len() ==> s[transcripts::line_end(s, from)] == '\n',
    decreases s.len() - from,
{
    if from < s.len() && s[from] != '\n' {
        first_line_is_a_start(s, from + 1);
    }
}

/// What is listed of a question is one line, of at most a hundred and twenty characters and the
/// mark of a cut; a question of one short line is listed whole.
pub proof fn a_question_is_listed_in_one_line(question: &str, shown: String)
    requires
        call_ensures(latest_question_preview, (question,), shown),
    ensures
        shown@.len() <= 123,
        !shown@.contains('\n'),
        shown@.len() <= 120 ==> shown@ == question@.take(shown@.len() as int),
        shown@.len() > 120 ==> shown@ == question@.take(120) + "..."@,
        question@.len() <= 120 && !question@.contains('\n') ==> shown@ == question@,
        forall|n: int|
            0 <= n <= 120 && n < question@.len() && question@[n] == '\n' && (forall|i: int|
                0 <= i < n ==> question@[i] != '\n' && question@[i] != '\r') ==> shown@
                == #[trigger] question@.take(n),
{
    reveal_strlit("...");
    let q = question@;
    first_line_is_a_start(q, 0);
    let end = transcripts::line_end(q, 0);
    let line = transcripts::first_line(q);
    assert(line.len() <= end);
    assert(line =~= q.take(line.len() as int));
    assert forall|i: int| 0 <= i < shown@.len() implies shown@[i] != '\n' by {
        if i < line.len() && i < 120 {
            assert(shown@[i] == q[i]);
        }
    }
    if q.len() <= 120 && !q.contains('\n') {
        if end < q.len() {
            assert(q.contains(q[end]));
        }
        assert(shown@ =~= q);
    }
    if line.len() > 120 {
        assert(line.take(120) =~= q.take(120));
    }
    assert forall|n: int|
        0 <= n <= 120 && n < q.len() && q[n] == '\n' && (forall|i: int|
            0 <= i < n ==> q[i] != '\n' && q[i] != '\r') implies shown@ == #[trigger] q.take(n) by {
        if end < n {
            assert(q[end] != '\n');
        }
        if n < end {
            assert(q[n] != '\n');
        }
        assert(end == n);
        if n > 0 {
            assert(q[n - 1] != '\r');
        }
    }
}

/// The transcript of a session is that of its latest run: identifier, state and answer are all of
/// the last run in the list, and every run of the list is told, in its place.
pub proof fn a_session_is_read_as_its_latest_run(
    session_id: &str,
    runs: Vec<SessionRunRecords>,
    transcript: String,
    read: TranscriptReadResult,
)
    requires
        call_ensures(
            read_session_transcript,
            (session_id, Some(runs), transcript),
            Ok::<TranscriptReadResult, AppError>(read),
        ),
    ensures
        runs@.len() > 0,
        read.run_id == runs@[runs@.len() - 1].run_id,
        read.status == runs@[runs@.len() - 1].status,
        read.final_answer == runs@[runs@.len() - 1].final_answer,
        read.transcript == transcript,
        read.pending_approval is None,
        read.typed matches Some(typed) && typed.runs@.len() == runs@.len() && forall|i: int|
            0 <= i < runs@.len() ==> (#[trigger] typed.runs@[i]).run_id == runs@[i].run_id
                && typed.runs@[i].status == runs@[i].status && typed.runs@[i].session_index
                == runs@[i].session_index,
{
}

/// The transcript of a run is of that run alone.
pub proof fn a_run_is_read_alone(
    run_id: &str,
    run: SessionRunRecords,
    transcript: String,
    read: Result<TranscriptReadResult, AppError>,
)
    requires
        call_ensures(read_run_transcript, (run_id, Some(run), transcript), read),
    ensures
        read matches Ok(told) && {
            &&& told.run_id == run.run_id
            &&& told.status == run.status
            &&& told.final_answer == run.final_answer
            &&& told.transcript == transcript
            &&& told.pending_approval is None
            &&& told.typed matches Some(typed) && typed.runs@.len() == 1 && typed.runs@[0].run_id
                == run.run_id && typed.runs@[0].status == run.status
        },
{
    if let Ok(told) = read {
        assert(transcripts::is_typed_run(told.typed->0.runs@[0], seq![run][0]));
    }
}

/// Whether an entry is for readers: what the model was given and what it failed at is not.
pub open spec fn for_readers(entry: ReadbackEntry) -> bool {
    !(entry is ContextFragment || entry is ContextCompacted || entry is ModelFailed
        || entry is ToolProposalsRejected)
}

/// Whether an entry for readers says what was kept: the same words of the same call, and of an
/// approval who decided and how.
pub open spec fn says(told: TypedTranscriptEntry, kept: ReadbackEntry) -> bool {
    match kept {
        ReadbackEntry::ModelMessage { content } => told == (TypedTranscriptEntry::Assistant {
            text: content,
        }),
        ReadbackEntry::ToolCall { call_id, tool, input } => told
            == (TypedTranscriptEntry::ToolCall { call_id, tool, input }),
        ReadbackEntry::ToolResult { call_id, summary } => told
            == (TypedTranscriptEntry::ToolResult { call_id, summary }),
        ReadbackEntry::PolicyDenied { call_id, reason } => told
            == (TypedTranscriptEntry::PolicyDenied { call_id, reason }),
        ReadbackEntry::ApprovalGranted { call_id, actor_id } => told
            == (TypedTranscriptEntry::Approval {
            call_id,
            decision: ApprovalDecisionName::Granted,
            actor_id,
            reason: None,
        }),
        ReadbackEntry::ApprovalDenied { call_id, actor_id, reason } => told
            == (TypedTranscriptEntry::Approval {
            call_id,
            decision: ApprovalDecisionName::Denied,
            actor_id,
            reason: Some(reason),
        }),
        ReadbackEntry::ToolFailed { call_id, reason } => told
            == (TypedTranscriptEntry::ToolFailed { call_id, error: reason }),
        _ => false,
    }
}

proof fn told_in_order(entries: Seq<ReadbackEntry>)
    ensures
        ({
            let kept = entries.filter(|entry: ReadbackEntry| for_readers(entry));
            let told = transcripts::told_all(entries);
            &&& told.len() == kept.len()
            &&& forall|i: int| 0 <= i < told.len() ==> says(#[trigger] told[i], kept[i])
        }),
    decreases entries.len(),
{
    reveal(Seq::filter);
    if entries.len() > 0 {
        told_in_order(entries.drop_last());
    }
}

/// A run is told by its question and then by what was kept of it for readers, one for one and in its
/// order.
pub proof fn a_run_is_told_as_it_was_kept(run: &SessionRunRecords, typed: TypedRun)
    requires
        call_ensures(typed_run, (run,), typed),
    ensures
        typed.run_id == run.run_id,
        typed.session_index == run.session_index,
        typed.status == run.status,
        ({
            let kept = run.entries@.filter(|entry: ReadbackEntry| for_readers(entry));
            &&& typed.entries@.len() == kept.len() + 1
            &&& typed.entries@[0] == (TypedTranscriptEntry::User { text: run.question })
            &&& forall|i: int|
                0 <= i < kept.len() ==> says(typed.entries@[i + 1], #[trigger] kept[i])
        }),
{
    told_in_order(run.entries@);
    let told = transcripts::told_all(run.entries@);
    assert forall|i: int| 0 <= i < told.len() implies typed.entries@[i + 1]
        == #[trigger] told[i] by {}
    let kept = run.entries@.filter(|entry: ReadbackEntry| for_readers(entry));
    assert forall|i: int| 0 <= i < kept.len() implies says(
        typed.entries@[i + 1],
        #[trigger] kept[i],
    ) by {
        assert(says(told[i], kept[i]));
    }
}

} // verus!
