//! What holds of every prompt that a daemon answers, whatever the daemon and the terminal say.

use crate::cli::prompt::{
    self, approval_granted, pending_of, prompt_daemon_approval, prompt_request, reported_failure,
    ApprovalAsked, DaemonPrompt, PromptAction, PromptEvent, PromptObservation, PromptPage,
    PromptPhase, PromptRequest, PromptView,
};
use crate::daemon::client::DaemonClient;
use crate::daemon::handlers::Method;
use crate::daemon::protocol::{PendingApprovalSnapshot, RunStateName, TranscriptReadResult};
use crate::error::AppError;
use crate::json;
use crate::text;
use vstd::prelude::*;

verus! {

/// Whether two letters are the same but for their case.
pub open spec fn same_letter(c: char, letter: char) -> bool {
    text::lower(c) == letter
}

/// Whether a word is a yes, in small or large letters.
pub open spec fn is_yes(word: Seq<char>) -> bool {
    ||| word.len() == 1 && same_letter(word[0], 'y')
    ||| word.len() == 3 && same_letter(word[0], 'y') && same_letter(word[1], 'e') && same_letter(
        word[2],
        's',
    )
}

proof fn the_words_for_yes(line: Seq<char>)
    ensures
        prompt::says_yes(line) <==> is_yes(text::trimmed(line)),
{
    reveal_strlit("y");
    reveal_strlit("yes");
    let word = text::trimmed(line);
    let lowered = text::lower_all(word);
    assert(lowered.len() == word.len());
    if is_yes(word) {
        if word.len() == 1 {
            assert(lowered =~= "y"@);
        } else {
            assert(lowered =~= "yes"@);
        }
    }
    if lowered == "y"@ {
        assert(word.len() == 1);
        assert(lowered[0] == text::lower(word[0]));
        assert("y"@[0] == 'y');
    }
    if lowered == "yes"@ {
        assert(word.len() == 3);
        assert(lowered[0] == text::lower(word[0]) && lowered[1] == text::lower(word[1])
            && lowered[2] == text::lower(word[2]));
        assert("yes"@[0] == 'y' && "yes"@[1] == 'e' && "yes"@[2] == 's');
    }
}

/// A line grants exactly where, without the space around it, it is `y` or `yes` in letters of any
/// case.
pub proof fn only_a_yes_is_a_yes(line: &str, granted: bool)
    requires
        call_ensures(approval_granted, (line,), granted),
    ensures
        granted <==> is_yes(text::trimmed(line@)),
{
    the_words_for_yes(line@);
}

/// The line that answers a question grants or denies the call that was asked about, and no other.
pub proof fn an_answer_is_about_the_call_asked_about(
    before: DaemonPrompt,
    after: DaemonPrompt,
    line: String,
    action: PromptAction,
)
    requires
        before.phase is Asking,
        exists|x: &mut DaemonPrompt|
            *x == before && *final(x) == after && #[trigger] call_ensures(
                DaemonPrompt::step,
                (x, PromptObservation::Answered(line)),
                action,
            ),
    ensures
        action is Grant || action is Deny,
        action matches PromptAction::Grant { run_id, tool_call_id } ==> is_yes(
            text::trimmed(line@),
        ) && before.phase == (PromptPhase::Asking { run_id, tool_call_id }),
        action matches PromptAction::Deny { run_id, tool_call_id } ==> !is_yes(
            text::trimmed(line@),
        ) && before.phase == (PromptPhase::Asking { run_id, tool_call_id }),
        after@.events == before@.events && after@.status == before@.status && after@.from_offset
            == before@.from_offset,
{
    the_words_for_yes(line@);
}

/// The request goes on with the latest session exactly where that is asked for; it carries the
/// question and the configuration, changes no setting and does not wait.
pub proof fn a_prompt_is_asked_as_given(
    before: DaemonClient,
    after: DaemonClient,
    question: String,
    continue_session: bool,
    config_path: Option<String>,
    result: PromptRequest,
)
    requires
        before.next_id < u64::MAX,
        exists|x: &mut DaemonClient|
            *x == before && *final(x) == after && #[trigger] call_ensures(
                prompt_request,
                (x, question, continue_session, config_path),
                result,
            ),
    ensures
        continue_session <==> result is Append,
        result matches PromptRequest::Append(request) ==> {
            &&& request.method == Method::MessageAppend
            &&& request.params matches Some(params) && params.message == question
                && params.session_id is None && params.config_path == config_path
                && params.overrides.model is None && params.overrides.reasoning_effort is None
                && params.wait == Some(false)
        },
        result matches PromptRequest::Start(request) ==> {
            &&& request.method == Method::RunStart
            &&& request.params matches Some(params) && params.question == question
                && params.config_path == config_path && params.overrides.model is None
                && params.overrides.reasoning_effort is None && params.wait == Some(false)
        },
        after.next_id == before.next_id + 1,
{
}

/// An answer is printed as the run gave it, on a line of its own, and the hint names the run and
/// its ledger; where the run gave none, the prompt fails.
pub proof fn an_answer_is_printed_as_given(
    before: DaemonPrompt,
    after: DaemonPrompt,
    transcript: TranscriptReadResult,
    action: PromptAction,
)
    requires
        before.phase is ReadingAnswer,
        exists|x: &mut DaemonPrompt|
            *x == before && *final(x) == after && #[trigger] call_ensures(
                DaemonPrompt::step,
                (x, PromptObservation::Transcript(transcript)),
                action,
            ),
    ensures
        transcript.final_answer is Some <==> action is Finish,
        action matches PromptAction::Finish { stdout, stderr } ==> {
            &&& stdout@ == transcript.final_answer->0@ + "\n"@
            &&& stderr@.len() >= "run_id: "@.len() + before.run_id@.len()
            &&& stderr@.take(("run_id: "@ + before.run_id@).len() as int) == "run_id: "@
                + before.run_id@
            &&& text::contains(stderr@, "\nledger_path: "@ + before.ledger_path@)
        },
        transcript.final_answer is None ==> (action matches PromptAction::Fail(
            AppError::DaemonProtocol(message),
        ) && message@ == "finished daemon run "@ + before.run_id@ + " omitted its final answer"@),
        after.phase is Ended,
{
    if let PromptAction::Finish { stdout, stderr } = action {
        let run_id = before.run_id@;
        let path = before.ledger_path@;
        let start = "run_id: "@ + run_id;
        let named = "\nledger_path: "@ + path;
        assert(stderr@.take(start.len() as int) =~= start);
        assert(stderr@.subrange(start.len() as int, start.len() as int + named.len()) =~= named);
        assert(text::occurs_at(stderr@, named, start.len() as int));
    }
}

/// An error of the last action ends the prompt with that error.
pub proof fn an_error_ends_the_prompt(
    before: DaemonPrompt,
    after: DaemonPrompt,
    error: AppError,
    action: PromptAction,
)
    requires
        !(before.phase is Ended),
        exists|x: &mut DaemonPrompt|
            *x == before && *final(x) == after && #[trigger] call_ensures(
                DaemonPrompt::step,
                (x, PromptObservation::Failed(error)),
                action,
            ),
    ensures
        action == PromptAction::Fail(error),
        after.phase is Ended,
{
}

proof fn advancing_keeps_the_place(view: PromptView)
    ensures
        ({
            let after = prompt::advanced(view).0;
            &&& after.from_offset == view.from_offset
            &&& after.status == view.status
            &&& after.run_id == view.run_id
            &&& after.ledger_path == view.ledger_path
            &&& after.full_page == view.full_page
        }),
    decreases view.events.len(),
{
    if view.events.len() > 0 {
        let rest = PromptView { events: view.events.drop_first(), ..view };
        advancing_keeps_the_place(rest);
        if let PromptEvent::Ledger { record } = view.events[0] {
            if let Some(reason) = prompt::failure_reason(record@) {
                advancing_keeps_the_place(PromptView { terminal_failure: Some(reason), ..rest });
            }
        }
    }
}

/// A prompt stays with its run and its ledger. After a page the place where the next one starts and
/// the state of the run are those that the page gives.
pub proof fn a_page_gives_the_next_place(
    before: DaemonPrompt,
    after: DaemonPrompt,
    page: PromptPage,
    action: PromptAction,
)
    requires
        before.phase is Fetching,
        exists|x: &mut DaemonPrompt|
            *x == before && *final(x) == after && #[trigger] call_ensures(
                DaemonPrompt::step,
                (x, PromptObservation::Page(page)),
                action,
            ),
    ensures
        after.from_offset == Some(page.next_offset),
        after.status == page.status,
        after.full_page <==> page.events@.len() == 128,
        after.run_id == before.run_id,
        after.ledger_path == before.ledger_path,
{
    let taken = PromptView {
        from_offset: Some(page.next_offset),
        events: page.events@,
        full_page: page.events@.len() == 128,
        status: page.status,
        ..before@
    };
    advancing_keeps_the_place(taken);
    assert(after@.from_offset == after.from_offset && after@.run_id == after.run_id);
}

/// What comes first on a page is done first: some of the answer is shown as it stands, and a call
/// that waits for approval is looked up in its own run. The rest of the page stays for later.
pub proof fn a_page_is_taken_from_its_start(
    before: DaemonPrompt,
    after: DaemonPrompt,
    page: PromptPage,
    action: PromptAction,
)
    requires
        before.phase is Fetching,
        page.events@.len() > 0,
        exists|x: &mut DaemonPrompt|
            *x == before && *final(x) == after && #[trigger] call_ensures(
                DaemonPrompt::step,
                (x, PromptObservation::Page(page)),
                action,
            ),
    ensures
        page.events@[0] matches PromptEvent::Delta { text } ==> action == PromptAction::Show(text)
            && after@.events == page.events@.drop_first() && after.phase is ShowingDelta,
        page.events@[0] matches PromptEvent::Approval(asked) ==> action == (
        PromptAction::ReadTranscript { run_id: asked.run_id }) && after@.events
            == page.events@.drop_first() && after.phase == PromptPhase::ReadingApproval(asked),
{
}

/// Where a page brings nothing, its state decides: a run that goes on is waited for, the answer of a
/// finished one is read once the last line is ended, and the others end the prompt.
pub proof fn an_empty_page_goes_by_the_state(
    before: DaemonPrompt,
    after: DaemonPrompt,
    page: PromptPage,
    action: PromptAction,
)
    requires
        before.phase is Fetching,
        page.events@.len() == 0,
        exists|x: &mut DaemonPrompt|
            *x == before && *final(x) == after && #[trigger] call_ensures(
                DaemonPrompt::step,
                (x, PromptObservation::Page(page)),
                action,
            ),
    ensures
        action is Sleep <==> page.status == RunStateName::Running || page.status
            == RunStateName::CancelRequested,
        page.status == RunStateName::Finished && !before.open_line ==> action == (
        PromptAction::ReadTranscript { run_id: before.run_id }) && after.phase is ReadingAnswer,
        page.status == RunStateName::Finished && before.open_line ==> (
        action matches PromptAction::Show(line) && line@ == "\n"@) && after.phase is EndingLastLine,
        page.status == RunStateName::Canceled ==> action == PromptAction::Fail(
            AppError::RunCanceled,
        ),
        page.status == RunStateName::Failed || page.status == RunStateName::Interrupted ==> {
            &&& action matches PromptAction::Fail(AppError::RunFailed(reason)) && (
            before.terminal_failure matches Some(told) ==> reason@ == told@) && (
            before.terminal_failure is None && page.status == RunStateName::Failed ==> reason@
                == "daemon run "@ + before.run_id@ + " ended as "@ + "failed"@) && (
            before.terminal_failure is None && page.status == RunStateName::Interrupted ==> reason@
                == "daemon run "@ + before.run_id@ + " ended as "@ + "interrupted"@)
        },
{
}

/// After a wait the next page is asked for, of the same run and from where the last one ended.
pub proof fn a_wait_is_followed_by_the_next_page(
    before: DaemonPrompt,
    after: DaemonPrompt,
    action: PromptAction,
)
    requires
        before.phase is Sleeping,
        exists|x: &mut DaemonPrompt|
            *x == before && *final(x) == after && #[trigger] call_ensures(
                DaemonPrompt::step,
                (x, PromptObservation::Slept),
                action,
            ),
    ensures
        action == (PromptAction::FetchEvents {
            run_id: before.run_id,
            from_offset: before.from_offset,
        }),
        after.phase is Fetching,
{
}

/// Whether an entry of the ledger reports that the run failed, and why.
pub open spec fn tells_failure(event: PromptEvent, reason: Seq<char>) -> bool {
    event matches PromptEvent::Ledger { record } && json::string_in(
        json::json_at(record@, "/event/event"@),
    ) == Some("run_failed"@) && json::string_in(json::json_at(record@, "/event/reason"@)) == Some(
        reason,
    )
}

/// Whether an event is one that a prompt does nothing about but for keeping a failure in mind.
pub open spec fn is_quiet(event: PromptEvent) -> bool {
    event is Ledger || event is Other
}

proof fn the_last_failure_stays(view: PromptView, last: int, reason: Seq<char>)
    requires
        !view.full_page,
        !view.open_line,
        view.status == RunStateName::Failed,
        forall|i: int| 0 <= i < view.events.len() ==> is_quiet(#[trigger] view.events[i]),
        last < view.events.len(),
        last < 0 ==> view.terminal_failure == Some(reason),
        0 <= last ==> tells_failure(view.events[last], reason),
        forall|i: int, why: Seq<char>|
            last < i < view.events.len() && 0 <= i ==> !#[trigger] tells_failure(
                view.events[i],
                why,
            ),
    ensures
        prompt::advanced(view).1 == prompt::PromptActionView::RunFailed(reason),
    decreases view.events.len(),
{
    if view.events.len() > 0 {
        let first = view.events[0];
        let rest = PromptView { events: view.events.drop_first(), ..view };
        let kept = match first {
            PromptEvent::Ledger { record } => match prompt::failure_reason(record@) {
                Some(why) => PromptView { terminal_failure: Some(why), ..rest },
                None => rest,
            },
            _ => rest,
        };
        if let PromptEvent::Ledger { record } = first {
            if let Some(why) = prompt::failure_reason(record@) {
                assert(tells_failure(first, why));
            }
        }
        assert forall|i: int| 0 <= i < kept.events.len() implies is_quiet(
            #[trigger] kept.events[i],
        ) by {
            assert(kept.events[i] == view.events[i + 1]);
        }
        assert forall|i: int, why: Seq<char>|
            last - 1 < i < kept.events.len() && 0 <= i implies !#[trigger] tells_failure(
            kept.events[i],
            why,
        ) by {
            assert(kept.events[i] == view.events[i + 1]);
        }
        assert(is_quiet(view.events[0]));
        the_last_failure_stays(kept, if last < 0 { -1 } else { last - 1 }, reason);
    }
}

/// A prompt whose run failed ends with the last reason that the ledger gives on its page.
pub proof fn the_last_failure_is_told(
    before: DaemonPrompt,
    after: DaemonPrompt,
    page: PromptPage,
    last: int,
    reason: Seq<char>,
    action: PromptAction,
)
    requires
        before.phase is Fetching,
        !before.open_line,
        page.status == RunStateName::Failed,
        0 <= last < page.events@.len() < 128,
        forall|i: int| 0 <= i < page.events@.len() ==> is_quiet(#[trigger] page.events@[i]),
        tells_failure(page.events@[last], reason),
        forall|i: int, why: Seq<char>|
            last < i < page.events@.len() ==> !#[trigger] tells_failure(page.events@[i], why),
        exists|x: &mut DaemonPrompt|
            *x == before && *final(x) == after && #[trigger] call_ensures(
                DaemonPrompt::step,
                (x, PromptObservation::Page(page)),
                action,
            ),
    ensures
        action matches PromptAction::Fail(AppError::RunFailed(told)) && told@ == reason,
{
    let taken = PromptView {
        from_offset: Some(page.next_offset),
        events: page.events@,
        full_page: page.events@.len() == 128,
        status: page.status,
        ..before@
    };
    the_last_failure_stays(taken, last, reason);
}

/// A failure is reported with its reason by the entry that ends a run, and by no other.
pub proof fn a_failure_is_reported_by_its_entry(record: &str, result: Option<String>)
    requires
        call_ensures(reported_failure, (record,), result),
    ensures
        json::string_in(json::json_at(record@, "/event/event"@)) != Some("run_failed"@)
            ==> result is None,
        json::string_in(json::json_at(record@, "/event/event"@)) == Some("run_failed"@) ==> match (
            json::string_in(json::json_at(record@, "/event/reason"@)),
            result,
        ) {
            (Some(reason), Some(told)) => told@ == reason,
            (None, None) => true,
            _ => false,
        },
{
}

/// A call is asked about as the daemon has it pending where that is the same call, and else as its
/// event reported it.
pub proof fn the_call_asked_about_is_the_one_reported(
    asked: ApprovalAsked,
    found: Option<PendingApprovalSnapshot>,
    result: PendingApprovalSnapshot,
)
    requires
        call_ensures(pending_of, (asked, found), result),
    ensures
        result.tool_call_id@ == asked.tool_call_id@,
        found matches Some(pending) && pending.tool_call_id@ == asked.tool_call_id@ ==> result
            == found->0,
        found is None || found->0.tool_call_id@ != asked.tool_call_id@ ==> {
            &&& result.run_id == asked.run_id
            &&& result.tool_name == asked.tool_name
            &&& result.effect == asked.effect
            &&& result.reason == Some(asked.reason)
            &&& result.input_preview is None
            &&& result.approval_preview == asked.approval_preview
            &&& result.diff_preview == asked.diff_preview
        },
{
}

/// The question about a call names its tool, shows the preview if there is one and else the input,
/// and offers a no.
pub proof fn a_question_shows_the_call(pending: &PendingApprovalSnapshot, question: String)
    requires
        call_ensures(prompt_daemon_approval, (pending,), question),
    ensures
        question@.len() >= 8 + pending.tool_name@.len(),
        question@.take(8 + pending.tool_name@.len() as int) == "Approve "@ + pending.tool_name@,
        question@.skip(question@.len() - 6) == "[y/N] "@,
        pending.approval_preview matches Some(preview) ==> text::contains(
            question@,
            "?\n"@ + preview@ + "\n"@,
        ),
        pending.approval_preview is None ==> (pending.input_preview matches Some(preview)
            ==> text::contains(question@, " "@ + preview@ + "? "@)),
        pending.approval_preview is None && pending.input_preview is None ==> question@
            == "Approve "@ + pending.tool_name@ + "? [y/N] "@,
{
    reveal_strlit("Approve ");
    reveal_strlit("?\n");
    reveal_strlit("\n");
    reveal_strlit(" ");
    reveal_strlit("? ");
    reveal_strlit("\n[y/N] ");
    reveal_strlit("? [y/N] ");
    reveal_strlit("[y/N] ");
    let name = pending.tool_name@;
    let start = "Approve "@ + name;
    assert(question@.take(8 + name.len() as int) =~= start);
    assert(question@.skip(question@.len() - 6) =~= "[y/N] "@);
    if let Some(preview) = pending.approval_preview {
        let shown = "?\n"@ + preview@ + "\n"@;
        assert(question@.subrange(start.len() as int, start.len() as int + shown.len()) =~= shown);
        assert(text::occurs_at(question@, shown, start.len() as int));
    } else if let Some(preview) = pending.input_preview {
        let shown = " "@ + preview@ + "? "@;
        assert(question@.subrange(start.len() as int, start.len() as int + shown.len()) =~= shown);
        assert(text::occurs_at(question@, shown, start.len() as int));
    }
}

/// The question that is put is the one about the call that its event reported: of the daemon's
/// pending call only where that is the same.
pub proof fn a_reported_call_is_asked_about(
    before: DaemonPrompt,
    after: DaemonPrompt,
    asked: ApprovalAsked,
    transcript: TranscriptReadResult,
    pending: PendingApprovalSnapshot,
    question: String,
    action: PromptAction,
)
    requires
        before.phase == PromptPhase::ReadingApproval(asked),
        call_ensures(pending_of, (asked, transcript.pending_approval), pending),
        call_ensures(prompt_daemon_approval, (&pending,), question),
        exists|x: &mut DaemonPrompt|
            *x == before && *final(x) == after && #[trigger] call_ensures(
                DaemonPrompt::step,
                (x, PromptObservation::Transcript(transcript)),
                action,
            ),
    ensures
        action matches PromptAction::Ask(put) && put@ == question@,
        after.phase == (PromptPhase::Asking {
            run_id: asked.run_id,
            tool_call_id: asked.tool_call_id,
        }),
{
}

} // verus!
