//! A prompt that a daemon answers: its events are shown as they come, and its approvals are asked
//! for. The caller performs one action after the other and reports what came of it.

use crate::app::model::RunOverrides;
use crate::cli::output;
use crate::cli::output::sqlite_replay_hint;
use crate::daemon::client;
use crate::daemon::client::{ClientRequest, DaemonClient};
use crate::daemon::handlers::Method;
use crate::daemon::protocol;
use crate::daemon::protocol::{
    MessageAppendParams, PendingApprovalSnapshot, RunStartParams, RunStateName, TranscriptReadResult,
};
use crate::error::AppError;
use crate::json;
use crate::text;
use crate::tool_catalog::EffectClass;
use std::collections::VecDeque;
use vstd::prelude::*;

verus! {

/// The most events in one page.
pub const DAEMON_EVENT_PAGE: usize = 128;

/// Why an approval that is not given on the terminal is denied.
pub const STDIN_DENIAL: &'static str = "approval denied by stdin";

/// The request that starts the run of a prompt.
#[derive(Debug)]
pub enum PromptRequest {
    Start(ClientRequest<RunStartParams>),
    Append(ClientRequest<MessageAppendParams>),
}

/// The request that starts the run of a prompt: in the latest session, or in a new one.
pub fn prompt_request(
    client: &mut DaemonClient,
    question: String,
    continue_session: bool,
    config_path: Option<String>,
) -> (result: PromptRequest)
    requires
        old(client).next_id < u64::MAX,
    ensures
        if continue_session {
            result matches PromptRequest::Append(request) && client::requested(
                *old(client),
                *final(client),
                request,
                Method::MessageAppend,
            ) && request.params == Some(
                MessageAppendParams {
                    message: question,
                    session_id: None,
                    config_path,
                    overrides: RunOverrides { model: None, reasoning_effort: None },
                    wait: Some(false),
                },
            )
        } else {
            result matches PromptRequest::Start(request) && client::requested(
                *old(client),
                *final(client),
                request,
                Method::RunStart,
            ) && request.params == Some(
                RunStartParams {
                    question,
                    config_path,
                    overrides: RunOverrides { model: None, reasoning_effort: None },
                    wait: Some(false),
                },
            )
        },
{
    if continue_session {
        PromptRequest::Append(client.message_append(question, config_path, false))
    } else {
        PromptRequest::Start(client.run_start(question, config_path, false))
    }
}

/// A call that waits for approval, as its event reports it.
#[derive(Debug, PartialEq, Eq)]
pub struct ApprovalAsked {
    pub run_id: String,
    pub tool_call_id: String,
    pub tool_name: String,
    pub effect: EffectClass,
    pub reason: String,
    pub approval_preview: Option<String>,
    pub diff_preview: Option<String>,
}

/// An event of the run, as far as a prompt looks at it. An entry of the ledger is JSON.
#[derive(Debug, PartialEq, Eq)]
pub enum PromptEvent {
    Delta { text: String },
    Approval(ApprovalAsked),
    Ledger { record: String },
    Other,
}

/// A page of events.
#[derive(Debug, PartialEq, Eq)]
pub struct PromptPage {
    pub next_offset: u64,
    pub status: RunStateName,
    pub events: Vec<PromptEvent>,
}

/// What to do next.
#[derive(Debug, PartialEq, Eq)]
pub enum PromptAction {
    FetchEvents { run_id: String, from_offset: Option<u64> },
    /// Write to the standard error at once.
    Show(String),
    ReadTranscript { run_id: String },
    /// Write to the standard error, and read a line.
    Ask(String),
    Grant { run_id: String, tool_call_id: String },
    Deny { run_id: String, tool_call_id: String },
    Sleep,
    /// Write the answer to the standard output and the rest to the standard error.
    Finish { stdout: String, stderr: String },
    Fail(AppError),
}

/// What came of an action.
#[derive(Debug, PartialEq, Eq)]
pub enum PromptObservation {
    Page(PromptPage),
    Shown,
    Transcript(TranscriptReadResult),
    Answered(String),
    Decided,
    Slept,
    Failed(AppError),
}

/// What the last action was for.
#[derive(Debug, PartialEq, Eq)]
pub enum PromptPhase {
    Fetching,
    /// Some of the answer is shown.
    ShowingDelta,
    /// A line that was shown is ended.
    EndingLine,
    ReadingApproval(ApprovalAsked),
    Asking { run_id: String, tool_call_id: String },
    Deciding,
    Sleeping,
    /// The last line that was shown is ended.
    EndingLastLine,
    ReadingAnswer,
    Ended,
}

/// A prompt that a daemon answers.
#[derive(Debug)]
pub struct DaemonPrompt {
    pub run_id: String,
    pub ledger_path: String,
    pub from_offset: Option<u64>,
    /// What is left of the page.
    pub events: VecDeque<PromptEvent>,
    /// Whether the page was full.
    pub full_page: bool,
    pub status: RunStateName,
    pub terminal_failure: Option<String>,
    /// Whether some of the answer was shown on a line that is not ended.
    pub open_line: bool,
    pub phase: PromptPhase,
}

/// A prompt that a daemon answers, with the events that are left.
#[verifier::ext_equal]
pub struct PromptView {
    pub run_id: String,
    pub ledger_path: String,
    pub from_offset: Option<u64>,
    pub events: Seq<PromptEvent>,
    pub full_page: bool,
    pub status: RunStateName,
    pub terminal_failure: Option<Seq<char>>,
    pub open_line: bool,
    pub phase: PromptPhase,
}

impl View for DaemonPrompt {
    type V = PromptView;

    open spec fn view(&self) -> PromptView {
        PromptView {
            run_id: self.run_id,
            ledger_path: self.ledger_path,
            from_offset: self.from_offset,
            events: self.events@,
            full_page: self.full_page,
            status: self.status,
            terminal_failure: protocol::option_text(self.terminal_failure),
            open_line: self.open_line,
            phase: self.phase,
        }
    }
}

/// An action, with the words of what is made up for it.
pub enum PromptActionView {
    Same(PromptAction),
    EndLine,
    Ask(Seq<char>),
    Finish(Seq<char>, Seq<char>),
    RunFailed(Seq<char>),
    NoAnswer(Seq<char>),
}

pub open spec fn is_action(action: PromptAction, expected: PromptActionView) -> bool {
    match expected {
        PromptActionView::Same(same) => action == same,
        PromptActionView::EndLine => action matches PromptAction::Show(shown) && shown@ == "\n"@,
        PromptActionView::Ask(question) => action matches PromptAction::Ask(found) && found@
            == question,
        PromptActionView::Finish(out, err) => action matches PromptAction::Finish {
            stdout,
            stderr,
        } && stdout@ == out && stderr@ == err,
        PromptActionView::RunFailed(reason) => action matches PromptAction::Fail(
            AppError::RunFailed(found),
        ) && found@ == reason,
        PromptActionView::NoAnswer(message) => action matches PromptAction::Fail(
            AppError::DaemonProtocol(found),
        ) && found@ == message,
    }
}

pub open spec fn to_phase(prompt: PromptView, phase: PromptPhase) -> PromptView {
    PromptView { phase, ..prompt }
}

/// What an entry of the ledger reports.
pub open spec fn ledger_event(record: Seq<char>) -> Option<Seq<char>> {
    json::string_in(json::json_at(record, "/event/event"@))
}

/// Why the run failed, as an entry of the ledger reports it.
pub open spec fn failure_reason(record: Seq<char>) -> Option<Seq<char>> {
    if ledger_event(record) == Some("run_failed"@) {
        json::string_in(json::json_at(record, "/event/reason"@))
    } else {
        None
    }
}

/// Why the run failed, as an entry of the ledger reports it.
pub fn reported_failure(record: &str) -> (result: Option<String>)
    ensures
        protocol::option_text(result) == failure_reason(record@),
{
    match json::string_at(record, "/event/event") {
        Some(event) => if text::same(event.as_str(), "run_failed") {
            json::string_at(record, "/event/reason")
        } else {
            None
        },
        None => None,
    }
}

/// Whether an entry of the ledger reports that the model has answered.
pub open spec fn model_responded(record: Seq<char>) -> bool {
    ledger_event(record) == Some("model_responded"@)
}

fn reports_response(record: &str) -> (result: bool)
    ensures
        result == model_responded(record@),
{
    match json::string_at(record, "/event/event") {
        Some(event) => text::same(event.as_str(), "model_responded"),
        None => false,
    }
}

/// What follows at the end of a page.
pub open spec fn page_done(prompt: PromptView) -> (PromptView, PromptActionView) {
    if prompt.full_page {
        (
            to_phase(prompt, PromptPhase::Fetching),
            PromptActionView::Same(
                PromptAction::FetchEvents {
                    run_id: prompt.run_id,
                    from_offset: prompt.from_offset,
                },
            ),
        )
    } else {
        match prompt.status {
            RunStateName::Running | RunStateName::CancelRequested => (
                to_phase(prompt, PromptPhase::Sleeping),
                PromptActionView::Same(PromptAction::Sleep),
            ),
            RunStateName::Finished => if prompt.open_line {
                (to_phase(prompt, PromptPhase::EndingLastLine), PromptActionView::EndLine)
            } else {
                reading_answer(prompt)
            },
            RunStateName::Canceled => (
                to_phase(prompt, PromptPhase::Ended),
                PromptActionView::Same(PromptAction::Fail(AppError::RunCanceled)),
            ),
            RunStateName::Failed | RunStateName::Interrupted => (
                to_phase(prompt, PromptPhase::Ended),
                PromptActionView::RunFailed(
                    match prompt.terminal_failure {
                        Some(reason) => reason,
                        None => "daemon run "@ + prompt.run_id@ + " ended as "@
                            + protocol::state_text(prompt.status),
                    },
                ),
            ),
        }
    }
}

pub open spec fn reading_answer(prompt: PromptView) -> (PromptView, PromptActionView) {
    (
        to_phase(prompt, PromptPhase::ReadingAnswer),
        PromptActionView::Same(PromptAction::ReadTranscript { run_id: prompt.run_id }),
    )
}

/// What follows from the events that are left of a page.
pub open spec fn advanced(prompt: PromptView) -> (PromptView, PromptActionView)
    decreases prompt.events.len(),
{
    if prompt.events.len() == 0 {
        page_done(prompt)
    } else {
        let rest = PromptView { events: prompt.events.drop_first(), ..prompt };
        match prompt.events[0] {
            PromptEvent::Delta { text } => (
                to_phase(rest, PromptPhase::ShowingDelta),
                PromptActionView::Same(PromptAction::Show(text)),
            ),
            PromptEvent::Approval(asked) => (
                to_phase(rest, PromptPhase::ReadingApproval(asked)),
                PromptActionView::Same(PromptAction::ReadTranscript { run_id: asked.run_id }),
            ),
            PromptEvent::Ledger { record } => if model_responded(record@) && prompt.open_line {
                (to_phase(rest, PromptPhase::EndingLine), PromptActionView::EndLine)
            } else {
                match failure_reason(record@) {
                    Some(reason) => advanced(
                        PromptView { terminal_failure: Some(reason), ..rest },
                    ),
                    None => advanced(rest),
                }
            },
            PromptEvent::Other => advanced(rest),
        }
    }
}

/// The call that is asked about: as the daemon has it pending, or else as its event reports it.
pub open spec fn is_pending(
    pending: PendingApprovalSnapshot,
    asked: ApprovalAsked,
    found: Option<PendingApprovalSnapshot>,
) -> bool {
    if found is Some && found->0.tool_call_id@ == asked.tool_call_id@ {
        pending == found->0
    } else {
        pending == (PendingApprovalSnapshot {
            run_id: asked.run_id,
            tool_call_id: asked.tool_call_id,
            tool_name: asked.tool_name,
            effect: asked.effect,
            reason: Some(asked.reason),
            input_preview: None,
            approval_preview: asked.approval_preview,
            diff_preview: asked.diff_preview,
        })
    }
}

/// The question about a call: with its preview, with its input, or with its name alone.
pub open spec fn approval_question(
    tool_name: Seq<char>,
    approval_preview: Option<Seq<char>>,
    input_preview: Option<Seq<char>>,
) -> Seq<char> {
    match (approval_preview, input_preview) {
        (Some(preview), _) => "Approve "@ + tool_name + "?\n"@ + preview + "\n[y/N] "@,
        (None, Some(preview)) => "Approve "@ + tool_name + " "@ + preview + "? [y/N] "@,
        (None, None) => "Approve "@ + tool_name + "? [y/N] "@,
    }
}

/// The question about a call that waits for approval.
pub open spec fn question_of(asked: ApprovalAsked, found: Option<PendingApprovalSnapshot>) -> Seq<
    char,
> {
    if found is Some && found->0.tool_call_id@ == asked.tool_call_id@ {
        approval_question(
            found->0.tool_name@,
            protocol::option_text(found->0.approval_preview),
            protocol::option_text(found->0.input_preview),
        )
    } else {
        approval_question(
            asked.tool_name@,
            protocol::option_text(asked.approval_preview),
            None,
        )
    }
}

/// The question about a call.
pub fn prompt_daemon_approval(pending: &PendingApprovalSnapshot) -> (result: String)
    ensures
        result@ == approval_question(
            pending.tool_name@,
            protocol::option_text(pending.approval_preview),
            protocol::option_text(pending.input_preview),
        ),
{
    match &pending.approval_preview {
        Some(preview) => {
            let mut question = text::concat3("Approve ", pending.tool_name.as_str(), "?\n");
            question.append(preview.as_str());
            question.append("\n[y/N] ");
            question
        },
        None => match &pending.input_preview {
            Some(preview) => {
                let mut question = text::concat3("Approve ", pending.tool_name.as_str(), " ");
                question.append(preview.as_str());
                question.append("? [y/N] ");
                question
            },
            None => text::concat3("Approve ", pending.tool_name.as_str(), "? [y/N] "),
        },
    }
}

/// Whether a line says yes; everything else says no.
pub open spec fn says_yes(line: Seq<char>) -> bool {
    let word = text::lower_all(text::trimmed(line));
    word == "y"@ || word == "yes"@
}

/// Whether a line says yes; everything else says no.
pub fn approval_granted(line: &str) -> (result: bool)
    ensures
        result == says_yes(line@),
{
    let word = text::to_lower_all(text::trim(line).as_str());
    text::same(word.as_str(), "y") || text::same(word.as_str(), "yes")
}

/// The next state and action.
pub open spec fn next(prompt: PromptView, observation: PromptObservation) -> (
    PromptView,
    PromptActionView,
) {
    match (prompt.phase, observation) {
        (_, PromptObservation::Failed(error)) => (
            to_phase(prompt, PromptPhase::Ended),
            PromptActionView::Same(PromptAction::Fail(error)),
        ),
        (PromptPhase::Fetching, PromptObservation::Page(page)) => advanced(
            PromptView {
                from_offset: Some(page.next_offset),
                events: page.events@,
                full_page: page.events@.len() == DAEMON_EVENT_PAGE,
                status: page.status,
                ..prompt
            },
        ),
        (PromptPhase::ShowingDelta, PromptObservation::Shown) => advanced(
            PromptView { open_line: true, ..prompt },
        ),
        (PromptPhase::EndingLine, PromptObservation::Shown) => advanced(
            PromptView { open_line: false, ..prompt },
        ),
        (PromptPhase::ReadingApproval(asked), PromptObservation::Transcript(transcript)) => (
            to_phase(
                prompt,
                PromptPhase::Asking { run_id: asked.run_id, tool_call_id: asked.tool_call_id },
            ),
            PromptActionView::Ask(question_of(asked, transcript.pending_approval)),
        ),
        (PromptPhase::Asking { run_id, tool_call_id }, PromptObservation::Answered(line)) => (
            to_phase(prompt, PromptPhase::Deciding),
            PromptActionView::Same(
                if says_yes(line@) {
                    PromptAction::Grant { run_id, tool_call_id }
                } else {
                    PromptAction::Deny { run_id, tool_call_id }
                },
            ),
        ),
        (PromptPhase::Deciding, PromptObservation::Decided) => advanced(prompt),
        (PromptPhase::Sleeping, PromptObservation::Slept) => (
            to_phase(prompt, PromptPhase::Fetching),
            PromptActionView::Same(
                PromptAction::FetchEvents {
                    run_id: prompt.run_id,
                    from_offset: prompt.from_offset,
                },
            ),
        ),
        (PromptPhase::EndingLastLine, PromptObservation::Shown) => reading_answer(prompt),
        (PromptPhase::ReadingAnswer, PromptObservation::Transcript(transcript)) => (
            to_phase(prompt, PromptPhase::Ended),
            match transcript.final_answer {
                Some(answer) => PromptActionView::Finish(
                    answer@ + "\n"@,
                    output::replay_hint(prompt.run_id@, prompt.ledger_path@),
                ),
                None => PromptActionView::NoAnswer(
                    "finished daemon run "@ + prompt.run_id@ + " omitted its final answer"@,
                ),
            },
        ),
        _ => (
            to_phase(prompt, PromptPhase::Ended),
            PromptActionView::Same(PromptAction::Fail(AppError::RunCanceled)),
        ),
    }
}

/// Whether an observation is one that the last action can bring.
pub open spec fn fits(prompt: PromptView, observation: PromptObservation) -> bool {
    !(prompt.phase is Ended) && (observation is Failed || match prompt.phase {
        PromptPhase::Fetching => observation is Page,
        PromptPhase::ShowingDelta | PromptPhase::EndingLine | PromptPhase::EndingLastLine =>
            observation is Shown,
        PromptPhase::ReadingApproval(_) | PromptPhase::ReadingAnswer => observation is Transcript,
        PromptPhase::Asking { .. } => observation is Answered,
        PromptPhase::Deciding => observation is Decided,
        PromptPhase::Sleeping => observation is Slept,
        PromptPhase::Ended => false,
    })
}

fn queued(events: Vec<PromptEvent>) -> (result: VecDeque<PromptEvent>)
    ensures
        result@ == events@,
{
    let mut rest = events;
    let mut queue: VecDeque<PromptEvent> = VecDeque::new();
    let ghost all = rest@;
    while rest.len() > 0
        invariant
            rest@ + queue@ =~= all,
        decreases rest@.len(),
    {
        let ghost before = rest@;
        if let Some(event) = rest.pop() {
            assert(before =~= rest@.push(event));
            queue.push_front(event);
        }
    }
    queue
}

impl DaemonPrompt {
    /// A prompt whose run was just started; its first action is to fetch events from the start.
    pub fn start(run_id: String, ledger_path: String) -> (result: (Self, PromptAction))
        ensures
            result.0@ == (PromptView {
                run_id,
                ledger_path,
                from_offset: Some(0u64),
                events: seq![],
                full_page: false,
                status: RunStateName::Running,
                terminal_failure: None,
                open_line: false,
                phase: PromptPhase::Fetching,
            }),
            result.1 == (PromptAction::FetchEvents { run_id, from_offset: Some(0u64) }),
    {
        let prompt = DaemonPrompt {
            run_id,
            ledger_path,
            from_offset: Some(0),
            events: VecDeque::new(),
            full_page: false,
            status: RunStateName::Running,
            terminal_failure: None,
            open_line: false,
            phase: PromptPhase::Fetching,
        };
        let run_id = prompt.run_id.clone();
        (prompt, PromptAction::FetchEvents { run_id, from_offset: Some(0) })
    }

    fn read_answer(&mut self) -> (action: PromptAction)
        ensures
            final(self)@ == reading_answer(old(self)@).0,
            is_action(action, reading_answer(old(self)@).1),
    {
        self.phase = PromptPhase::ReadingAnswer;
        PromptAction::ReadTranscript { run_id: self.run_id.clone() }
    }

    fn end_page(&mut self) -> (action: PromptAction)
        ensures
            final(self)@ == page_done(old(self)@).0,
            is_action(action, page_done(old(self)@).1),
    {
        if self.full_page {
            self.phase = PromptPhase::Fetching;
            return PromptAction::FetchEvents {
                run_id: self.run_id.clone(),
                from_offset: self.from_offset,
            };
        }
        match self.status {
            RunStateName::Running | RunStateName::CancelRequested => {
                self.phase = PromptPhase::Sleeping;
                PromptAction::Sleep
            },
            RunStateName::Finished => {
                if self.open_line {
                    self.phase = PromptPhase::EndingLastLine;
                    PromptAction::Show("\n".to_owned())
                } else {
                    self.read_answer()
                }
            },
            RunStateName::Canceled => {
                self.phase = PromptPhase::Ended;
                PromptAction::Fail(AppError::RunCanceled)
            },
            RunStateName::Failed | RunStateName::Interrupted => {
                self.phase = PromptPhase::Ended;
                let reason = match &self.terminal_failure {
                    Some(reason) => reason.clone(),
                    None => {
                        let mut reason = text::concat3(
                            "daemon run ",
                            self.run_id.as_str(),
                            " ended as ",
                        );
                        reason.append(self.status.as_str());
                        reason
                    },
                };
                PromptAction::Fail(AppError::RunFailed(reason))
            },
        }
    }

    fn advance(&mut self) -> (action: PromptAction)
        ensures
            final(self)@ == advanced(old(self)@).0,
            is_action(action, advanced(old(self)@).1),
    {
        while self.events.len() > 0
            invariant
                advanced(self@) == advanced(old(self)@),
            decreases self.events@.len(),
        {
            let ghost before = self@;
            match self.events.pop_front() {
                None => {
                    return self.end_page();
                },
                Some(event) => {
                    assert(self.events@ =~= before.events.drop_first());
                    assert(before.events[0] == event);
                    assert(self@ == (PromptView { events: before.events.drop_first(), ..before }));
                    match event {
                        PromptEvent::Delta { text } => {
                            self.phase = PromptPhase::ShowingDelta;
                            return PromptAction::Show(text);
                        },
                        PromptEvent::Approval(asked) => {
                            let run_id = asked.run_id.clone();
                            self.phase = PromptPhase::ReadingApproval(asked);
                            return PromptAction::ReadTranscript { run_id };
                        },
                        PromptEvent::Ledger { record } => {
                            if self.open_line && reports_response(record.as_str()) {
                                self.phase = PromptPhase::EndingLine;
                                return PromptAction::Show("\n".to_owned());
                            }
                            if let Some(reason) = reported_failure(record.as_str()) {
                                self.terminal_failure = Some(reason);
                            }
                        },
                        PromptEvent::Other => {},
                    }
                },
            }
        }
        self.end_page()
    }

    /// Takes in what came of the last action, and says what to do next.
    pub fn step(&mut self, observation: PromptObservation) -> (action: PromptAction)
        requires
            fits(old(self)@, observation),
        ensures
            final(self)@ == next(old(self)@, observation).0,
            is_action(action, next(old(self)@, observation).1),
    {
        let mut phase = PromptPhase::Ended;
        std::mem::swap(&mut phase, &mut self.phase);
        match (phase, observation) {
            (_, PromptObservation::Failed(error)) => {
                self.phase = PromptPhase::Ended;
                PromptAction::Fail(error)
            },
            (PromptPhase::Fetching, PromptObservation::Page(page)) => {
                self.phase = PromptPhase::Fetching;
                self.from_offset = Some(page.next_offset);
                self.full_page = page.events.len() == DAEMON_EVENT_PAGE;
                self.status = page.status;
                self.events = queued(page.events);
                self.advance()
            },
            (PromptPhase::ShowingDelta, PromptObservation::Shown) => {
                self.phase = PromptPhase::ShowingDelta;
                self.open_line = true;
                self.advance()
            },
            (PromptPhase::EndingLine, PromptObservation::Shown) => {
                self.phase = PromptPhase::EndingLine;
                self.open_line = false;
                self.advance()
            },
            (PromptPhase::ReadingApproval(asked), PromptObservation::Transcript(transcript)) => {
                let run_id = asked.run_id.clone();
                let tool_call_id = asked.tool_call_id.clone();
                let pending = pending_of(asked, transcript.pending_approval);
                self.phase = PromptPhase::Asking { run_id, tool_call_id };
                PromptAction::Ask(prompt_daemon_approval(&pending))
            },
            (PromptPhase::Asking { run_id, tool_call_id }, PromptObservation::Answered(line)) => {
                self.phase = PromptPhase::Deciding;
                if approval_granted(line.as_str()) {
                    PromptAction::Grant { run_id, tool_call_id }
                } else {
                    PromptAction::Deny { run_id, tool_call_id }
                }
            },
            (PromptPhase::Deciding, PromptObservation::Decided) => {
                self.phase = PromptPhase::Deciding;
                self.advance()
            },
            (PromptPhase::Sleeping, PromptObservation::Slept) => {
                self.phase = PromptPhase::Fetching;
                PromptAction::FetchEvents {
                    run_id: self.run_id.clone(),
                    from_offset: self.from_offset,
                }
            },
            (PromptPhase::EndingLastLine, PromptObservation::Shown) => self.read_answer(),
            (PromptPhase::ReadingAnswer, PromptObservation::Transcript(transcript)) => {
                match transcript.final_answer {
                    Some(answer) => PromptAction::Finish {
                        stdout: text::concat(answer.as_str(), "\n"),
                        stderr: sqlite_replay_hint(
                            self.run_id.as_str(),
                            self.ledger_path.as_str(),
                        ),
                    },
                    None => PromptAction::Fail(
                        AppError::DaemonProtocol(
                            text::concat3(
                                "finished daemon run ",
                                self.run_id.as_str(),
                                " omitted its final answer",
                            ),
                        ),
                    ),
                }
            },
            _ => PromptAction::Fail(AppError::RunCanceled),
        }
    }
}

/// The call that is asked about: as the daemon has it pending, or else as its event reports it.
pub fn pending_of(asked: ApprovalAsked, found: Option<PendingApprovalSnapshot>) -> (result:
    PendingApprovalSnapshot)
    ensures
        is_pending(result, asked, found),
{
    if let Some(pending) = found {
        if text::same(pending.tool_call_id.as_str(), asked.tool_call_id.as_str()) {
            return pending;
        }
    }
    PendingApprovalSnapshot {
        run_id: asked.run_id,
        tool_call_id: asked.tool_call_id,
        tool_name: asked.tool_name,
        effect: asked.effect,
        reason: Some(asked.reason),
        input_preview: None,
        approval_preview: asked.approval_preview,
        diff_preview: asked.diff_preview,
    }
}

/// A call is granted only where a line said yes to the question about it.
pub proof fn only_a_yes_grants(prompt: PromptView, observation: PromptObservation)
    requires
        fits(prompt, observation),
    ensures
        next(prompt, observation).1 matches PromptActionView::Same(
            PromptAction::Grant { run_id, tool_call_id },
        ) ==> {
            &&& observation matches PromptObservation::Answered(line) && says_yes(line@)
            &&& prompt.phase == (PromptPhase::Asking { run_id, tool_call_id })
        },
{
    advancing_decides_nothing(prompt);
    if let PromptObservation::Page(page) = observation {
        advancing_decides_nothing(
            PromptView {
                from_offset: Some(page.next_offset),
                events: page.events@,
                full_page: page.events@.len() == DAEMON_EVENT_PAGE,
                status: page.status,
                ..prompt
            },
        );
    }
    advancing_decides_nothing(PromptView { open_line: true, ..prompt });
    advancing_decides_nothing(PromptView { open_line: false, ..prompt });
}

proof fn advancing_decides_nothing(prompt: PromptView)
    ensures
        !(advanced(prompt).1 matches PromptActionView::Same(PromptAction::Grant { .. })),
        !(advanced(prompt).1 is Finish),
    decreases prompt.events.len(),
{
    if prompt.events.len() > 0 {
        let rest = PromptView { events: prompt.events.drop_first(), ..prompt };
        advancing_decides_nothing(rest);
        if let PromptEvent::Ledger { record } = prompt.events[0] {
            if let Some(reason) = failure_reason(record@) {
                advancing_decides_nothing(PromptView { terminal_failure: Some(reason), ..rest });
            }
        }
    }
}

/// A prompt succeeds only with the answer that was read back of its run.
pub proof fn a_prompt_succeeds_only_with_an_answer(prompt: PromptView, observation: PromptObservation)
    requires
        fits(prompt, observation),
    ensures
        next(prompt, observation).1 is Finish ==> prompt.phase is ReadingAnswer && (
        observation matches PromptObservation::Transcript(transcript)
            && transcript.final_answer is Some),
{
    advancing_decides_nothing(prompt);
    if let PromptObservation::Page(page) = observation {
        advancing_decides_nothing(
            PromptView {
                from_offset: Some(page.next_offset),
                events: page.events@,
                full_page: page.events@.len() == DAEMON_EVENT_PAGE,
                status: page.status,
                ..prompt
            },
        );
    }
    advancing_decides_nothing(PromptView { open_line: true, ..prompt });
    advancing_decides_nothing(PromptView { open_line: false, ..prompt });
}

} // verus!
