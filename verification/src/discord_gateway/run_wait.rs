//! Waiting for the end of a run: what the channel is shown meanwhile, and how a lost daemon is
//! found again. The caller performs one action after the other and reports what came of it.

use crate::daemon::protocol;
use crate::daemon::protocol::{RunStateName, SessionSummary, TranscriptReadResult};
use crate::discord_gateway::approvals;
use crate::discord_gateway::approvals::ApprovalNotifications;
use crate::discord_gateway::gateway;
use crate::discord_gateway::gateway::reconnectable;
use crate::discord_gateway::presentation;
use crate::discord_gateway::presentation::MessagePresentation;
use crate::error::AppError;
use crate::text;
use vstd::prelude::*;

verus! {

/// The most events in one page.
pub const EVENT_PAGE_LIMIT: usize = 64;

/// The pause after a page without events.
pub const EVENT_POLL_DELAY: u128 = 100_000_000;

/// How often the daemon is tried to be reached again.
pub const RECONNECT_ATTEMPTS: u32 = 40;

/// The pause after a failed attempt.
pub const RECONNECT_DELAY: u128 = 50_000_000;

/// A page of the events of a run; each entry is JSON.
#[derive(Debug, PartialEq, Eq)]
pub struct EventPage {
    pub from_offset: u64,
    pub next_offset: u64,
    pub status: RunStateName,
    pub entries: Vec<String>,
}

/// What a new connection to the daemon is for.
#[derive(Clone, Copy, Debug, PartialEq, Eq, Structural)]
pub enum ReconnectPurpose {
    /// To see where the run stands.
    Status,
    /// To read its transcript.
    Transcript,
}

/// What the last action was for.
#[derive(Clone, Copy, Debug, PartialEq, Eq, Structural)]
pub enum WaitPhase {
    Fetching,
    /// The channel is told of an approval; `canceling` says whether the run is asked to stop, and
    /// `empty` whether the page brought no events.
    Notifying { canceling: bool, empty: bool },
    Showing { empty: bool },
    Sleeping,
    Connecting { left: u32, purpose: ReconnectPurpose },
    Delaying { left: u32, purpose: ReconnectPurpose },
    Listing,
    Reading { retried: bool },
    Ended,
}

/// What to do next.
#[derive(Debug, PartialEq, Eq)]
pub enum WaitAction {
    FetchEvents { run_id: String, from_offset: Option<u64> },
    SendMessage(String),
    TriggerTyping,
    Sleep,
    /// Connect to the daemon, and see that it can do what is needed.
    Connect,
    /// Wait before the next attempt to connect.
    Delay,
    ListSessions,
    ReadTranscript { run_id: String },
    Done(TranscriptReadResult),
    Fail(AppError),
}

/// What came of an action.
#[derive(Debug, PartialEq, Eq)]
pub enum WaitObservation {
    Events { page: EventPage, now: u128 },
    EventsFailed(AppError),
    MessageSent { now: u128 },
    MessageFailed(AppError),
    /// It was shown, or could not be; that ends nothing.
    Shown,
    Slept,
    Connected,
    ConnectFailed(AppError),
    Delayed,
    Sessions(Vec<SessionSummary>),
    SessionsFailed(AppError),
    Transcript(TranscriptReadResult),
    TranscriptFailed(AppError),
}

/// The wait for the end of one run.
#[derive(Debug)]
pub struct RunWait {
    pub run_id: String,
    pub next_offset: Option<u64>,
    pub approvals: ApprovalNotifications,
    pub canceling: bool,
    pub presentation: MessagePresentation,
    pub phase: WaitPhase,
}

/// The wait for the end of one run, with the words that it holds.
#[verifier::ext_equal]
pub struct RunWaitView {
    pub run_id: String,
    pub next_offset: Option<u64>,
    pub approvals: approvals::NotificationsView,
    pub canceling: bool,
    pub presentation: MessagePresentation,
    pub phase: WaitPhase,
}

impl View for RunWait {
    type V = RunWaitView;

    open spec fn view(&self) -> RunWaitView {
        RunWaitView {
            run_id: self.run_id,
            next_offset: self.next_offset,
            approvals: self.approvals@,
            canceling: self.canceling,
            presentation: self.presentation,
            phase: self.phase,
        }
    }
}

/// An action, with the words of what is made up for it.
pub enum WaitActionView {
    Same(WaitAction),
    SendMessage(Seq<char>),
    /// The daemon could not be reached again.
    Unavailable,
}

pub open spec fn is_action(action: WaitAction, expected: WaitActionView) -> bool {
    match expected {
        WaitActionView::Same(same) => action == same,
        WaitActionView::SendMessage(message) => action matches WaitAction::SendMessage(found)
            && found@ == message,
        WaitActionView::Unavailable => action matches WaitAction::Fail(
            AppError::DaemonProtocol(message),
        ) && message@ == "daemon unavailable during gateway recovery"@,
    }
}

pub open spec fn to_phase(wait: RunWaitView, phase: WaitPhase) -> RunWaitView {
    RunWaitView { phase, ..wait }
}

pub open spec fn untyped(wait: RunWaitView) -> RunWaitView {
    RunWaitView {
        presentation: MessagePresentation { next_typing_at: None, ..wait.presentation },
        ..wait
    }
}

/// The next page of events is asked for.
pub open spec fn fetching(wait: RunWaitView) -> (RunWaitView, WaitActionView) {
    (
        to_phase(wait, WaitPhase::Fetching),
        WaitActionView::Same(
            WaitAction::FetchEvents { run_id: wait.run_id, from_offset: wait.next_offset },
        ),
    )
}

/// A page is done with: after one without events there is a pause.
pub open spec fn rested(wait: RunWaitView, empty: bool) -> (RunWaitView, WaitActionView) {
    if empty {
        (to_phase(wait, WaitPhase::Sleeping), WaitActionView::Same(WaitAction::Sleep))
    } else {
        fetching(wait)
    }
}

/// The wait ends with an error.
pub open spec fn failed(wait: RunWaitView, error: AppError) -> (RunWaitView, WaitActionView) {
    (to_phase(wait, WaitPhase::Ended), WaitActionView::Same(WaitAction::Fail(error)))
}

/// The transcript of the run is asked for.
pub open spec fn reading(wait: RunWaitView, retried: bool) -> (RunWaitView, WaitActionView) {
    (
        to_phase(wait, WaitPhase::Reading { retried }),
        WaitActionView::Same(WaitAction::ReadTranscript { run_id: wait.run_id }),
    )
}

/// A new connection is tried.
pub open spec fn connecting(wait: RunWaitView, left: u32, purpose: ReconnectPurpose) -> (
    RunWaitView,
    WaitActionView,
) {
    (
        to_phase(wait, WaitPhase::Connecting { left, purpose }),
        WaitActionView::Same(WaitAction::Connect),
    )
}

/// What was seen of the run is forgotten.
pub open spec fn forgotten(wait: RunWaitView) -> RunWaitView {
    RunWaitView { approvals: approvals::nothing_seen(), canceling: false, ..untyped(wait) }
}

/// What is shown while the run goes on: nothing while an approval is pending or the run is being
/// canceled.
pub open spec fn shown_running(wait: RunWaitView, now: u128, empty: bool) -> (
    RunWaitView,
    WaitActionView,
) {
    let paused = wait.approvals.pending is Some || wait.canceling;
    let typed = wait.presentation.next_typing_at;
    let after = RunWaitView {
        presentation: MessagePresentation {
            next_typing_at: presentation::next_signal(typed, paused, now),
            ..wait.presentation
        },
        ..wait
    };
    if presentation::signal_due(typed, paused, now) {
        (
            to_phase(after, WaitPhase::Showing { empty }),
            WaitActionView::Same(WaitAction::TriggerTyping),
        )
    } else {
        rested(after, empty)
    }
}

/// The channel is told of an approval, if it is to be told of one.
pub open spec fn notified(wait: RunWaitView, canceling: bool, empty: bool) -> (
    RunWaitView,
    WaitActionView,
) {
    (
        RunWaitView {
            approvals: approvals::told(wait.approvals),
            phase: WaitPhase::Notifying { canceling, empty },
            ..wait
        },
        WaitActionView::SendMessage(approvals::due(wait.approvals)->0),
    )
}

/// Whether there are more events at once.
pub open spec fn must_catch_up(page: EventPage) -> bool {
    page.entries@.len() == EVENT_PAGE_LIMIT && page.next_offset > page.from_offset
}

/// The wait after the events of a page.
pub open spec fn folded(wait: RunWaitView, page: EventPage) -> RunWaitView {
    let facts = approvals::all_facts_in(page.entries@);
    let seen = approvals::after_events(wait.approvals, facts);
    let canceled = exists|i: int|
        0 <= i < page.entries@.len() && approvals::cancels(#[trigger] facts[i]);
    let after = RunWaitView {
        next_offset: Some(page.next_offset),
        approvals: seen,
        canceling: wait.canceling || canceled,
        ..wait
    };
    if wait.approvals.pending is Some == seen.pending is Some {
        after
    } else {
        untyped(after)
    }
}

/// What follows from a page of events.
pub open spec fn after_page(wait: RunWaitView, page: EventPage, now: u128) -> (
    RunWaitView,
    WaitActionView,
) {
    let seen = folded(wait, page);
    let empty = page.entries@.len() == 0;
    if must_catch_up(page) {
        fetching(seen)
    } else {
        match page.status {
            RunStateName::Running => if approvals::due(seen.approvals) is Some {
                notified(seen, false, empty)
            } else {
                shown_running(seen, now, empty)
            },
            RunStateName::CancelRequested => {
                let quiet = RunWaitView { canceling: true, ..untyped(seen) };
                if approvals::due(quiet.approvals) is Some {
                    notified(quiet, true, empty)
                } else {
                    rested(quiet, empty)
                }
            },
            _ => reading(
                RunWaitView { approvals: approvals::nothing_seen(), ..untyped(seen) },
                false,
            ),
        }
    }
}

/// Whether the daemon answers that events were missed.
pub open spec fn is_lagged(error: AppError) -> bool {
    error matches AppError::DaemonResponse(answer) && answer.code@ == protocol::ERROR_LAGGED@
}

/// Where the run stands, among the sessions of the daemon: the first entry counts.
pub open spec fn status_of(sessions: Seq<SessionSummary>, run_id: Seq<char>) -> Option<RunStateName>
    decreases sessions.len(),
{
    if sessions.len() == 0 {
        None
    } else if sessions[0].run_id@ == run_id {
        Some(sessions[0].status)
    } else {
        status_of(sessions.drop_first(), run_id)
    }
}

/// The next state and action.
pub open spec fn next(wait: RunWaitView, observation: WaitObservation) -> (
    RunWaitView,
    WaitActionView,
) {
    match (wait.phase, observation) {
        (WaitPhase::Fetching, WaitObservation::Events { page, now }) => after_page(
            wait,
            page,
            now,
        ),
        (WaitPhase::Fetching, WaitObservation::EventsFailed(error)) => if is_lagged(error) {
            fetching(RunWaitView { next_offset: None, ..forgotten(wait) })
        } else if gateway::may_reconnect(error) {
            connecting(wait, RECONNECT_ATTEMPTS, ReconnectPurpose::Status)
        } else {
            failed(wait, error)
        },
        (WaitPhase::Notifying { canceling, empty }, WaitObservation::MessageSent { now }) =>
            if canceling {
            rested(wait, empty)
        } else {
            shown_running(wait, now, empty)
        },
        (WaitPhase::Notifying { .. }, WaitObservation::MessageFailed(error)) => failed(wait, error),
        (WaitPhase::Showing { empty }, WaitObservation::Shown) => rested(wait, empty),
        (WaitPhase::Sleeping, WaitObservation::Slept) => fetching(wait),
        (WaitPhase::Connecting { purpose, .. }, WaitObservation::Connected) => match purpose {
            ReconnectPurpose::Status => (
                to_phase(forgotten(wait), WaitPhase::Listing),
                WaitActionView::Same(WaitAction::ListSessions),
            ),
            ReconnectPurpose::Transcript => reading(wait, true),
        },
        (WaitPhase::Connecting { left, purpose }, WaitObservation::ConnectFailed(error)) =>
            if gateway::may_reconnect(error) {
            (
                to_phase(wait, WaitPhase::Delaying { left: (left - 1) as u32, purpose }),
                WaitActionView::Same(WaitAction::Delay),
            )
        } else {
            failed(wait, error)
        },
        (WaitPhase::Delaying { left, purpose }, WaitObservation::Delayed) => if left == 0 {
            (to_phase(wait, WaitPhase::Ended), WaitActionView::Unavailable)
        } else {
            connecting(wait, left, purpose)
        },
        (WaitPhase::Listing, WaitObservation::Sessions(sessions)) => match status_of(
            sessions@,
            wait.run_id@,
        ) {
            Some(RunStateName::Running) | Some(RunStateName::CancelRequested) => fetching(
                RunWaitView { next_offset: None, ..wait },
            ),
            _ => reading(wait, false),
        },
        (WaitPhase::Listing, WaitObservation::SessionsFailed(error)) => failed(wait, error),
        (WaitPhase::Reading { .. }, WaitObservation::Transcript(transcript)) => (
            to_phase(wait, WaitPhase::Ended),
            WaitActionView::Same(WaitAction::Done(transcript)),
        ),
        (WaitPhase::Reading { retried }, WaitObservation::TranscriptFailed(error)) => if !retried
            && gateway::may_reconnect(error) {
            connecting(wait, RECONNECT_ATTEMPTS, ReconnectPurpose::Transcript)
        } else {
            failed(wait, error)
        },
        _ => (to_phase(wait, WaitPhase::Ended), WaitActionView::Unavailable),
    }
}

/// Whether an observation is one that the last action can bring.
pub open spec fn fits(wait: RunWaitView, observation: WaitObservation) -> bool {
    match wait.phase {
        WaitPhase::Fetching => observation is Events || observation is EventsFailed,
        WaitPhase::Notifying { .. } => observation is MessageSent || observation is MessageFailed,
        WaitPhase::Showing { .. } => observation is Shown,
        WaitPhase::Sleeping => observation is Slept,
        WaitPhase::Connecting { left, .. } => left > 0 && (observation is Connected
            || observation is ConnectFailed),
        WaitPhase::Delaying { .. } => observation is Delayed,
        WaitPhase::Listing => observation is Sessions || observation is SessionsFailed,
        WaitPhase::Reading { .. } => observation is Transcript || observation is TranscriptFailed,
        WaitPhase::Ended => false,
    }
}

fn lagged(error: &AppError) -> (result: bool)
    ensures
        result == is_lagged(*error),
{
    match error {
        AppError::DaemonResponse(answer) => text::same(
            answer.code.as_str(),
            protocol::ERROR_LAGGED,
        ),
        _ => false,
    }
}

fn find_status(sessions: &Vec<SessionSummary>, run_id: &str) -> (result: Option<RunStateName>)
    ensures
        result == status_of(sessions@, run_id@),
{
    let mut i: usize = 0;
    assert(sessions@.skip(0) =~= sessions@);
    while i < sessions.len()
        invariant
            i <= sessions@.len(),
            status_of(sessions@, run_id@) == status_of(sessions@.skip(i as int), run_id@),
        decreases sessions@.len() - i,
    {
        assert(sessions@.skip(i as int).drop_first() =~= sessions@.skip(i + 1));
        if text::same(sessions[i].run_id.as_str(), run_id) {
            return Some(sessions[i].status);
        }
        i = i + 1;
    }
    None
}

impl RunWait {
    /// The wait for a run that was just started; its first action is to fetch events from the
    /// start.
    pub fn start(run_id: String, presentation: MessagePresentation) -> (result: (
        Self,
        WaitAction,
    ))
        ensures
            result.0@ == (RunWaitView {
                run_id,
                next_offset: Some(0u64),
                approvals: approvals::nothing_seen(),
                canceling: false,
                presentation,
                phase: WaitPhase::Fetching,
            }),
            result.1 == (WaitAction::FetchEvents { run_id, from_offset: Some(0u64) }),
    {
        let wait = RunWait {
            run_id,
            next_offset: Some(0),
            approvals: ApprovalNotifications::new(),
            canceling: false,
            presentation,
            phase: WaitPhase::Fetching,
        };
        let run_id = wait.run_id.clone();
        (wait, WaitAction::FetchEvents { run_id, from_offset: Some(0) })
    }

    fn fetch(&mut self) -> (action: WaitAction)
        ensures
            final(self)@ == fetching(old(self)@).0,
            is_action(action, fetching(old(self)@).1),
    {
        self.phase = WaitPhase::Fetching;
        WaitAction::FetchEvents { run_id: self.run_id.clone(), from_offset: self.next_offset }
    }

    fn rest(&mut self, empty: bool) -> (action: WaitAction)
        ensures
            final(self)@ == rested(old(self)@, empty).0,
            is_action(action, rested(old(self)@, empty).1),
    {
        if empty {
            self.phase = WaitPhase::Sleeping;
            WaitAction::Sleep
        } else {
            self.fetch()
        }
    }

    fn fail(&mut self, error: AppError) -> (action: WaitAction)
        ensures
            final(self)@ == failed(old(self)@, error).0,
            is_action(action, failed(old(self)@, error).1),
    {
        self.phase = WaitPhase::Ended;
        WaitAction::Fail(error)
    }

    fn read(&mut self, retried: bool) -> (action: WaitAction)
        ensures
            final(self)@ == reading(old(self)@, retried).0,
            is_action(action, reading(old(self)@, retried).1),
    {
        self.phase = WaitPhase::Reading { retried };
        WaitAction::ReadTranscript { run_id: self.run_id.clone() }
    }

    fn connect(&mut self, left: u32, purpose: ReconnectPurpose) -> (action: WaitAction)
        ensures
            final(self)@ == connecting(old(self)@, left, purpose).0,
            is_action(action, connecting(old(self)@, left, purpose).1),
    {
        self.phase = WaitPhase::Connecting { left, purpose };
        WaitAction::Connect
    }

    fn forget(&mut self)
        ensures
            final(self)@ == forgotten(old(self)@),
    {
        self.approvals.clear();
        self.canceling = false;
        self.presentation.stop_typing();
    }

    fn show_running(&mut self, now: u128, empty: bool) -> (action: WaitAction)
        ensures
            final(self)@ == shown_running(old(self)@, now, empty).0,
            is_action(action, shown_running(old(self)@, now, empty).1),
    {
        let paused = self.approvals.pending.is_some() || self.canceling;
        if self.presentation.typing_due(paused, now) {
            self.phase = WaitPhase::Showing { empty };
            WaitAction::TriggerTyping
        } else {
            self.rest(empty)
        }
    }

    fn take_page(&mut self, page: EventPage, now: u128) -> (action: WaitAction)
        ensures
            final(self)@ == after_page(old(self)@, page, now).0,
            is_action(action, after_page(old(self)@, page, now).1),
    {
        self.next_offset = Some(page.next_offset);
        let was_pending = self.approvals.pending.is_some();
        let canceled = self.approvals.fold(&page.entries);
        if canceled {
            self.canceling = true;
        }
        if was_pending != self.approvals.pending.is_some() {
            self.presentation.stop_typing();
        }
        assert(self@ == folded(old(self)@, page));
        let empty = page.entries.len() == 0;
        if page.entries.len() == EVENT_PAGE_LIMIT && page.next_offset > page.from_offset {
            return self.fetch();
        }
        match page.status {
            RunStateName::Running => {
                match self.approvals.take_notification() {
                    Some(message) => {
                        self.phase = WaitPhase::Notifying { canceling: false, empty };
                        WaitAction::SendMessage(message)
                    },
                    None => self.show_running(now, empty),
                }
            },
            RunStateName::CancelRequested => {
                self.canceling = true;
                self.presentation.stop_typing();
                match self.approvals.take_notification() {
                    Some(message) => {
                        self.phase = WaitPhase::Notifying { canceling: true, empty };
                        WaitAction::SendMessage(message)
                    },
                    None => self.rest(empty),
                }
            },
            RunStateName::Finished | RunStateName::Failed | RunStateName::Canceled
            | RunStateName::Interrupted => {
                self.presentation.stop_typing();
                self.approvals.clear();
                self.read(false)
            },
        }
    }

    /// Takes in what came of the last action, and says what to do next.
    pub fn step(&mut self, observation: WaitObservation) -> (action: WaitAction)
        requires
            fits(old(self)@, observation),
        ensures
            final(self)@ == next(old(self)@, observation).0,
            is_action(action, next(old(self)@, observation).1),
    {
        match (self.phase, observation) {
            (WaitPhase::Fetching, WaitObservation::Events { page, now }) => self.take_page(
                page,
                now,
            ),
            (WaitPhase::Fetching, WaitObservation::EventsFailed(error)) => {
                if lagged(&error) {
                    self.next_offset = None;
                    self.forget();
                    self.fetch()
                } else if reconnectable(&error) {
                    self.connect(RECONNECT_ATTEMPTS, ReconnectPurpose::Status)
                } else {
                    self.fail(error)
                }
            },
            (
                WaitPhase::Notifying { canceling, empty },
                WaitObservation::MessageSent { now },
            ) => {
                if canceling {
                    self.rest(empty)
                } else {
                    self.show_running(now, empty)
                }
            },
            (WaitPhase::Notifying { .. }, WaitObservation::MessageFailed(error)) => self.fail(
                error,
            ),
            (WaitPhase::Showing { empty }, WaitObservation::Shown) => self.rest(empty),
            (WaitPhase::Sleeping, WaitObservation::Slept) => self.fetch(),
            (WaitPhase::Connecting { purpose, .. }, WaitObservation::Connected) => {
                match purpose {
                    ReconnectPurpose::Status => {
                        self.forget();
                        self.phase = WaitPhase::Listing;
                        WaitAction::ListSessions
                    },
                    ReconnectPurpose::Transcript => self.read(true),
                }
            },
            (WaitPhase::Connecting { left, purpose }, WaitObservation::ConnectFailed(error)) => {
                if reconnectable(&error) {
                    self.phase = WaitPhase::Delaying { left: left - 1, purpose };
                    WaitAction::Delay
                } else {
                    self.fail(error)
                }
            },
            (WaitPhase::Delaying { left, purpose }, WaitObservation::Delayed) => {
                if left == 0 {
                    self.unavailable()
                } else {
                    self.connect(left, purpose)
                }
            },
            (WaitPhase::Listing, WaitObservation::Sessions(sessions)) => {
                match find_status(&sessions, self.run_id.as_str()) {
                    Some(RunStateName::Running) | Some(RunStateName::CancelRequested) => {
                        self.next_offset = None;
                        self.fetch()
                    },
                    _ => self.read(false),
                }
            },
            (WaitPhase::Listing, WaitObservation::SessionsFailed(error)) => self.fail(error),
            (WaitPhase::Reading { .. }, WaitObservation::Transcript(transcript)) => {
                self.phase = WaitPhase::Ended;
                WaitAction::Done(transcript)
            },
            (WaitPhase::Reading { retried }, WaitObservation::TranscriptFailed(error)) => {
                if !retried && reconnectable(&error) {
                    self.connect(RECONNECT_ATTEMPTS, ReconnectPurpose::Transcript)
                } else {
                    self.fail(error)
                }
            },
            _ => self.unavailable(),
        }
    }

    fn unavailable(&mut self) -> (action: WaitAction)
        ensures
            final(self)@ == to_phase(old(self)@, WaitPhase::Ended),
            is_action(action, WaitActionView::Unavailable),
    {
        self.phase = WaitPhase::Ended;
        WaitAction::Fail(
            AppError::DaemonProtocol("daemon unavailable during gateway recovery".to_owned()),
        )
    }
}

/// Catching up with past events shows nothing in the channel: the next page is asked for at once.
pub proof fn catching_up_is_quiet(wait: RunWaitView, page: EventPage, now: u128)
    requires
        wait.phase == WaitPhase::Fetching,
        must_catch_up(page),
    ensures
        next(wait, WaitObservation::Events { page, now }).1 == WaitActionView::Same(
            WaitAction::FetchEvents {
                run_id: wait.run_id,
                from_offset: Some(page.next_offset),
            },
        ),
{
}

/// No typing is shown while an approval is pending or the run is being canceled.
pub proof fn typing_pauses(wait: RunWaitView, observation: WaitObservation)
    requires
        fits(wait, observation),
        next(wait, observation).1 == WaitActionView::Same(WaitAction::TriggerTyping),
    ensures
        next(wait, observation).0.approvals.pending is None,
        !next(wait, observation).0.canceling,
{
}

/// The owner is told of an approval only where one is pending.
pub proof fn messages_tell_of_pending_approvals(wait: RunWaitView, observation: WaitObservation)
    requires
        fits(wait, observation),
        next(wait, observation).1 is SendMessage,
    ensures
        next(wait, observation).0.approvals.pending is Some,
        next(wait, observation).0.approvals.pending->0.notified,
        approvals::due(next(wait, observation).0.approvals) is None,
{
}

/// Where the run has ended, nothing is shown any more before its transcript is read, and it is this
/// run's transcript.
pub proof fn the_end_is_read_back(wait: RunWaitView, page: EventPage, now: u128)
    requires
        wait.phase == WaitPhase::Fetching,
        !must_catch_up(page),
        !protocol::is_active(page.status),
    ensures
        next(wait, WaitObservation::Events { page, now }).1 == WaitActionView::Same(
            WaitAction::ReadTranscript { run_id: wait.run_id },
        ),
        next(wait, WaitObservation::Events { page, now }).0.approvals == approvals::nothing_seen(),
{
}

/// How many attempts to connect are left in a phase.
pub open spec fn attempts_left(phase: WaitPhase) -> Option<u32> {
    match phase {
        WaitPhase::Connecting { left, .. } | WaitPhase::Delaying { left, .. } => Some(left),
        _ => None,
    }
}

/// A lost daemon is tried a bounded number of times: every failed attempt leaves one less, and
/// after the last one the wait fails.
pub proof fn attempts_to_reconnect_are_bounded(wait: RunWaitView, error: AppError)
    requires
        wait.phase is Connecting,
        fits(wait, WaitObservation::ConnectFailed(error)),
    ensures
        ({
            let after = next(wait, WaitObservation::ConnectFailed(error)).0;
            let delayed = next(after, WaitObservation::Delayed);
            let left = attempts_left(wait.phase)->0;
            &&& after.phase is Delaying || after.phase is Ended
            &&& after.phase is Delaying ==> attempts_left(after.phase) == Some((left - 1) as u32)
            &&& after.phase is Delaying && left > 1 ==> attempts_left(delayed.0.phase) == Some(
                (left - 1) as u32,
            )
            &&& after.phase is Delaying && left == 1 ==> delayed.1 is Unavailable
        }),
{
}

/// In every phase of a wait there is an attempt to connect left where one is under way, and never
/// more than there were at first.
pub proof fn attempts_stay_in_bounds(wait: RunWaitView, observation: WaitObservation)
    requires
        fits(wait, observation),
        attempts_left(wait.phase) matches Some(left) ==> left <= RECONNECT_ATTEMPTS,
    ensures
        ({
            let phase = next(wait, observation).0.phase;
            &&& attempts_left(phase) matches Some(left) ==> left <= RECONNECT_ATTEMPTS
            &&& phase is Connecting ==> attempts_left(phase)->0 > 0
        }),
{
}

/// A wait asks for the events and the transcript of its own run only.
pub proof fn a_wait_is_about_one_run(wait: RunWaitView, observation: WaitObservation)
    requires
        fits(wait, observation),
    ensures
        next(wait, observation).0.run_id == wait.run_id,
        next(wait, observation).1 matches WaitActionView::Same(
            WaitAction::FetchEvents { run_id, .. },
        ) ==> run_id == wait.run_id,
        next(wait, observation).1 matches WaitActionView::Same(
            WaitAction::ReadTranscript { run_id },
        ) ==> run_id == wait.run_id,
{
}

} // verus!
