//! The work on one message, from the first sign in the channel to the last: reaching the daemon,
//! starting a run, waiting for its end, and telling the channel of it. The caller performs one
//! action after the other and reports what came of it.

use crate::daemon::protocol::{RunStateName, TranscriptReadResult};
use crate::discord_gateway::approvals;
use crate::discord_gateway::gateway;
use crate::discord_gateway::gateway::terminal_message;
use crate::discord_gateway::presentation;
use crate::discord_gateway::presentation::{Emoji, MessagePresentation, PresentationEffect};
use crate::discord_gateway::run_wait;
use crate::discord_gateway::run_wait::{RunWait, WaitAction, WaitObservation, WaitPhase};
use crate::error::AppError;
use vstd::prelude::*;

verus! {

/// What the last action was for.
#[derive(Clone, Copy, Debug, PartialEq, Eq, Structural)]
pub enum WorkPhase {
    /// The channel is shown that the message is being worked on.
    Greeting,
    Connecting,
    Starting,
    /// The run goes on.
    Waiting,
    /// The channel is told how the run ended.
    Replying { status: RunStateName },
    /// The channel is shown how the work ended.
    Closing,
    Ended,
}

/// What to do next.
#[derive(Debug, PartialEq, Eq)]
pub enum MessageAction {
    Show(PresentationEffect),
    /// Connect to the daemon, and see that it can do what is needed.
    ConnectDaemon,
    /// Ask the daemon for a run, and keep the session of the channel.
    StartRun,
    /// What the wait for the run asks for.
    Wait(WaitAction),
    Reply(String),
    Done(Result<(), AppError>),
}

/// What came of an action.
#[derive(Debug, PartialEq, Eq)]
pub enum MessageObservation {
    /// It was shown, or could not be; that ends nothing.
    Shown,
    Connected,
    ConnectFailed(AppError),
    Started { run_id: String },
    StartFailed(AppError),
    Waited(WaitObservation),
    Replied,
    ReplyFailed(AppError),
}

/// The work on one message.
#[derive(Debug)]
pub struct MessageWork {
    pub presentation: MessagePresentation,
    pub phase: WorkPhase,
    pub wait: Option<RunWait>,
    /// What is still to be shown at the end.
    pub to_show: Vec<PresentationEffect>,
    pub failure: Option<AppError>,
}

/// The work on one message, with the words of its wait.
#[verifier::ext_equal]
pub struct MessageWorkView {
    pub presentation: MessagePresentation,
    pub phase: WorkPhase,
    pub wait: Option<run_wait::RunWaitView>,
    pub to_show: Seq<PresentationEffect>,
    pub failure: Option<AppError>,
}

impl View for MessageWork {
    type V = MessageWorkView;

    open spec fn view(&self) -> MessageWorkView {
        MessageWorkView {
            presentation: self.presentation,
            phase: self.phase,
            wait: match self.wait {
                Some(wait) => Some(wait@),
                None => None,
            },
            to_show: self.to_show@,
            failure: self.failure,
        }
    }
}

/// What a failure shows.
pub open spec fn failure_effects() -> Seq<PresentationEffect> {
    seq![
        PresentationEffect::RemoveReaction(Emoji::Eyes),
        PresentationEffect::AddReaction(Emoji::Failure),
    ]
}

/// How the work ends.
pub open spec fn outcome(failure: Option<AppError>) -> Result<(), AppError> {
    match failure {
        Some(error) => Err(error),
        None => Ok(()),
    }
}

/// The next of some effects, or the end where there is none.
pub open spec fn shows_next(
    work: MessageWorkView,
    effects: Seq<PresentationEffect>,
    failure: Option<AppError>,
) -> (MessageWorkView, MessageAction) {
    if effects.len() == 0 {
        (
            MessageWorkView {
                phase: WorkPhase::Ended,
                wait: None,
                to_show: effects,
                failure: None,
                ..work
            },
            MessageAction::Done(outcome(failure)),
        )
    } else {
        (
            MessageWorkView {
                phase: WorkPhase::Closing,
                wait: None,
                to_show: effects.drop_first(),
                failure,
                ..work
            },
            MessageAction::Show(effects[0]),
        )
    }
}

/// The work without a typing signal.
pub open spec fn untyped(work: MessageWorkView) -> MessageWorkView {
    MessageWorkView {
        presentation: MessagePresentation { next_typing_at: None, ..work.presentation },
        ..work
    }
}

/// The work after a failure.
pub open spec fn aborted(work: MessageWorkView, error: AppError) -> (
    MessageWorkView,
    MessageAction,
) {
    shows_next(untyped(work), failure_effects(), Some(error))
}

/// The work after the end of a run.
pub open spec fn finished(work: MessageWorkView, status: RunStateName) -> (
    MessageWorkView,
    MessageAction,
) {
    shows_next(untyped(work), presentation::end_effects(status), None)
}

/// The work with what its wait came to.
pub open spec fn with_wait(
    work: MessageWorkView,
    wait: run_wait::RunWaitView,
) -> MessageWorkView {
    MessageWorkView { presentation: wait.presentation, wait: Some(wait), ..work }
}

/// Whether this follows from the transcript of a run: the channel is told of its end before that
/// is shown. A transcript of which nothing can be told is a failure.
pub open spec fn concluded(
    work: MessageWorkView,
    transcript: TranscriptReadResult,
    after: MessageWorkView,
    action: MessageAction,
) -> bool {
    if transcript.status == RunStateName::Canceled || transcript.status
        == RunStateName::Interrupted {
        (after, action) == finished(work, transcript.status)
    } else if transcript.status == RunStateName::Failed || (transcript.status
        == RunStateName::Finished && transcript.final_answer is Some) {
        &&& after == (MessageWorkView {
            phase: WorkPhase::Replying { status: transcript.status },
            wait: None,
            ..work
        })
        &&& action matches MessageAction::Reply(message) && gateway::ends_with(
            transcript,
            Ok(Some(message)),
        )
    } else {
        &&& after.failure is Some
        &&& gateway::ends_with(transcript, Err(after.failure->0))
        &&& (after, action) == aborted(work, after.failure->0)
    }
}

/// Whether this follows from what the wait for the run asks for.
pub open spec fn waited(
    work: MessageWorkView,
    asked: run_wait::WaitActionView,
    after: MessageWorkView,
    action: MessageAction,
) -> bool {
    match asked {
        run_wait::WaitActionView::Same(WaitAction::Done(transcript)) => concluded(
            work,
            transcript,
            after,
            action,
        ),
        run_wait::WaitActionView::Same(WaitAction::Fail(error)) => (after, action) == aborted(
            work,
            error,
        ),
        run_wait::WaitActionView::Unavailable => {
            &&& after.failure is Some
            &&& run_wait::is_action(WaitAction::Fail(after.failure->0), asked)
            &&& (after, action) == aborted(work, after.failure->0)
        },
        _ => {
            &&& after == work
            &&& action matches MessageAction::Wait(asks) && run_wait::is_action(asks, asked)
        },
    }
}

/// Whether this is what follows from an observation.
pub open spec fn stepped(
    work: MessageWorkView,
    observation: MessageObservation,
    after: MessageWorkView,
    action: MessageAction,
) -> bool {
    match (work.phase, observation) {
        (WorkPhase::Greeting, MessageObservation::Shown) => {
            &&& after == (MessageWorkView { phase: WorkPhase::Connecting, ..work })
            &&& action == MessageAction::ConnectDaemon
        },
        (WorkPhase::Connecting, MessageObservation::Connected) => {
            &&& after == (MessageWorkView { phase: WorkPhase::Starting, ..work })
            &&& action == MessageAction::StartRun
        },
        (WorkPhase::Connecting, MessageObservation::ConnectFailed(error)) => (after, action)
            == aborted(work, error),
        (WorkPhase::Starting, MessageObservation::Started { run_id }) => {
            &&& after == (MessageWorkView {
                phase: WorkPhase::Waiting,
                wait: Some(
                    run_wait::RunWaitView {
                        run_id,
                        next_offset: Some(0u64),
                        approvals: approvals::nothing_seen(),
                        canceling: false,
                        presentation: work.presentation,
                        phase: WaitPhase::Fetching,
                    },
                ),
                ..work
            })
            &&& action == MessageAction::Wait(
                WaitAction::FetchEvents { run_id, from_offset: Some(0u64) },
            )
        },
        (WorkPhase::Starting, MessageObservation::StartFailed(error)) => (after, action) == aborted(
            work,
            error,
        ),
        (WorkPhase::Waiting, MessageObservation::Waited(seen)) => {
            let next = run_wait::next(work.wait->0, seen);
            waited(with_wait(work, next.0), next.1, after, action)
        },
        (WorkPhase::Replying { status }, MessageObservation::Replied) => (after, action)
            == finished(work, status),
        (WorkPhase::Replying { .. }, MessageObservation::ReplyFailed(error)) => (after, action)
            == aborted(work, error),
        (WorkPhase::Closing, MessageObservation::Shown) => (after, action) == shows_next(
            work,
            work.to_show,
            work.failure,
        ),
        _ => false,
    }
}

/// Whether an observation is one that the last action can bring.
pub open spec fn fits(work: MessageWorkView, observation: MessageObservation) -> bool {
    match work.phase {
        WorkPhase::Greeting | WorkPhase::Closing => observation is Shown,
        WorkPhase::Connecting => observation is Connected || observation is ConnectFailed,
        WorkPhase::Starting => observation is Started || observation is StartFailed,
        WorkPhase::Waiting => observation matches MessageObservation::Waited(seen) && work.wait
            is Some && run_wait::fits(work.wait->0, seen),
        WorkPhase::Replying { .. } => observation is Replied || observation is ReplyFailed,
        WorkPhase::Ended => false,
    }
}

impl MessageWork {
    /// Starts the work on a message: first the channel is shown that it is being worked on.
    pub fn start(channel_id: u64, message_id: u64) -> (result: (Self, MessageAction))
        ensures
            result.0@ == (MessageWorkView {
                presentation: MessagePresentation { channel_id, message_id, next_typing_at: None },
                phase: WorkPhase::Greeting,
                wait: None,
                to_show: seq![],
                failure: None,
            }),
            result.1 == MessageAction::Show(PresentationEffect::AddReaction(Emoji::Eyes)),
    {
        let presentation = MessagePresentation::new(channel_id, message_id);
        let effect = presentation.add_eyes();
        let work = MessageWork {
            presentation,
            phase: WorkPhase::Greeting,
            wait: None,
            to_show: Vec::new(),
            failure: None,
        };
        (work, MessageAction::Show(effect))
    }

    /// Shows the next of what is to be shown at the end, or ends.
    fn close(&mut self) -> (action: MessageAction)
        ensures
            (final(self)@, action) == shows_next(
                old(self)@,
                old(self).to_show@,
                old(self).failure,
            ),
    {
        self.wait = None;
        if self.to_show.len() == 0 {
            self.phase = WorkPhase::Ended;
            match self.failure.take() {
                Some(error) => MessageAction::Done(Err(error)),
                None => MessageAction::Done(Ok(())),
            }
        } else {
            let ghost effects = self.to_show@;
            self.phase = WorkPhase::Closing;
            let effect = self.to_show.remove(0);
            assert(self.to_show@ =~= effects.drop_first());
            MessageAction::Show(effect)
        }
    }

    fn abort(&mut self, error: AppError) -> (action: MessageAction)
        ensures
            (final(self)@, action) == aborted(old(self)@, error),
    {
        self.to_show = self.presentation.abnormal_exit();
        self.failure = Some(error);
        self.close()
    }

    fn finish(&mut self, status: RunStateName) -> (action: MessageAction)
        ensures
            (final(self)@, action) == finished(old(self)@, status),
    {
        self.to_show = self.presentation.finish(status);
        self.failure = None;
        self.close()
    }

    fn conclude(&mut self, transcript: TranscriptReadResult) -> (action: MessageAction)
        ensures
            concluded(old(self)@, transcript, final(self)@, action),
    {
        let status = transcript.status;
        match terminal_message(transcript) {
            Ok(Some(message)) => {
                self.wait = None;
                self.phase = WorkPhase::Replying { status };
                MessageAction::Reply(message)
            },
            Ok(None) => self.finish(status),
            Err(error) => self.abort(error),
        }
    }

    /// Takes in what came of the last action, and says what to do next.
    pub fn step(&mut self, observation: MessageObservation) -> (action: MessageAction)
        requires
            fits(old(self)@, observation),
        ensures
            stepped(old(self)@, observation, final(self)@, action),
    {
        match (self.phase, observation) {
            (WorkPhase::Greeting, _) => {
                self.phase = WorkPhase::Connecting;
                MessageAction::ConnectDaemon
            },
            (WorkPhase::Connecting, MessageObservation::ConnectFailed(error)) => self.abort(error),
            (WorkPhase::Connecting, _) => {
                self.phase = WorkPhase::Starting;
                MessageAction::StartRun
            },
            (WorkPhase::Starting, MessageObservation::Started { run_id }) => {
                let (wait, action) = RunWait::start(run_id, self.presentation);
                self.wait = Some(wait);
                self.phase = WorkPhase::Waiting;
                MessageAction::Wait(action)
            },
            (WorkPhase::Starting, MessageObservation::StartFailed(error)) => self.abort(error),
            (WorkPhase::Waiting, MessageObservation::Waited(seen)) => self.wait_on(seen),
            (WorkPhase::Replying { .. }, MessageObservation::ReplyFailed(error)) => self.abort(
                error,
            ),
            (WorkPhase::Replying { status }, _) => self.finish(status),
            _ => self.close(),
        }
    }

    fn wait_on(&mut self, seen: WaitObservation) -> (action: MessageAction)
        requires
            old(self).wait is Some,
            run_wait::fits(old(self).wait->0@, seen),
        ensures
            ({
                let next = run_wait::next(old(self)@.wait->0, seen);
                waited(with_wait(old(self)@, next.0), next.1, final(self)@, action)
            }),
    {
        let mut waiting: Option<RunWait> = None;
        std::mem::swap(&mut self.wait, &mut waiting);
        match waiting {
            Some(mut wait) => {
                let asked = wait.step(seen);
                self.presentation = wait.presentation;
                self.wait = Some(wait);
                match asked {
                    WaitAction::Done(transcript) => self.conclude(transcript),
                    WaitAction::Fail(error) => self.abort(error),
                    asks => MessageAction::Wait(asks),
                }
            },
            None => MessageAction::ConnectDaemon,
        }
    }
}

/// Whatever goes wrong, the sign that the message is being worked on goes away, the sign of failure
/// takes its place, and then the work ends with the error.
pub proof fn a_failure_is_shown_and_passed_on(
    work: MessageWorkView,
    observation: MessageObservation,
    failed: MessageWorkView,
    first: MessageAction,
    shown: MessageWorkView,
    second: MessageAction,
    ended: MessageWorkView,
    last: MessageAction,
)
    requires
        work.failure is None,
        stepped(work, observation, failed, first),
        failed.failure is Some,
        stepped(failed, MessageObservation::Shown, shown, second),
        stepped(shown, MessageObservation::Shown, ended, last),
    ensures
        first == MessageAction::Show(PresentationEffect::RemoveReaction(Emoji::Eyes)),
        second == MessageAction::Show(PresentationEffect::AddReaction(Emoji::Failure)),
        last == MessageAction::Done(Err::<(), AppError>(failed.failure->0)),
{
    assert(failed.to_show =~= seq![PresentationEffect::AddReaction(Emoji::Failure)]);
    assert(shown.to_show =~= Seq::<PresentationEffect>::empty());
}

/// An error that the daemon or the channel reports is the error that the work ends with.
pub proof fn a_reported_error_is_kept(
    work: MessageWorkView,
    observation: MessageObservation,
    after: MessageWorkView,
    action: MessageAction,
    error: AppError,
)
    requires
        stepped(work, observation, after, action),
        observation == MessageObservation::ConnectFailed(error) || observation
            == MessageObservation::StartFailed(error) || observation
            == MessageObservation::ReplyFailed(error),
    ensures
        after.failure == Some(error),
{
}

/// Success is shown only where the run finished and its answer was brought to the channel.
pub proof fn success_is_shown_after_the_answer(
    work: MessageWorkView,
    observation: MessageObservation,
    after: MessageWorkView,
    action: MessageAction,
)
    requires
        fits(work, observation),
        stepped(work, observation, after, action),
        work.phase != WorkPhase::Closing,
        after.to_show.contains(PresentationEffect::AddTerminalReaction(Emoji::Success)),
        !work.to_show.contains(PresentationEffect::AddTerminalReaction(Emoji::Success)),
    ensures
        work.phase == (WorkPhase::Replying { status: RunStateName::Finished }),
        observation == MessageObservation::Replied,
{
    let success = PresentationEffect::AddTerminalReaction(Emoji::Success);
    assert(!failure_effects().drop_first().contains(success));
    assert forall|status: RunStateName|
        presentation::end_effects(status).len() > 0
            && #[trigger] presentation::end_effects(status).drop_first().contains(success) implies
        status == RunStateName::Finished by {
        let left = presentation::end_effects(status).drop_first();
        let i = choose|i: int| 0 <= i < left.len() && left[i] == success;
        assert(presentation::end_effects(status)[i + 1] == success);
    }
}

/// What the channel is told at the end of a run is the answer of that run, or that it failed.
pub proof fn the_reply_is_the_runs_answer(
    work: MessageWorkView,
    transcript: TranscriptReadResult,
    after: MessageWorkView,
    message: String,
)
    requires
        fits(
            work,
            MessageObservation::Waited(WaitObservation::Transcript(transcript)),
        ),
        stepped(
            work,
            MessageObservation::Waited(WaitObservation::Transcript(transcript)),
            after,
            MessageAction::Reply(message),
        ),
    ensures
        transcript.status == RunStateName::Finished ==> transcript.final_answer == Some(message),
        transcript.status != RunStateName::Finished ==> transcript.status == RunStateName::Failed
            && message@ == gateway::RUN_FAILED_MESSAGE@,
{
}

} // verus!
