//! What the channel shows while a message is worked on.

use crate::daemon::protocol::RunStateName;
use crate::time;
use vstd::prelude::*;

verus! {

/// How long the channel shows, after one signal, that an answer is being written.
pub const TYPING_INTERVAL: u128 = 8_000_000_000;

pub const EYES_EMOJI: &'static str = "👀";

pub const SUCCESS_EMOJI: &'static str = "✅";

pub const FAILURE_EMOJI: &'static str = "❌";

#[derive(Clone, Copy, Debug, PartialEq, Eq, Structural)]
pub enum Emoji {
    /// The message is being worked on.
    Eyes,
    /// The message was answered.
    Success,
    /// The message could not be answered.
    Failure,
}

pub open spec fn emoji_text(emoji: Emoji) -> Seq<char> {
    match emoji {
        Emoji::Eyes => EYES_EMOJI@,
        Emoji::Success => SUCCESS_EMOJI@,
        Emoji::Failure => FAILURE_EMOJI@,
    }
}

impl Emoji {
    pub fn as_str(self) -> (result: &'static str)
        ensures
            result@ == emoji_text(self),
    {
        match self {
            Emoji::Eyes => EYES_EMOJI,
            Emoji::Success => SUCCESS_EMOJI,
            Emoji::Failure => FAILURE_EMOJI,
        }
    }
}

/// Something to show at a message or in its channel. That it fails does not end the work.
#[derive(Clone, Copy, Debug, PartialEq, Eq, Structural)]
pub enum PresentationEffect {
    AddReaction(Emoji),
    RemoveReaction(Emoji),
    /// A reaction that is tried once more where the service asks to wait.
    AddTerminalReaction(Emoji),
    TriggerTyping,
}

/// What is shown at one message.
#[derive(Clone, Copy, Debug, PartialEq, Eq, Structural)]
pub struct MessagePresentation {
    pub channel_id: u64,
    pub message_id: u64,
    /// When the next typing signal is due; none if it is due at once.
    pub next_typing_at: Option<u128>,
}

/// Whether a typing signal is due.
pub open spec fn signal_due(next_typing_at: Option<u128>, paused: bool, now: u128) -> bool {
    !paused && match next_typing_at {
        Some(deadline) => now >= deadline,
        None => true,
    }
}

/// When the next typing signal is due, after it was asked whether one is.
pub open spec fn next_signal(next_typing_at: Option<u128>, paused: bool, now: u128) -> Option<
    u128,
> {
    if paused {
        None
    } else if signal_due(next_typing_at, paused, now) {
        time::moment_after(now, TYPING_INTERVAL)
    } else {
        next_typing_at
    }
}

/// What is shown at the end of a run.
pub open spec fn end_effects(status: RunStateName) -> Seq<PresentationEffect> {
    match status {
        RunStateName::Finished => seq![
            PresentationEffect::RemoveReaction(Emoji::Eyes),
            PresentationEffect::AddTerminalReaction(Emoji::Success),
        ],
        RunStateName::Failed => seq![
            PresentationEffect::RemoveReaction(Emoji::Eyes),
            PresentationEffect::AddTerminalReaction(Emoji::Failure),
        ],
        RunStateName::Canceled | RunStateName::Interrupted => seq![
            PresentationEffect::RemoveReaction(Emoji::Eyes),
        ],
        RunStateName::Running | RunStateName::CancelRequested => seq![],
    }
}

impl MessagePresentation {
    pub fn new(channel_id: u64, message_id: u64) -> (result: Self)
        ensures
            result == (MessagePresentation { channel_id, message_id, next_typing_at: None }),
    {
        MessagePresentation { channel_id, message_id, next_typing_at: None }
    }

    /// What is shown when the work on a message starts.
    pub fn add_eyes(&self) -> (result: PresentationEffect)
        ensures
            result == PresentationEffect::AddReaction(Emoji::Eyes),
    {
        PresentationEffect::AddReaction(Emoji::Eyes)
    }

    /// What is shown while the run goes on.
    pub fn observe_running(&mut self, paused: bool, now: u128) -> (result: Option<
        PresentationEffect,
    >)
        ensures
            *final(self) == (MessagePresentation {
                next_typing_at: next_signal(old(self).next_typing_at, paused, now),
                ..*old(self)
            }),
            result == (if signal_due(old(self).next_typing_at, paused, now) {
                Some(PresentationEffect::TriggerTyping)
            } else {
                None
            }),
    {
        if self.typing_due(paused, now) {
            Some(PresentationEffect::TriggerTyping)
        } else {
            None
        }
    }

    /// Whether a typing signal is due; one that is due counts as sent.
    pub fn typing_due(&mut self, paused: bool, now: u128) -> (result: bool)
        ensures
            *final(self) == (MessagePresentation {
                next_typing_at: next_signal(old(self).next_typing_at, paused, now),
                ..*old(self)
            }),
            result == signal_due(old(self).next_typing_at, paused, now),
    {
        if paused {
            self.stop_typing();
            return false;
        }
        if let Some(deadline) = self.next_typing_at {
            if now < deadline {
                return false;
            }
        }
        self.next_typing_at = time::later(now, TYPING_INTERVAL);
        true
    }

    /// Shows no typing until the next signal, which is then due at once.
    pub fn stop_typing(&mut self)
        ensures
            *final(self) == (MessagePresentation { next_typing_at: None, ..*old(self) }),
    {
        self.next_typing_at = None;
    }

    /// What is shown at the end of a run.
    pub fn finish(&mut self, status: RunStateName) -> (result: Vec<PresentationEffect>)
        ensures
            *final(self) == (MessagePresentation { next_typing_at: None, ..*old(self) }),
            result@ == end_effects(status),
    {
        self.stop_typing();
        let eyes = PresentationEffect::RemoveReaction(Emoji::Eyes);
        match status {
            RunStateName::Finished => vec![
                eyes,
                PresentationEffect::AddTerminalReaction(Emoji::Success),
            ],
            RunStateName::Failed => vec![
                eyes,
                PresentationEffect::AddTerminalReaction(Emoji::Failure),
            ],
            RunStateName::Canceled | RunStateName::Interrupted => vec![eyes],
            RunStateName::Running | RunStateName::CancelRequested => Vec::new(),
        }
    }

    /// What is shown when the work on a message fails.
    pub fn abnormal_exit(&mut self) -> (result: Vec<PresentationEffect>)
        ensures
            *final(self) == (MessagePresentation { next_typing_at: None, ..*old(self) }),
            result@ == seq![
                PresentationEffect::RemoveReaction(Emoji::Eyes),
                PresentationEffect::AddReaction(Emoji::Failure),
            ],
    {
        self.stop_typing();
        vec![
            PresentationEffect::RemoveReaction(Emoji::Eyes),
            PresentationEffect::AddReaction(Emoji::Failure),
        ]
    }
}

/// Two typing signals that no pause parts are at least one interval apart.
pub proof fn typing_signals_keep_their_distance(
    next_typing_at: Option<u128>,
    first: u128,
    second: u128,
)
    requires
        first <= second,
        first + TYPING_INTERVAL <= time::LAST_MOMENT,
        signal_due(next_typing_at, false, first),
        signal_due(next_signal(next_typing_at, false, first), false, second),
    ensures
        second >= first + TYPING_INTERVAL,
{
}

/// After a pause the next typing signal is due at once.
pub proof fn typing_resumes_at_once(next_typing_at: Option<u128>, paused_at: u128, now: u128)
    ensures
        signal_due(next_signal(next_typing_at, true, paused_at), false, now),
{
}

/// However a run ends, the sign that it is being worked on goes away, and no sign of success is
/// shown but for a run that finished.
pub proof fn the_end_is_shown_as_it_is(status: RunStateName)
    requires
        !crate::daemon::protocol::is_active(status),
    ensures
        end_effects(status).len() > 0,
        end_effects(status)[0] == PresentationEffect::RemoveReaction(Emoji::Eyes),
        end_effects(status).contains(PresentationEffect::AddTerminalReaction(Emoji::Success))
            <==> status == RunStateName::Finished,
        end_effects(status).contains(PresentationEffect::AddTerminalReaction(Emoji::Failure))
            <==> status == RunStateName::Failed,
{
    let effects = end_effects(status);
    if status == RunStateName::Finished || status == RunStateName::Failed {
        assert(effects[1] is AddTerminalReaction);
    }
}

} // verus!
