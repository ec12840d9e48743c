//! Bringing something to a channel under the service's limits: a text, part by part, and what is
//! shown at a message. The caller performs one action after the other and reports what came of it.

use crate::discord_gateway::presentation::PresentationEffect;
use crate::discord_gateway::rest;
use crate::discord_gateway::rest::{
    DiscordRestClient, RestClass, RestFailure, TerminalReaction,
};
use crate::error;
use crate::error::AppError;
use vstd::prelude::*;

verus! {

/// What to do next for a text.
#[derive(Debug, PartialEq, Eq)]
pub enum SendAction {
    /// Post this part.
    Post(String),
    Done,
    Fail(AppError),
}

/// A text on its way to a channel: its parts, and how many were posted.
#[derive(Debug, PartialEq, Eq)]
pub struct MessageSend {
    pub parts: Vec<String>,
    pub sent: usize,
}

/// Whether this is what to do after so many parts: post the next one, unless the service wants no
/// requests at all.
pub open spec fn sends_next(
    parts: Seq<String>,
    sent: int,
    client: DiscordRestClient,
    now: u128,
    action: SendAction,
) -> bool {
    if sent >= parts.len() {
        action == SendAction::Done
    } else if rest::reached(client.rate_limits.global_not_before, now) {
        action == SendAction::Post(parts[sent])
    } else {
        action matches SendAction::Fail(found) && error::is_provider_error(
            found,
            "discord REST is globally rate limited"@,
        )
    }
}

impl MessageSend {
    /// Starts to send a text.
    pub fn start(client: &DiscordRestClient, message: &str, now: u128) -> (result: (
        Self,
        SendAction,
    ))
        ensures
            rest::texts(result.0.parts@) == rest::chunks(message@),
            result.0.sent == 0,
            sends_next(result.0.parts@, 0, *client, now, result.1),
    {
        let send = MessageSend { parts: rest::discord_chunks(message), sent: 0 };
        let action = send.next_part(client, now);
        (send, action)
    }

    fn next_part(&self, client: &DiscordRestClient, now: u128) -> (action: SendAction)
        ensures
            sends_next(self.parts@, self.sent as int, *client, now, action),
    {
        if self.sent >= self.parts.len() {
            return SendAction::Done;
        }
        match client.require_product_allowed(now) {
            Ok(()) => SendAction::Post(self.parts[self.sent].clone()),
            Err(refused) => SendAction::Fail(refused),
        }
    }

    /// Takes in what came of a part. A part that was refused ends the sending.
    pub fn step(
        &mut self,
        client: &mut DiscordRestClient,
        answer: Result<(), RestFailure>,
        now: u128,
    ) -> (action: SendAction)
        requires
            old(self).sent < old(self).parts@.len(),
        ensures
            final(self).parts == old(self).parts,
            match answer {
                Ok(_) => {
                    &&& final(self).sent == old(self).sent + 1
                    &&& *final(client) == *old(client)
                    &&& sends_next(
                        old(self).parts@,
                        old(self).sent + 1,
                        *old(client),
                        now,
                        action,
                    )
                },
                Err(failure) => {
                    &&& final(self).sent == old(self).sent
                    &&& *final(client) == rest::after_failure(
                        *old(client),
                        RestClass::Product,
                        failure,
                        now,
                    )
                    &&& action matches SendAction::Fail(found) && error::is_provider_error(
                        found,
                        rest::failure_text("message send"@, failure),
                    )
                },
            },
    {
        match answer {
            Ok(()) => {
                assert(self.sent < self.parts.len());
                self.sent = self.sent + 1;
                self.next_part(client, now)
            },
            Err(failure) => SendAction::Fail(
                client.discord_http_error(
                    "message send",
                    RestClass::Product,
                    &failure,
                    now,
                ).app_error,
            ),
        }
    }
}

/// When the sending of a text is done, what was posted, part after part, is the text.
pub proof fn what_was_posted_is_the_text(
    message: Seq<char>,
    parts: Seq<String>,
    sent: int,
    client: DiscordRestClient,
    now: u128,
)
    requires
        rest::texts(parts) == rest::chunks(message),
        0 <= sent <= parts.len(),
        sends_next(parts, sent, client, now, SendAction::Done),
    ensures
        rest::joined(rest::texts(parts.take(sent))) == message,
{
    assert(parts.take(sent) =~= parts);
    rest::chunks_are_the_text(message);
}

/// Where the work on an effect stands.
#[derive(Clone, Copy, Debug, PartialEq, Eq, Structural)]
pub enum EffectPhase {
    /// It was asked for.
    Requested,
    /// The service asked to wait.
    Sleeping,
    /// It was asked for once more.
    Retried,
    Ended,
}

/// What to do next for an effect.
#[derive(Debug, PartialEq, Eq)]
pub enum EffectAction {
    /// Ask the service for the effect.
    Request,
    Sleep(u128),
    /// The effect is over: it was shown or left out, or it failed.
    Done(Result<(), AppError>),
}

/// What came of an action.
#[derive(Debug, PartialEq, Eq)]
pub enum EffectObservation {
    Answered { answer: Result<(), RestFailure>, now: u128 },
    Slept { now: u128 },
}

/// The work on one effect.
#[derive(Clone, Copy, Debug, PartialEq, Eq, Structural)]
pub struct EffectWork {
    pub effect: PresentationEffect,
    pub phase: EffectPhase,
}

/// Whether something may be shown.
pub open spec fn may_show(client: DiscordRestClient, now: u128) -> bool {
    rest::reached(client.rate_limits.global_not_before, now) && rest::reached(
        client.rate_limits.presentation_not_before,
        now,
    )
}

/// The name of an effect in a report.
pub open spec fn effect_name(effect: PresentationEffect) -> Seq<char> {
    match effect {
        PresentationEffect::TriggerTyping => "typing"@,
        _ => "reaction"@,
    }
}

/// Whether the work on an effect is over with a failure of this text.
pub open spec fn fails_with(action: EffectAction, message: Seq<char>) -> bool {
    action matches EffectAction::Done(Err(found)) && error::is_provider_error(found, message)
}

/// Whether this is what follows from an answer: the next phase and action. An effect that ends the
/// work on a message is asked for once more where the service names a time to wait.
pub open spec fn answered(
    work: EffectWork,
    answer: Result<(), RestFailure>,
    phase: EffectPhase,
    action: EffectAction,
) -> bool {
    match answer {
        Ok(_) => phase == EffectPhase::Ended && action == EffectAction::Done(Ok::<(), AppError>(())),
        Err(failure) => match rest::failure_limit(failure) {
            Some(limit) if work.effect is AddTerminalReaction => {
                let wait = rest::reaction_wait(limit);
                if wait is Some && work.phase == EffectPhase::Requested {
                    phase == EffectPhase::Sleeping && action == EffectAction::Sleep(wait->0)
                } else {
                    phase == EffectPhase::Ended && fails_with(
                        action,
                        "discord terminal reaction returned HTTP 429"@,
                    )
                }
            },
            _ => phase == EffectPhase::Ended && fails_with(
                action,
                rest::failure_text(effect_name(work.effect), failure),
            ),
        },
    }
}

/// Whether an observation is one that the last action can bring.
pub open spec fn fits(work: EffectWork, observation: EffectObservation) -> bool {
    match work.phase {
        EffectPhase::Requested | EffectPhase::Retried => observation is Answered,
        EffectPhase::Sleeping => observation is Slept,
        EffectPhase::Ended => false,
    }
}

/// Whether this is what follows from an observation: the work, the client and the action.
pub open spec fn effect_stepped(
    before: EffectWork,
    client_before: DiscordRestClient,
    observation: EffectObservation,
    after: EffectWork,
    client_after: DiscordRestClient,
    action: EffectAction,
) -> bool {
    &&& after.effect == before.effect
    &&& match observation {
        EffectObservation::Answered { answer, now } => {
            &&& client_after == match answer {
                Ok(_) => client_before,
                Err(failure) => rest::after_failure(
                    client_before,
                    RestClass::Presentation,
                    failure,
                    now,
                ),
            }
            &&& answered(before, answer, after.phase, action)
        },
        EffectObservation::Slept { now } => {
            &&& client_after == client_before
            &&& if may_show(client_before, now) {
                after.phase == EffectPhase::Retried && action == EffectAction::Request
            } else {
                after.phase == EffectPhase::Ended && action == EffectAction::Done(
                    Ok::<(), AppError>(()),
                )
            }
        },
    }
}

impl EffectWork {
    /// Starts the work on an effect. While the service wants no such request, it is left out.
    pub fn start(client: &DiscordRestClient, effect: PresentationEffect, now: u128) -> (result: (
        Self,
        EffectAction,
    ))
        ensures
            result.0.effect == effect,
            if may_show(*client, now) {
                result.0.phase == EffectPhase::Requested && result.1 == EffectAction::Request
            } else {
                result.0.phase == EffectPhase::Ended && result.1 == EffectAction::Done(
                    Ok::<(), AppError>(()),
                )
            },
    {
        if client.presentation_allowed(now) {
            (EffectWork { effect, phase: EffectPhase::Requested }, EffectAction::Request)
        } else {
            (EffectWork { effect, phase: EffectPhase::Ended }, EffectAction::Done(Ok(())))
        }
    }

    fn end(&mut self, result: Result<(), AppError>) -> (action: EffectAction)
        ensures
            *final(self) == (EffectWork { phase: EffectPhase::Ended, ..*old(self) }),
            action == EffectAction::Done(result),
    {
        self.phase = EffectPhase::Ended;
        EffectAction::Done(result)
    }

    /// Takes in what came of the last action, and says what to do next.
    pub fn step(&mut self, client: &mut DiscordRestClient, observation: EffectObservation) -> (action:
        EffectAction)
        requires
            fits(*old(self), observation),
        ensures
            effect_stepped(
                *old(self),
                *old(client),
                observation,
                *final(self),
                *final(client),
                action,
            ),
    {
        match observation {
            EffectObservation::Slept { now } => {
                if client.presentation_allowed(now) {
                    self.phase = EffectPhase::Retried;
                    EffectAction::Request
                } else {
                    self.end(Ok(()))
                }
            },
            EffectObservation::Answered { answer, now } => match self.effect {
                PresentationEffect::TriggerTyping => match answer {
                    Ok(()) => self.end(Ok(())),
                    Err(failure) => {
                        let failed = client.discord_http_error(
                            "typing",
                            RestClass::Presentation,
                            &failure,
                            now,
                        );
                        self.end(Err(failed.app_error))
                    },
                },
                PresentationEffect::AddReaction(_) | PresentationEffect::RemoveReaction(_) => {
                    proof {
                        reveal_strlit("discord ");
                        reveal_strlit("reaction");
                        reveal_strlit(" returned HTTP 429");
                        reveal_strlit("discord reaction returned HTTP 429");
                        assert("discord "@ + "reaction"@ + " returned HTTP 429"@
                            =~= "discord reaction returned HTTP 429"@);
                    }
                    let attempt = client.reaction_attempt(answer, now);
                    self.end(rest::reaction(attempt))
                },
                PresentationEffect::AddTerminalReaction(_) => {
                    let attempt = client.reaction_attempt(answer, now);
                    if self.phase == EffectPhase::Retried {
                        return self.end(rest::retry_terminal_reaction(attempt));
                    }
                    match rest::add_terminal_reaction(attempt) {
                        TerminalReaction::Done => self.end(Ok(())),
                        TerminalReaction::WaitAndRetry(wait) => {
                            self.phase = EffectPhase::Sleeping;
                            EffectAction::Sleep(wait)
                        },
                        TerminalReaction::Failed(failed) => self.end(Err(failed)),
                    }
                },
            },
        }
    }
}

/// Nothing is asked for more than twice, and only what ends the work on a message is asked for
/// again; before that there is a wait, which is bounded.
pub proof fn nothing_is_asked_for_a_third_time(
    before: EffectWork,
    client_before: DiscordRestClient,
    observation: EffectObservation,
    after: EffectWork,
    client_after: DiscordRestClient,
    action: EffectAction,
)
    requires
        fits(before, observation),
        effect_stepped(before, client_before, observation, after, client_after, action),
    ensures
        action == EffectAction::Request ==> before.phase == EffectPhase::Sleeping && after.phase
            == EffectPhase::Retried,
        before.phase == EffectPhase::Retried ==> after.phase == EffectPhase::Ended,
        after.phase == EffectPhase::Sleeping ==> before.effect is AddTerminalReaction,
        action matches EffectAction::Sleep(wait) ==> wait <= rest::TERMINAL_REACTION_WAIT_LIMIT,
{
}

} // verus!
