//! The answer to one command: first the service is told that an answer comes, then the command is
//! carried out, then its answer is brought. The caller performs one action after the other and
//! reports what came of it.

use crate::daemon::protocol::{HelloResult, SessionSummary};
use crate::discord_gateway::commands;
use crate::discord_gateway::commands::{
    daemon_status, CommandRequest, DISCORD_DEFERRED_CHANNEL_MESSAGE, DISCORD_EPHEMERAL_FLAG,
    DaemonStatus, DiscordCommand, DiscordCommandHandler,
};
use crate::discord_gateway::gateway;
use crate::discord_gateway::gateway::require_capabilities;
use crate::discord_gateway::rest;
use crate::discord_gateway::rest::{RestFailure, discord_http_error};
use crate::error;
use crate::error::AppError;
use crate::text;
use vstd::prelude::*;

verus! {

/// How long the daemon may take to say how it is.
pub const DAEMON_STATUS_TIMEOUT: u128 = 2_000_000_000;

/// What the last action was for.
#[derive(Debug, PartialEq, Eq)]
pub enum CommandPhase {
    Deferring,
    GreetingDaemon,
    /// The daemon greeted back in this way.
    ListingSessions(HelloResult),
    Editing,
    Ended,
}

/// What to do next.
#[derive(Debug, PartialEq, Eq)]
pub enum CommandAction {
    /// Tell the service that the answer comes later.
    Defer { url: String, kind: u8, flags: u64 },
    /// Connect to the daemon and greet it; every answer must be there within `timeout`.
    GreetDaemon { timeout: u128 },
    /// Ask the daemon for its sessions, over the same connection.
    ListSessions,
    /// Bring the answer.
    Edit { url: String, content: String },
    Done(Result<(), AppError>),
}

/// What came of an action.
#[derive(Debug, PartialEq, Eq)]
pub enum CommandObservation {
    Answered(Result<(), RestFailure>),
    /// How the daemon greeted back, or nothing where it could not be greeted.
    Greeted(Option<HelloResult>),
    /// The daemon's sessions, or nothing where it could not be asked for them.
    Sessions(Option<Vec<SessionSummary>>),
}

/// The work on one command.
#[derive(Debug, PartialEq, Eq)]
pub struct CommandWork {
    pub request: CommandRequest,
    pub phase: CommandPhase,
}

/// Where the service is told that the answer to a command comes later.
pub open spec fn defer_url(handler: DiscordCommandHandler, request: CommandRequest) -> Seq<char> {
    handler.api_base@ + "/interactions/"@ + text::decimal(request.interaction_id as nat) + "/"@
        + request.token@ + "/callback"@
}

/// Where the answer to a command goes.
pub open spec fn edit_url(handler: DiscordCommandHandler, request: CommandRequest) -> Seq<char> {
    handler.api_base@ + "/webhooks/"@ + text::decimal(handler.application_id as nat) + "/"@
        + request.token@ + "/messages/@original"@
}

/// Whether the work ends with the failure of a request.
pub open spec fn failed_with(
    after: CommandWork,
    action: CommandAction,
    operation: Seq<char>,
    failure: RestFailure,
) -> bool {
    &&& after.phase == CommandPhase::Ended
    &&& action matches CommandAction::Done(Err(found)) && error::is_provider_error(
        found,
        rest::failure_text(operation, failure),
    )
}

/// Whether the answer is brought to where it goes.
pub open spec fn edits(
    handler: DiscordCommandHandler,
    after: CommandWork,
    action: CommandAction,
) -> bool {
    &&& after.phase == CommandPhase::Editing
    &&& action matches CommandAction::Edit { url, .. } && url@ == edit_url(handler, after.request)
}

/// Whether a channel is told how the gateway and the daemon are.
pub open spec fn tells_status(
    handler: DiscordCommandHandler,
    after: CommandWork,
    action: CommandAction,
    status: Option<DaemonStatus>,
) -> bool {
    let set = commands::set_in(handler.settings.overrides@, after.request.channel_id);
    &&& edits(handler, after, action)
    &&& action->content@ == commands::status_told(
        status,
        commands::model_of(handler.base_model@, set),
        commands::reasoning_of(set),
    )
}

/// Whether this is what follows from an observation: the work, the handler and the action.
pub open spec fn stepped(
    work: CommandWork,
    before: DiscordCommandHandler,
    observation: CommandObservation,
    after: CommandWork,
    handler: DiscordCommandHandler,
    action: CommandAction,
) -> bool {
    let channel_id = work.request.channel_id;
    &&& after.request == work.request
    &&& match (work.phase, observation) {
        (CommandPhase::Deferring, CommandObservation::Answered(Err(failure))) => {
            &&& handler == before
            &&& failed_with(after, action, "command defer"@, failure)
        },
        (CommandPhase::Deferring, CommandObservation::Answered(Ok(_))) =>
            match work.request.command {
            DiscordCommand::Status => {
                &&& handler == before
                &&& after.phase == CommandPhase::GreetingDaemon
                &&& action == (CommandAction::GreetDaemon { timeout: DAEMON_STATUS_TIMEOUT })
            },
            DiscordCommand::Model(value) => match action {
                CommandAction::Edit { content, .. } => {
                    &&& edits(before, after, action)
                    &&& commands::model_answered(before, handler, channel_id, value, Ok(content))
                },
                CommandAction::Done(Err(refused)) => {
                    &&& after.phase == CommandPhase::Ended
                    &&& commands::model_answered(before, handler, channel_id, value, Err(refused))
                },
                _ => false,
            },
            DiscordCommand::Reasoning(value) => {
                &&& edits(before, after, action)
                &&& commands::reasoning_answered(
                    before,
                    handler,
                    channel_id,
                    value,
                    action->content@,
                )
            },
        },
        (CommandPhase::GreetingDaemon, CommandObservation::Greeted(greeting)) => {
            &&& handler == before
            &&& match greeting {
                Some(hello) => if gateway::capable(hello) {
                    &&& after.phase == CommandPhase::ListingSessions(hello)
                    &&& action == CommandAction::ListSessions
                } else {
                    tells_status(before, after, action, None)
                },
                None => tells_status(before, after, action, None),
            }
        },
        (CommandPhase::ListingSessions(hello), CommandObservation::Sessions(found)) => {
            &&& handler == before
            &&& tells_status(
                before,
                after,
                action,
                match found {
                    Some(sessions) => commands::reported(hello, sessions@),
                    None => None,
                },
            )
        },
        (CommandPhase::Editing, CommandObservation::Answered(Ok(_))) => {
            &&& handler == before
            &&& after.phase == CommandPhase::Ended
            &&& action == CommandAction::Done(Ok::<(), AppError>(()))
        },
        (CommandPhase::Editing, CommandObservation::Answered(Err(failure))) => {
            &&& handler == before
            &&& failed_with(after, action, "command response edit"@, failure)
        },
        _ => false,
    }
}

/// Whether an observation is one that the last action can bring.
pub open spec fn fits(work: CommandWork, observation: CommandObservation) -> bool {
    match work.phase {
        CommandPhase::Deferring | CommandPhase::Editing => observation is Answered,
        CommandPhase::GreetingDaemon => observation is Greeted,
        CommandPhase::ListingSessions(_) => observation is Sessions,
        CommandPhase::Ended => false,
    }
}

impl CommandWork {
    /// Starts the work on a command.
    pub fn start(handler: &DiscordCommandHandler, request: CommandRequest) -> (result: (
        Self,
        CommandAction,
    ))
        ensures
            result.0 == (CommandWork { request, phase: CommandPhase::Deferring }),
            result.1 matches CommandAction::Defer { url, kind, flags } && url@ == defer_url(
                *handler,
                request,
            ) && kind == DISCORD_DEFERRED_CHANNEL_MESSAGE && flags == DISCORD_EPHEMERAL_FLAG,
    {
        let url = handler.callback_url(request.interaction_id, request.token.as_str());
        let defer = CommandAction::Defer {
            url,
            kind: DISCORD_DEFERRED_CHANNEL_MESSAGE,
            flags: DISCORD_EPHEMERAL_FLAG,
        };
        (CommandWork { request, phase: CommandPhase::Deferring }, defer)
    }

    fn edit(&mut self, handler: &DiscordCommandHandler, content: String) -> (action: CommandAction)
        ensures
            final(self).request == old(self).request,
            edits(*handler, *final(self), action),
            action->content == content,
    {
        self.phase = CommandPhase::Editing;
        CommandAction::Edit { url: handler.answer_url(self.request.token.as_str()), content }
    }

    fn tell_status(
        &mut self,
        handler: &DiscordCommandHandler,
        status: Option<DaemonStatus>,
    ) -> (action: CommandAction)
        ensures
            final(self).request == old(self).request,
            tells_status(*handler, *final(self), action, status),
    {
        let content = handler.status_content(self.request.channel_id, &status);
        self.edit(handler, content)
    }

    /// Carries out a command of which the service knows that its answer comes.
    fn carry_out(&mut self, handler: &mut DiscordCommandHandler) -> (action: CommandAction)
        ensures
            stepped(
                CommandWork { phase: CommandPhase::Deferring, ..*old(self) },
                *old(handler),
                CommandObservation::Answered(Ok(())),
                *final(self),
                *final(handler),
                action,
            ),
    {
        let channel_id: u64 = self.request.channel_id;
        match &self.request.command {
            DiscordCommand::Status => {
                self.phase = CommandPhase::GreetingDaemon;
                CommandAction::GreetDaemon { timeout: DAEMON_STATUS_TIMEOUT }
            },
            DiscordCommand::Model(value) => {
                match handler.model_content(channel_id, value.clone()) {
                    Ok(content) => self.edit(handler, content),
                    Err(refused) => {
                        self.phase = CommandPhase::Ended;
                        CommandAction::Done(Err(refused))
                    },
                }
            },
            DiscordCommand::Reasoning(value) => {
                let content = handler.reasoning_content(channel_id, value.clone());
                self.edit(handler, content)
            },
        }
    }

    /// Takes in what came of the last action, and says what to do next.
    pub fn step(
        &mut self,
        handler: &mut DiscordCommandHandler,
        observation: CommandObservation,
    ) -> (action: CommandAction)
        requires
            fits(*old(self), observation),
        ensures
            stepped(
                *old(self),
                *old(handler),
                observation,
                *final(self),
                *final(handler),
                action,
            ),
    {
        let mut phase = CommandPhase::Ended;
        std::mem::swap(&mut phase, &mut self.phase);
        match (phase, observation) {
            (CommandPhase::Deferring, CommandObservation::Answered(Ok(()))) => self.carry_out(
                handler,
            ),
            (CommandPhase::Deferring, CommandObservation::Answered(Err(failure))) => {
                self.phase = CommandPhase::Ended;
                CommandAction::Done(Err(discord_http_error("command defer", &failure)))
            },
            (CommandPhase::GreetingDaemon, CommandObservation::Greeted(greeting)) => {
                match greeting {
                    Some(hello) => {
                        if require_capabilities(&hello).is_ok() {
                            self.phase = CommandPhase::ListingSessions(hello);
                            CommandAction::ListSessions
                        } else {
                            self.tell_status(handler, None)
                        }
                    },
                    None => self.tell_status(handler, None),
                }
            },
            (CommandPhase::ListingSessions(hello), CommandObservation::Sessions(found)) => {
                let status = match &found {
                    Some(sessions) => match daemon_status(&hello, sessions) {
                        Ok(status) => Some(status),
                        Err(_) => None,
                    },
                    None => None,
                };
                self.tell_status(handler, status)
            },
            (_, CommandObservation::Answered(Err(failure))) => {
                self.phase = CommandPhase::Ended;
                CommandAction::Done(Err(discord_http_error("command response edit", &failure)))
            },
            (_, _) => {
                self.phase = CommandPhase::Ended;
                CommandAction::Done(Ok(()))
            },
        }
    }
}

/// The settings of the channels change only where the service took the command, and it is a
/// command that sets something; no other channel's settings change.
pub proof fn only_a_taken_command_changes_settings(
    work: CommandWork,
    before: DiscordCommandHandler,
    observation: CommandObservation,
    after: CommandWork,
    handler: DiscordCommandHandler,
    action: CommandAction,
)
    requires
        stepped(work, before, observation, after, handler, action),
    ensures
        commands::same_but_settings(before, handler),
        handler.settings != before.settings ==> {
            &&& work.phase == CommandPhase::Deferring
            &&& observation matches CommandObservation::Answered(Ok(_))
            &&& work.request.command != DiscordCommand::Status
            &&& handler.settings.overrides@.remove(work.request.channel_id)
                == before.settings.overrides@.remove(work.request.channel_id)
        },
{
    let channel_id = work.request.channel_id;
    assert forall|change: commands::SettingChange|
        #[trigger] commands::after_change(before.settings.overrides@, channel_id, change).remove(
            channel_id,
        ) == before.settings.overrides@.remove(channel_id) by {
        assert(commands::after_change(before.settings.overrides@, channel_id, change).remove(
            channel_id,
        ) =~= before.settings.overrides@.remove(channel_id));
    }
}

} // verus!
