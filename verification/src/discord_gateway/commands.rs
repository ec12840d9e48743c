//! The commands that the owner can give in a channel, and what they set there.

use crate::app::model;
use crate::app::model::{ReasoningEffort, RunOverrides};
use crate::daemon::protocol;
use crate::daemon::protocol::{HelloResult, SessionSummary};
use crate::discord_gateway::gateway;
use crate::discord_gateway::gateway::require_capabilities;
use crate::discord_gateway::rest::{
    DISCORD_CHAT_INPUT_COMMAND, DISCORD_DEFAULT_SETTING, DISCORD_MODEL_COMMAND,
    DISCORD_MODEL_OPTION, DISCORD_REASONING_COMMAND, DISCORD_REASONING_OPTION,
    DISCORD_STATUS_COMMAND, DISCORD_STRING_OPTION,
};
use crate::discord_gateway::rest;
use crate::error;
use crate::error::AppError;
use crate::text;
use std::collections::HashMap;
use vstd::prelude::*;

verus! {

broadcast use vstd::std_specs::hash::group_hash_axioms;

/// An interaction that gives a command.
pub const DISCORD_APPLICATION_COMMAND: u8 = 2;

/// The answer that a command will be answered later.
pub const DISCORD_DEFERRED_CHANNEL_MESSAGE: u8 = 5;

/// The mark of an answer that only its reader sees.
pub const DISCORD_EPHEMERAL_FLAG: u64 = 64;

/// The most bytes in the name of a model.
pub const DISCORD_MODEL_LIMIT: usize = 256;

#[derive(Debug, PartialEq, Eq)]
pub struct DiscordAuthor {
    pub id: String,
    pub bot: Option<bool>,
}

#[derive(Debug, PartialEq, Eq)]
pub struct InteractionMember {
    pub user: DiscordAuthor,
}

/// What comes with a command. A value that is not a string is left out.
#[derive(Debug, PartialEq, Eq)]
pub struct InteractionOption {
    pub kind: u8,
    pub name: String,
    pub value: Option<String>,
}

#[derive(Debug, PartialEq, Eq)]
pub struct InteractionData {
    pub kind: u8,
    pub name: String,
    pub options: Vec<InteractionOption>,
}

#[derive(Debug, PartialEq, Eq)]
pub struct InteractionCreateEvent {
    pub id: String,
    pub application_id: String,
    pub channel_id: String,
    pub kind: u8,
    pub token: String,
    pub data: Option<InteractionData>,
    pub member: Option<InteractionMember>,
    pub user: Option<DiscordAuthor>,
}

/// A command, with the value that was given to it.
#[derive(Debug, PartialEq, Eq)]
pub enum DiscordCommand {
    Status,
    Model(Option<String>),
    Reasoning(Option<String>),
}

/// A command of the owner, and where its answer goes.
#[derive(Debug, PartialEq, Eq)]
pub struct CommandRequest {
    pub interaction_id: u64,
    pub channel_id: u64,
    pub token: String,
    pub command: DiscordCommand,
}

/// The value that comes with a command, or why the command cannot be taken.
pub open spec fn option_given(data: InteractionData, expected: Seq<char>) -> Result<
    Option<String>,
    Seq<char>,
> {
    if data.options@.len() == 0 {
        Ok(None)
    } else if data.options@.len() != 1 {
        Err("discord command interaction included unexpected options"@)
    } else if data.options@[0].kind != DISCORD_STRING_OPTION || data.options@[0].name@
        != expected {
        Err("discord command interaction included an unexpected option"@)
    } else {
        match data.options@[0].value {
            Some(value) => Ok(Some(value)),
            None => Err("discord command option was not a string"@),
        }
    }
}

/// The command that is given, if it is one of ours, or why it cannot be taken.
pub open spec fn command_given(data: InteractionData) -> Result<Option<DiscordCommand>, Seq<char>> {
    if data.name@ == DISCORD_STATUS_COMMAND@ {
        if data.options@.len() == 0 {
            Ok(Some(DiscordCommand::Status))
        } else {
            Err("discord status interaction included unexpected options"@)
        }
    } else if data.name@ == DISCORD_MODEL_COMMAND@ {
        match option_given(data, DISCORD_MODEL_OPTION@) {
            Ok(value) => Ok(Some(DiscordCommand::Model(value))),
            Err(message) => Err(message),
        }
    } else if data.name@ == DISCORD_REASONING_COMMAND@ {
        match option_given(data, DISCORD_REASONING_OPTION@) {
            Ok(value) => Ok(Some(DiscordCommand::Reasoning(value))),
            Err(message) => Err(message),
        }
    } else {
        Ok(None)
    }
}

/// Whether a result is what it should be: a value, or the failure of the service with this text.
pub open spec fn comes_to<T>(result: Result<T, AppError>, expected: Result<T, Seq<char>>) -> bool {
    match expected {
        Ok(value) => result == Ok::<T, AppError>(value),
        Err(message) => result matches Err(found) && error::is_provider_error(found, message),
    }
}

/// The value that comes with a command.
pub fn optional_string_option(data: &InteractionData, expected: &str) -> (result: Result<
    Option<String>,
    AppError,
>)
    ensures
        comes_to(result, option_given(*data, expected@)),
{
    if data.options.len() == 0 {
        return Ok(None);
    }
    if data.options.len() != 1 {
        return Err(
            error::provider_error("discord command interaction included unexpected options"),
        );
    }
    let option = &data.options[0];
    if option.kind != DISCORD_STRING_OPTION || !text::same(option.name.as_str(), expected) {
        return Err(
            error::provider_error("discord command interaction included an unexpected option"),
        );
    }
    match &option.value {
        Some(value) => Ok(Some(value.clone())),
        None => Err(error::provider_error("discord command option was not a string")),
    }
}

/// The command that is given, if it is one of ours.
pub fn discord_command(data: &InteractionData) -> (result: Result<Option<DiscordCommand>, AppError>)
    ensures
        comes_to(result, command_given(*data)),
{
    if text::same(data.name.as_str(), DISCORD_STATUS_COMMAND) {
        if data.options.len() != 0 {
            return Err(
                error::provider_error("discord status interaction included unexpected options"),
            );
        }
        return Ok(Some(DiscordCommand::Status));
    }
    if text::same(data.name.as_str(), DISCORD_MODEL_COMMAND) {
        return match optional_string_option(data, DISCORD_MODEL_OPTION) {
            Ok(value) => Ok(Some(DiscordCommand::Model(value))),
            Err(failed) => Err(failed),
        };
    }
    if text::same(data.name.as_str(), DISCORD_REASONING_COMMAND) {
        return match optional_string_option(data, DISCORD_REASONING_OPTION) {
            Ok(value) => Ok(Some(DiscordCommand::Reasoning(value))),
            Err(failed) => Err(failed),
        };
    }
    Ok(None)
}

/// The number that an identifier of the service spells.
pub open spec fn snowflake(value: Seq<char>) -> Result<u64, Seq<char>> {
    match text::unsigned_number(value) {
        Some(id) => Ok(id),
        None => Err("discord gateway returned an invalid snowflake"@),
    }
}

/// The number that an identifier of the service spells.
pub fn parse_snowflake(value: &str) -> (result: Result<u64, AppError>)
    ensures
        comes_to(result, snowflake(value@)),
{
    match text::parse_unsigned(value) {
        Some(id) => Ok(id),
        None => Err(error::provider_error("discord gateway returned an invalid snowflake")),
    }
}

/// What the channels have set, each for itself.
#[derive(Debug)]
pub struct ChannelSettings {
    pub overrides: HashMap<u64, RunOverrides>,
}

/// A change of one setting.
#[derive(Debug, PartialEq, Eq)]
pub enum SettingChange {
    Model(Option<String>),
    Reasoning(Option<ReasoningEffort>),
}

pub open spec fn no_overrides() -> RunOverrides {
    RunOverrides { model: None, reasoning_effort: None }
}

/// What a channel has set.
pub open spec fn set_in(overrides: Map<u64, RunOverrides>, channel_id: u64) -> RunOverrides {
    if overrides.dom().contains(channel_id) {
        overrides[channel_id]
    } else {
        no_overrides()
    }
}

pub open spec fn changed(overrides: RunOverrides, change: SettingChange) -> RunOverrides {
    match change {
        SettingChange::Model(model) => RunOverrides { model, ..overrides },
        SettingChange::Reasoning(reasoning_effort) => RunOverrides { reasoning_effort, ..overrides },
    }
}

/// What the channels have set after a change: a channel that sets nothing is not kept.
pub open spec fn after_change(
    overrides: Map<u64, RunOverrides>,
    channel_id: u64,
    change: SettingChange,
) -> Map<u64, RunOverrides> {
    let next = changed(set_in(overrides, channel_id), change);
    if next == no_overrides() {
        overrides.remove(channel_id)
    } else {
        overrides.insert(channel_id, next)
    }
}

/// Whether a channel's model has been set to a name, and nothing else has changed.
pub open spec fn model_set(
    before: Map<u64, RunOverrides>,
    after: Map<u64, RunOverrides>,
    channel_id: u64,
    name: Seq<char>,
) -> bool {
    &&& after.dom().contains(channel_id)
    &&& after[channel_id].model matches Some(model) && model@ == name
    &&& after[channel_id].reasoning_effort == set_in(before, channel_id).reasoning_effort
    &&& after.remove(channel_id) == before.remove(channel_id)
}

impl ChannelSettings {
    pub fn new() -> (result: Self)
        ensures
            result.overrides@ == Map::<u64, RunOverrides>::empty(),
    {
        ChannelSettings { overrides: HashMap::new() }
    }

    /// What a channel has set.
    pub fn of_channel(&self, channel_id: u64) -> (result: RunOverrides)
        ensures
            result == set_in(self.overrides@, channel_id),
    {
        match self.overrides.get(&channel_id) {
            Some(overrides) => overrides.clone(),
            None => RunOverrides::default(),
        }
    }

    /// Changes one setting of a channel.
    pub fn update_overrides(&mut self, channel_id: u64, change: SettingChange)
        ensures
            final(self).overrides@ == after_change(old(self).overrides@, channel_id, change),
    {
        let mut overrides = self.of_channel(channel_id);
        match change {
            SettingChange::Model(model) => {
                overrides.model = model;
            },
            SettingChange::Reasoning(effort) => {
                overrides.reasoning_effort = effort;
            },
        }
        if overrides.is_empty() {
            self.overrides.remove(&channel_id);
        } else {
            self.overrides.insert(channel_id, overrides);
        }
    }
}

/// A change in one channel changes nothing in another, and setting something back leaves nothing
/// behind.
pub proof fn settings_are_of_one_channel(
    overrides: Map<u64, RunOverrides>,
    channel_id: u64,
    change: SettingChange,
    other: u64,
)
    ensures
        set_in(after_change(overrides, channel_id, change), channel_id) == changed(
            set_in(overrides, channel_id),
            change,
        ),
        other != channel_id ==> set_in(after_change(overrides, channel_id, change), other)
            == set_in(overrides, other),
        changed(set_in(overrides, channel_id), change) == no_overrides() ==> !after_change(
            overrides,
            channel_id,
            change,
        ).dom().contains(channel_id),
{
}

/// The commands of a channel, with what they set.
#[derive(Debug)]
pub struct DiscordCommandHandler {
    pub api_base: String,
    pub application_id: u64,
    pub owner_user_ids: Vec<u64>,
    pub base_model: String,
    pub settings: ChannelSettings,
}

/// Who gave a command: the member of a server, or else the user.
pub open spec fn author_of(interaction: InteractionCreateEvent) -> Option<DiscordAuthor> {
    match interaction.member {
        Some(member) => Some(member.user),
        None => interaction.user,
    }
}

/// What follows from an interaction: a command of the owner, nothing, or why the service's word
/// cannot be taken. The first check that fails decides.
pub open spec fn interaction_handled(
    application_id: u64,
    owner_user_ids: Seq<u64>,
    interaction: InteractionCreateEvent,
) -> Result<Option<CommandRequest>, Seq<char>> {
    if interaction.kind != DISCORD_APPLICATION_COMMAND {
        Ok(None)
    } else {
        match interaction.data {
            None => Err("discord interaction omitted command data"@),
            Some(data) => if data.kind != DISCORD_CHAT_INPUT_COMMAND {
                Ok(None)
            } else {
                match command_given(data) {
                    Err(message) => Err(message),
                    Ok(None) => Ok(None),
                    Ok(Some(command)) => command_accepted(
                        application_id,
                        owner_user_ids,
                        interaction,
                        command,
                    ),
                }
            },
        }
    }
}

/// What follows from an interaction that gives a command of ours.
pub open spec fn command_accepted(
    application_id: u64,
    owner_user_ids: Seq<u64>,
    interaction: InteractionCreateEvent,
    command: DiscordCommand,
) -> Result<Option<CommandRequest>, Seq<char>> {
    match snowflake(interaction.application_id@) {
        Err(message) => Err(message),
        Ok(application) => if application != application_id {
            Err("discord interaction used an unexpected application id"@)
        } else {
            match author_of(interaction) {
                None => Err("discord interaction omitted its author"@),
                Some(author) => match snowflake(author.id@) {
                    Err(message) => Err(message),
                    Ok(author_id) => if !owner_user_ids.contains(author_id) {
                        Ok(None)
                    } else {
                        match snowflake(interaction.channel_id@) {
                            Err(message) => Err(message),
                            Ok(channel_id) => match snowflake(interaction.id@) {
                                Err(message) => Err(message),
                                Ok(interaction_id) => if interaction.token@.len() == 0 {
                                    Err("discord interaction omitted its token"@)
                                } else {
                                    Ok(
                                        Some(
                                            CommandRequest {
                                                interaction_id,
                                                channel_id,
                                                token: interaction.token,
                                                command,
                                            },
                                        ),
                                    )
                                },
                            },
                        }
                    },
                },
            }
        },
    }
}

/// Whether a user is one of the owners.
pub fn is_owner(owner_user_ids: &Vec<u64>, user_id: u64) -> (result: bool)
    ensures
        result == owner_user_ids@.contains(user_id),
{
    let mut i: usize = 0;
    while i < owner_user_ids.len()
        invariant
            i <= owner_user_ids.len(),
            forall|j: int| 0 <= j < i ==> #[trigger] owner_user_ids@[j] != user_id,
        decreases owner_user_ids.len() - i,
    {
        if owner_user_ids[i] == user_id {
            return true;
        }
        i = i + 1;
    }
    false
}

/// A model's name that can be set: one word of at most so many bytes.
pub open spec fn is_model_word(value: Seq<char>) -> bool {
    text::utf8_len(value) <= DISCORD_MODEL_LIMIT && forall|i: int|
        0 <= i < value.len() ==> !text::is_space(#[trigger] value[i])
}

fn model_word(value: &str) -> (result: bool)
    ensures
        result == is_model_word(value@),
{
    if text::byte_len(value) > DISCORD_MODEL_LIMIT {
        return false;
    }
    let chars = text::chars_of(value);
    let mut i: usize = 0;
    while i < chars.len()
        invariant
            i <= chars.len(),
            chars@ == value@,
            forall|j: int| 0 <= j < i ==> !text::is_space(#[trigger] value@[j]),
        decreases chars.len() - i,
    {
        if text::space(chars[i]) {
            return false;
        }
        i = i + 1;
    }
    true
}

/// The model of a channel: the one it has set, or the configured one.
pub open spec fn model_of(base_model: Seq<char>, overrides: RunOverrides) -> Seq<char> {
    match overrides.model {
        Some(model) => model@,
        None => base_model,
    }
}

/// The reasoning effort of a channel, in words.
pub open spec fn reasoning_of(overrides: RunOverrides) -> Seq<char> {
    match overrides.reasoning_effort {
        Some(effort) => model::effort_text(effort),
        None => "provider default"@,
    }
}

/// What a command to set the model does: nothing, a change, or a refusal of the value.
pub enum ModelRequest {
    Show,
    Reset,
    Choose(Seq<char>),
    /// The value is not one word, or too long.
    Refused,
    /// The value is empty.
    Unnamed,
}

pub open spec fn model_request(value: Option<String>) -> ModelRequest {
    match value {
        None => ModelRequest::Show,
        Some(value) => {
            let name = text::trimmed(value@);
            if text::lower_all(name) == DISCORD_DEFAULT_SETTING@ {
                ModelRequest::Reset
            } else if !is_model_word(name) {
                ModelRequest::Refused
            } else if name.len() == 0 {
                ModelRequest::Unnamed
            } else {
                ModelRequest::Choose(name)
            }
        },
    }
}

/// What a command to set the reasoning effort does.
pub open spec fn reasoning_request(value: Option<String>) -> Option<Option<ReasoningEffort>> {
    let name = text::lower_all(value->0@);
    if name == DISCORD_DEFAULT_SETTING@ {
        Some(None)
    } else {
        match model::effort_named(name) {
            Some(effort) => Some(Some(effort)),
            None => None,
        }
    }
}

/// What a channel is told of its model.
pub open spec fn model_told(model: Seq<char>) -> Seq<char> {
    "Model: "@ + model + "\nScope: this Discord channel\nApplies to later messages."@
}

/// What a channel is told of its reasoning effort.
pub open spec fn reasoning_told(reasoning: Seq<char>) -> Seq<char> {
    "Reasoning effort: "@ + reasoning
        + "\nScope: this Discord channel\nApplies to later messages."@
}

/// What a channel is told of a model's name that cannot be set.
pub const MODEL_REFUSED: &'static str =
    "Model names must be one non-whitespace value of at most 256 bytes.";

/// What a channel is told of a reasoning effort that there is not.
pub const REASONING_REFUSED: &'static str =
    "Reasoning effort must be default, none, minimal, low, medium, high, xhigh, or max.";

/// The daemon as it reports itself: its version, its sessions, and how many of their runs go on.
#[derive(Debug, PartialEq, Eq)]
pub struct DaemonStatus {
    pub version: String,
    pub sessions: usize,
    pub active_runs: usize,
}

/// What a channel is told of the gateway and the daemon.
pub open spec fn status_told(
    daemon: Option<DaemonStatus>,
    model: Seq<char>,
    reasoning: Seq<char>,
) -> Seq<char> {
    match daemon {
        Some(status) =>
            "Plato Agent status\nGateway: connected\nDaemon: connected\nDaemon version: "@
            + status.version@ + "\nModel: "@ + model + "\nReasoning effort: "@ + reasoning
            + "\nWorkspace sessions: "@ + text::decimal(status.sessions as nat)
            + "\nActive runs: "@ + text::decimal(status.active_runs as nat),
        None => "Plato Agent status\nGateway: connected\nDaemon: unavailable\nModel: "@ + model
            + "\nReasoning effort: "@ + reasoning,
    }
}

/// How many of some sessions have a run that goes on.
pub open spec fn active_in(sessions: Seq<SessionSummary>) -> nat
    decreases sessions.len(),
{
    if sessions.len() == 0 {
        0
    } else {
        active_in(sessions.drop_last()) + if protocol::is_active(sessions.last().status) {
            1nat
        } else {
            0
        }
    }
}

/// The daemon as its answers report it: nothing where it cannot do what the gateway needs.
pub open spec fn reported(hello: HelloResult, sessions: Seq<SessionSummary>) -> Option<
    DaemonStatus,
> {
    if gateway::capable(hello) {
        Some(
            DaemonStatus {
                version: hello.daemon_version,
                sessions: sessions.len() as usize,
                active_runs: active_in(sessions) as usize,
            },
        )
    } else {
        None
    }
}

/// The daemon as its answers report it, or what it cannot do that the gateway needs.
pub fn daemon_status(hello: &HelloResult, sessions: &Vec<SessionSummary>) -> (result: Result<
    DaemonStatus,
    AppError,
>)
    ensures
        match reported(*hello, sessions@) {
            Some(status) => result == Ok::<DaemonStatus, AppError>(status),
            None => result matches Err(error) && gateway::names_first_lack(*hello, error),
        },
{
    if let Err(error) = require_capabilities(hello) {
        return Err(error);
    }
    let mut active_runs: usize = 0;
    let mut i: usize = 0;
    assert(sessions@.take(0) =~= Seq::<SessionSummary>::empty());
    while i < sessions.len()
        invariant
            i <= sessions.len(),
            active_runs <= i,
            active_runs == active_in(sessions@.take(i as int)),
        decreases sessions.len() - i,
    {
        assert(sessions@.take(i + 1).drop_last() =~= sessions@.take(i as int));
        assert(sessions@.take(i + 1).last() == sessions@[i as int]);
        if sessions[i].status.active() {
            active_runs = active_runs + 1;
        }
        i = i + 1;
    }
    assert(sessions@.take(i as int) =~= sessions@);
    Ok(DaemonStatus { version: hello.daemon_version.clone(), sessions: sessions.len(), active_runs })
}

/// Whether only the settings of a handler may have changed.
pub open spec fn same_but_settings(
    before: DiscordCommandHandler,
    after: DiscordCommandHandler,
) -> bool {
    &&& after.api_base == before.api_base
    &&& after.application_id == before.application_id
    &&& after.owner_user_ids == before.owner_user_ids
    &&& after.base_model == before.base_model
}

/// What a command to show or set the model of a channel does, and what it answers.
pub open spec fn model_answered(
    before: DiscordCommandHandler,
    after: DiscordCommandHandler,
    channel_id: u64,
    value: Option<String>,
    result: Result<String, AppError>,
) -> bool {
    &&& same_but_settings(before, after)
    &&& match model_request(value) {
        ModelRequest::Show => {
            &&& after.settings == before.settings
            &&& result matches Ok(told) && told@ == model_told(
                model_of(before.base_model@, set_in(before.settings.overrides@, channel_id)),
            )
        },
        ModelRequest::Reset => {
            &&& after.settings.overrides@ == after_change(
                before.settings.overrides@,
                channel_id,
                SettingChange::Model(None),
            )
            &&& result matches Ok(told) && told@ == model_told(before.base_model@)
        },
        ModelRequest::Choose(name) => {
            &&& model_set(
                before.settings.overrides@,
                after.settings.overrides@,
                channel_id,
                name,
            )
            &&& result matches Ok(told) && told@ == model_told(name)
        },
        ModelRequest::Refused => {
            &&& after.settings == before.settings
            &&& result matches Ok(told) && told@ == MODEL_REFUSED@
        },
        ModelRequest::Unnamed => {
            &&& after.settings == before.settings
            &&& result matches Err(AppError::Core(message)) && message@
                == "model name must not be empty"@
        },
    }
}

/// What a command to show or set the reasoning effort of a channel does, and what it answers.
pub open spec fn reasoning_answered(
    before: DiscordCommandHandler,
    after: DiscordCommandHandler,
    channel_id: u64,
    value: Option<String>,
    told: Seq<char>,
) -> bool {
    &&& same_but_settings(before, after)
    &&& match value {
        None => {
            &&& after.settings == before.settings
            &&& told == reasoning_told(
                reasoning_of(set_in(before.settings.overrides@, channel_id)),
            )
        },
        Some(_) => match reasoning_request(value) {
            None => {
                &&& after.settings == before.settings
                &&& told == REASONING_REFUSED@
            },
            Some(effort) => {
                &&& after.settings.overrides@ == after_change(
                    before.settings.overrides@,
                    channel_id,
                    SettingChange::Reasoning(effort),
                )
                &&& told == reasoning_told(
                    match effort {
                        Some(effort) => model::effort_text(effort),
                        None => "provider default"@,
                    },
                )
            },
        },
    }
}

impl DiscordCommandHandler {
    /// What follows from an interaction: a command of the owner, or nothing.
    pub fn handle(&self, interaction: InteractionCreateEvent) -> (result: Result<
        Option<CommandRequest>,
        AppError,
    >)
        ensures
            comes_to(
                result,
                interaction_handled(self.application_id, self.owner_user_ids@, interaction),
            ),
    {
        if interaction.kind != DISCORD_APPLICATION_COMMAND {
            return Ok(None);
        }
        let command = match &interaction.data {
            None => {
                return Err(error::provider_error("discord interaction omitted command data"));
            },
            Some(data) => {
                if data.kind != DISCORD_CHAT_INPUT_COMMAND {
                    return Ok(None);
                }
                match discord_command(data) {
                    Err(failed) => {
                        return Err(failed);
                    },
                    Ok(None) => {
                        return Ok(None);
                    },
                    Ok(Some(command)) => command,
                }
            },
        };
        match parse_snowflake(interaction.application_id.as_str()) {
            Err(failed) => {
                return Err(failed);
            },
            Ok(application_id) => {
                if application_id != self.application_id {
                    return Err(
                        error::provider_error(
                            "discord interaction used an unexpected application id",
                        ),
                    );
                }
            },
        }
        let author = match &interaction.member {
            Some(member) => &member.user,
            None => match &interaction.user {
                Some(user) => user,
                None => {
                    return Err(error::provider_error("discord interaction omitted its author"));
                },
            },
        };
        match parse_snowflake(author.id.as_str()) {
            Err(failed) => {
                return Err(failed);
            },
            Ok(author_id) => {
                if !is_owner(&self.owner_user_ids, author_id) {
                    return Ok(None);
                }
            },
        }
        let channel_id: u64 = match parse_snowflake(interaction.channel_id.as_str()) {
            Err(failed) => {
                return Err(failed);
            },
            Ok(channel_id) => channel_id,
        };
        let interaction_id: u64 = match parse_snowflake(interaction.id.as_str()) {
            Err(failed) => {
                return Err(failed);
            },
            Ok(interaction_id) => interaction_id,
        };
        if text::chars_of(interaction.token.as_str()).len() == 0 {
            return Err(error::provider_error("discord interaction omitted its token"));
        }
        Ok(
            Some(
                CommandRequest { interaction_id, channel_id, token: interaction.token, command },
            ),
        )
    }

    /// Where a command is told that its answer comes later.
    pub fn callback_url(&self, interaction_id: u64, interaction_token: &str) -> (result: String)
        ensures
            result@ == self.api_base@ + "/interactions/"@ + text::decimal(interaction_id as nat)
                + "/"@ + interaction_token@ + "/callback"@,
    {
        let mut url = text::concat3(
            self.api_base.as_str(),
            "/interactions/",
            text::to_decimal(interaction_id).as_str(),
        );
        url.append("/");
        url.append(interaction_token);
        url.append("/callback");
        url
    }

    /// Where the answer of a command goes.
    pub fn answer_url(&self, interaction_token: &str) -> (result: String)
        ensures
            result@ == self.api_base@ + "/webhooks/"@ + text::decimal(self.application_id as nat)
                + "/"@ + interaction_token@ + "/messages/@original"@,
    {
        let mut url = text::concat3(
            self.api_base.as_str(),
            "/webhooks/",
            text::to_decimal(self.application_id).as_str(),
        );
        url.append("/");
        url.append(interaction_token);
        url.append("/messages/@original");
        url
    }

    /// The model and the reasoning effort of a channel.
    pub fn effective_settings(&self, channel_id: u64) -> (result: (String, String))
        ensures
            result.0@ == model_of(
                self.base_model@,
                set_in(self.settings.overrides@, channel_id),
            ),
            result.1@ == reasoning_of(set_in(self.settings.overrides@, channel_id)),
    {
        let overrides = self.settings.of_channel(channel_id);
        let reasoning = match overrides.reasoning_effort {
            Some(effort) => effort.as_str().to_owned(),
            None => "provider default".to_owned(),
        };
        (model::chosen_model(self.base_model.as_str(), &overrides), reasoning)
    }

    /// What a channel is told of the gateway and the daemon.
    pub fn status_content(&self, channel_id: u64, daemon: &Option<DaemonStatus>) -> (result: String)
        ensures
            result@ == status_told(
                *daemon,
                model_of(self.base_model@, set_in(self.settings.overrides@, channel_id)),
                reasoning_of(set_in(self.settings.overrides@, channel_id)),
            ),
    {
        let (model, reasoning) = self.effective_settings(channel_id);
        match daemon {
            Some(status) => {
                let mut content = text::concat3(
                    "Plato Agent status\nGateway: connected\nDaemon: connected\nDaemon version: ",
                    status.version.as_str(),
                    "\nModel: ",
                );
                content.append(model.as_str());
                content.append("\nReasoning effort: ");
                content.append(reasoning.as_str());
                content.append("\nWorkspace sessions: ");
                content.append(text::to_decimal(status.sessions as u64).as_str());
                content.append("\nActive runs: ");
                content.append(text::to_decimal(status.active_runs as u64).as_str());
                content
            },
            None => {
                let mut content = text::concat3(
                    "Plato Agent status\nGateway: connected\nDaemon: unavailable\nModel: ",
                    model.as_str(),
                    "\nReasoning effort: ",
                );
                content.append(reasoning.as_str());
                content
            },
        }
    }

    /// Shows or sets the model of a channel, and says what the channel is told.
    pub fn model_content(&mut self, channel_id: u64, value: Option<String>) -> (result: Result<
        String,
        AppError,
    >)
        ensures
            model_answered(*old(self), *final(self), channel_id, value, result),
    {
        if let Some(value) = value {
            let name = text::trim(value.as_str());
            let lowered = text::to_lower_all(name.as_str());
            if text::same(lowered.as_str(), DISCORD_DEFAULT_SETTING) {
                self.settings.update_overrides(channel_id, SettingChange::Model(None));
            } else {
                if !model_word(name.as_str()) {
                    return Ok(MODEL_REFUSED.to_owned());
                }
                if text::chars_of(name.as_str()).len() == 0 {
                    return Err(AppError::Core("model name must not be empty".to_owned()));
                }
                self.settings.update_overrides(channel_id, SettingChange::Model(Some(name)));
                assert(self.settings.overrides@.remove(channel_id) =~= old(
                    self,
                ).settings.overrides@.remove(channel_id));
            }
        }
        let (model, _) = self.effective_settings(channel_id);
        Ok(
            text::concat3(
                "Model: ",
                model.as_str(),
                "\nScope: this Discord channel\nApplies to later messages.",
            ),
        )
    }

    /// Shows or sets the reasoning effort of a channel, and says what the channel is told.
    pub fn reasoning_content(&mut self, channel_id: u64, value: Option<String>) -> (result: String)
        ensures
            reasoning_answered(*old(self), *final(self), channel_id, value, result@),
    {
        if let Some(value) = value {
            let lowered = text::to_lower_all(value.as_str());
            if text::same(lowered.as_str(), DISCORD_DEFAULT_SETTING) {
                self.settings.update_overrides(channel_id, SettingChange::Reasoning(None));
            } else {
                match ReasoningEffort::parse(lowered.as_str()) {
                    None => {
                        return REASONING_REFUSED.to_owned();
                    },
                    Some(effort) => {
                        self.settings.update_overrides(
                            channel_id,
                            SettingChange::Reasoning(Some(effort)),
                        );
                    },
                }
            }
        }
        let (_, reasoning) = self.effective_settings(channel_id);
        text::concat3(
            "Reasoning effort: ",
            reasoning.as_str(),
            "\nScope: this Discord channel\nApplies to later messages.",
        )
    }
}

/// Only an owner's command, given to this application, has an effect.
pub proof fn only_owners_give_commands(
    application_id: u64,
    owner_user_ids: Seq<u64>,
    interaction: InteractionCreateEvent,
)
    ensures
        interaction_handled(application_id, owner_user_ids, interaction) matches Ok(Some(_)) ==> {
            &&& author_of(interaction) matches Some(author) && snowflake(author.id@) matches Ok(id)
                && owner_user_ids.contains(id)
            &&& snowflake(interaction.application_id@) == Ok::<u64, Seq<char>>(application_id)
            &&& interaction.token@.len() > 0
        },
{
}

/// Every value that the service offers for the reasoning effort is taken, whatever the case of its
/// letters.
pub proof fn every_choice_is_taken(value: String, choice: int)
    requires
        0 <= choice < rest::choice_texts().len(),
        text::lower_all(value@) == rest::choice_texts()[choice],
    ensures
        reasoning_request(Some(value)) is Some,
        (reasoning_request(Some(value))->0 is None) == (choice == 0),
{
    let name = text::lower_all(value@);
    let texts = rest::choice_texts();
    reveal_strlit("default");
    reveal_strlit("none");
    reveal_strlit("minimal");
    reveal_strlit("low");
    reveal_strlit("medium");
    reveal_strlit("high");
    reveal_strlit("xhigh");
    reveal_strlit("max");
    assert(texts[0] == DISCORD_DEFAULT_SETTING@);
    assert(texts[0].len() == 7 && texts[0][0] == 'd');
    assert(choice > 0 ==> texts[choice][0] != 'd');
    assert(choice > 0 ==> name != texts[0]);
}

} // verus!
