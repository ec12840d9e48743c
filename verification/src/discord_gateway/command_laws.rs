//! What holds of the commands of a channel, over all their values and one after the other.

use crate::app::model::{ReasoningEffort, RunOverrides};
use crate::daemon::protocol::{HelloResult, RunStateName, SessionSummary};
use crate::discord_gateway::commands::{
    self, daemon_status, discord_command, ChannelSettings, CommandRequest, DaemonStatus,
    DiscordCommand, DiscordCommandHandler, InteractionCreateEvent, InteractionData, SettingChange,
    MODEL_REFUSED, REASONING_REFUSED,
};
use crate::discord_gateway::gateway;
use crate::error::AppError;
use crate::text;
use vstd::prelude::*;

verus! {

/// Whether a channel has this set.
pub open spec fn has_set(
    settings: ChannelSettings,
    channel_id: u64,
    overrides: RunOverrides,
) -> bool {
    call_ensures(ChannelSettings::of_channel, (&settings, channel_id), overrides)
}

/// A change of the reasoning effort, to a value or back to none, sets the effort to what was given and
/// leaves the channel's model as it was; a change of the model sets the model to what was given and
/// leaves the effort as it was.
pub proof fn a_setting_changes_alone(
    before: ChannelSettings,
    after: ChannelSettings,
    channel_id: u64,
    change: SettingChange,
    old_set: RunOverrides,
    new_set: RunOverrides,
)
    requires
        exists|settings: &mut ChannelSettings|
            *settings == before && *final(settings) == after && #[trigger] call_ensures(
                ChannelSettings::update_overrides,
                (settings, channel_id, change),
                (),
            ),
        has_set(before, channel_id, old_set),
        has_set(after, channel_id, new_set),
    ensures
        change matches SettingChange::Reasoning(effort) ==> new_set.reasoning_effort == effort
            && new_set.model == old_set.model,
        change matches SettingChange::Model(model) ==> new_set.model == model
            && new_set.reasoning_effort == old_set.reasoning_effort,
{
}

/// A change in one channel changes nothing in another.
pub proof fn channels_are_apart(
    before: ChannelSettings,
    after: ChannelSettings,
    channel_id: u64,
    change: SettingChange,
    other: u64,
    old_set: RunOverrides,
    new_set: RunOverrides,
)
    requires
        exists|settings: &mut ChannelSettings|
            *settings == before && *final(settings) == after && #[trigger] call_ensures(
                ChannelSettings::update_overrides,
                (settings, channel_id, change),
                (),
            ),
        other != channel_id,
        has_set(before, other, old_set),
        has_set(after, other, new_set),
    ensures
        new_set == old_set,
{
}

/// A channel that sets nothing is not kept, and a channel that sets something is.
pub proof fn only_settings_are_kept(
    before: ChannelSettings,
    after: ChannelSettings,
    channel_id: u64,
    change: SettingChange,
    new_set: RunOverrides,
)
    requires
        exists|settings: &mut ChannelSettings|
            *settings == before && *final(settings) == after && #[trigger] call_ensures(
                ChannelSettings::update_overrides,
                (settings, channel_id, change),
                (),
            ),
        has_set(after, channel_id, new_set),
    ensures
        after.overrides@.contains_key(channel_id) <==> new_set.model is Some
            || new_set.reasoning_effort is Some,
        after.overrides@.contains_key(channel_id) ==> after.overrides@[channel_id] == new_set,
{
}

/// What comes later counts: of two changes of one setting the second one, and changes of the two
/// settings in either order come to the same.
pub proof fn the_last_change_counts(
    one: ChannelSettings,
    two: ChannelSettings,
    three: ChannelSettings,
    channel_id: u64,
    first: SettingChange,
    second: SettingChange,
    set: RunOverrides,
)
    requires
        exists|settings: &mut ChannelSettings|
            *settings == one && *final(settings) == two && #[trigger] call_ensures(
                ChannelSettings::update_overrides,
                (settings, channel_id, first),
                (),
            ),
        exists|settings: &mut ChannelSettings|
            *settings == two && *final(settings) == three && #[trigger] call_ensures(
                ChannelSettings::update_overrides,
                (settings, channel_id, second),
                (),
            ),
        has_set(three, channel_id, set),
    ensures
        second matches SettingChange::Model(model) ==> set.model == model,
        second matches SettingChange::Reasoning(effort) ==> set.reasoning_effort == effort,
        (first matches SettingChange::Model(model) && second is Reasoning) ==> set.model
            == first->Model_0,
        first is Reasoning && second is Model ==> set.reasoning_effort == first->Reasoning_0,
{
}

/// Whether a channel works with this model and this reasoning effort.
pub open spec fn works_with(
    handler: DiscordCommandHandler,
    channel_id: u64,
    shown: (String, String),
) -> bool {
    call_ensures(DiscordCommandHandler::effective_settings, (&handler, channel_id), shown)
}

/// Whether a text is a name that a model can be set to: one word of at most so many bytes.
pub open spec fn is_name(name: Seq<char>) -> bool {
    &&& name.len() > 0
    &&& text::utf8_len(name) <= 256
    &&& forall|i: int| 0 <= i < name.len() ==> !text::is_space(#[trigger] name[i])
}

/// Whether a text is the word for what was configured, in letters of either case.
pub open spec fn is_default(value: Seq<char>) -> bool {
    text::lower_all(value) == "default"@
}

/// A model that is named is what the channel works with from then on, `default` brings back the
/// configured one, and without a value nothing changes; a value that is no name changes nothing. The
/// reasoning effort stays in every case, and the answer shows the model.
pub proof fn the_model_is_the_one_named(
    before: DiscordCommandHandler,
    after: DiscordCommandHandler,
    channel_id: u64,
    value: Option<String>,
    answer: Result<String, AppError>,
    old_shown: (String, String),
    new_shown: (String, String),
)
    requires
        exists|handler: &mut DiscordCommandHandler|
            *handler == before && *final(handler) == after && #[trigger] call_ensures(
                DiscordCommandHandler::model_content,
                (handler, channel_id, value),
                answer,
            ),
        works_with(before, channel_id, old_shown),
        works_with(after, channel_id, new_shown),
    ensures
        new_shown.1@ == old_shown.1@,
        value is None ==> new_shown.0@ == old_shown.0@,
        value matches Some(given) ==> {
            let name = text::trimmed(given@);
            &&& is_default(name) ==> new_shown.0@ == before.base_model@
            &&& !is_default(name) && is_name(name) ==> new_shown.0@ == name
            &&& !is_default(name) && !is_name(name) ==> {
                &&& new_shown.0@ == old_shown.0@
                &&& after.settings == before.settings
                &&& answer matches Ok(told) ==> told@ == MODEL_REFUSED@
            }
            &&& is_default(name) || is_name(name) || name.len() > 0 ==> answer is Ok
            &&& name.len() == 0 ==> answer matches Err(AppError::Core(_))
        },
        (answer matches Ok(told) && (value is None || is_default(text::trimmed(value->0@))
            || is_name(text::trimmed(value->0@)))) ==> answer->Ok_0@ == "Model: "@ + new_shown.0@
            + "\nScope: this Discord channel\nApplies to later messages."@,
{
    reveal_strlit("default");
    if let Some(given) = value {
        let name = text::trimmed(given@);
        assert(name.len() == 0 ==> text::lower_all(name).len() == 0);
        if name.len() == 0 {
            assert(text::utf8_len(name) == 0);
            assert(commands::is_model_word(name));
        }
    }
}

/// Whether a name is that of an effort.
pub open spec fn spells(name: Seq<char>, effort: ReasoningEffort) -> bool {
    match effort {
        ReasoningEffort::Off => name == "none"@,
        ReasoningEffort::Minimal => name == "minimal"@,
        ReasoningEffort::Low => name == "low"@,
        ReasoningEffort::Medium => name == "medium"@,
        ReasoningEffort::High => name == "high"@,
        ReasoningEffort::Xhigh => name == "xhigh"@,
        ReasoningEffort::Max => name == "max"@,
    }
}

/// Whether there is an effort of a name.
pub open spec fn is_effort(name: Seq<char>) -> bool {
    exists|effort: ReasoningEffort| spells(name, effort)
}

proof fn names_are_apart(name: Seq<char>)
    ensures
        forall|effort: ReasoningEffort| #[trigger]
            spells(name, effort) ==> crate::app::model::effort_named(name) == Some(effort),
        crate::app::model::effort_named(name) matches Some(effort) ==> spells(name, effort),
        is_effort(name) ==> name != "default"@,
{
    reveal_strlit("default");
    reveal_strlit("none");
    reveal_strlit("minimal");
    reveal_strlit("low");
    reveal_strlit("medium");
    reveal_strlit("high");
    reveal_strlit("xhigh");
    reveal_strlit("max");
    assert("none"@[0] == 'n' && "minimal"@[1] == 'i' && "low"@[0] == 'l' && "medium"@[1] == 'e'
        && "high"@[0] == 'h' && "xhigh"@[0] == 'x' && "max"@[1] == 'a' && "minimal"@[0] == 'm'
        && "medium"@[0] == 'm' && "max"@[0] == 'm' && "default"@[0] == 'd');
}

/// An effort that is named is what the channel works with from then on, `default` leaves it to the
/// provider, and without a value nothing changes; a value that names no effort changes nothing and is
/// refused. The model stays in every case, and the answer shows the effort.
pub proof fn the_effort_is_the_one_named(
    before: DiscordCommandHandler,
    after: DiscordCommandHandler,
    channel_id: u64,
    value: Option<String>,
    answer: String,
    old_shown: (String, String),
    new_shown: (String, String),
)
    requires
        exists|handler: &mut DiscordCommandHandler|
            *handler == before && *final(handler) == after && #[trigger] call_ensures(
                DiscordCommandHandler::reasoning_content,
                (handler, channel_id, value),
                answer,
            ),
        works_with(before, channel_id, old_shown),
        works_with(after, channel_id, new_shown),
    ensures
        new_shown.0@ == old_shown.0@,
        value is None ==> new_shown.1@ == old_shown.1@,
        value matches Some(given) ==> {
            let name = text::lower_all(given@);
            &&& name == "default"@ ==> new_shown.1@ == "provider default"@
            &&& is_effort(name) ==> new_shown.1@ == name
            &&& name != "default"@ && !is_effort(name) ==> {
                &&& after.settings == before.settings
                &&& answer@ == REASONING_REFUSED@
            }
        },
        (value is None || is_default(value->0@) || is_effort(text::lower_all(value->0@)))
            ==> answer@ == "Reasoning effort: "@ + new_shown.1@
            + "\nScope: this Discord channel\nApplies to later messages."@,
{
    if let Some(given) = value {
        let name = text::lower_all(given@);
        names_are_apart(name);
        if is_effort(name) {
            let effort = choose|effort: ReasoningEffort| spells(name, effort);
            assert(crate::app::model::effort_named(name) == Some(effort));
        }
        if let Some(effort) = crate::app::model::effort_named(name) {
            assert(spells(name, effort));
        }
    }
}

/// What a channel works with is what it has set, and what it has not set is as configured.
pub proof fn a_channel_works_with_what_it_set(
    handler: DiscordCommandHandler,
    channel_id: u64,
    set: RunOverrides,
    shown: (String, String),
)
    requires
        has_set(handler.settings, channel_id, set),
        works_with(handler, channel_id, shown),
    ensures
        set.model matches Some(model) ==> shown.0@ == model@,
        set.model is None ==> shown.0@ == handler.base_model@,
        set.reasoning_effort matches Some(effort) ==> spells(shown.1@, effort),
        set.reasoning_effort is None ==> shown.1@ == "provider default"@,
{
}

/// Whether an interaction gives a command of this application in a message of the channel.
pub open spec fn gives(interaction: InteractionCreateEvent, command: DiscordCommand) -> bool {
    &&& interaction.kind == 2
    &&& interaction.data matches Some(data) && data.kind == 1 && call_ensures(
        discord_command,
        (&interaction.data->0,),
        Ok::<Option<DiscordCommand>, AppError>(Some(command)),
    )
}

/// The identifier of whoever gave a command: a member of a server, or else a user.
pub open spec fn giver(interaction: InteractionCreateEvent) -> Option<u64> {
    if interaction.member is Some {
        text::unsigned_number(interaction.member->0.user.id@)
    } else if interaction.user is Some {
        text::unsigned_number(interaction.user->0.id@)
    } else {
        None
    }
}

/// A command is taken exactly where an owner gave it to this application, in a channel and with a
/// token to answer it by; it is then the one that was given, in its channel. A command of anybody
/// else is passed over without an error.
pub proof fn an_owners_command_is_taken(
    handler: &DiscordCommandHandler,
    interaction: InteractionCreateEvent,
    result: Result<Option<CommandRequest>, AppError>,
)
    requires
        call_ensures(DiscordCommandHandler::handle, (handler, interaction), result),
    ensures
        result matches Ok(Some(request)) ==> {
            &&& interaction.kind == 2
            &&& interaction.data matches Some(data) && data.kind == 1
            &&& giver(interaction) matches Some(id) && handler.owner_user_ids@.contains(id)
            &&& text::unsigned_number(interaction.application_id@) == Some(handler.application_id)
            &&& text::unsigned_number(interaction.channel_id@) == Some(request.channel_id)
            &&& text::unsigned_number(interaction.id@) == Some(request.interaction_id)
            &&& request.token == interaction.token
            &&& interaction.token@.len() > 0
            &&& commands::command_given(interaction.data->0) == Ok::<
                Option<DiscordCommand>,
                Seq<char>,
            >(Some(request.command))
        },
        forall|command: DiscordCommand| #[trigger]
            gives(interaction, command) && giver(interaction) is Some && text::unsigned_number(
                interaction.application_id@,
            ) == Some(handler.application_id) && !handler.owner_user_ids@.contains(
                giver(interaction)->0,
            ) ==> result == Ok::<Option<CommandRequest>, AppError>(None),
        forall|command: DiscordCommand| #[trigger]
            gives(interaction, command) && giver(interaction) is Some && text::unsigned_number(
                interaction.application_id@,
            ) == Some(handler.application_id) && handler.owner_user_ids@.contains(
                giver(interaction)->0,
            ) && text::unsigned_number(interaction.channel_id@) is Some && text::unsigned_number(
                interaction.id@,
            ) is Some && interaction.token@.len() > 0 ==> (result matches Ok(Some(request))
                && request.command == command),
        interaction.kind != 2 ==> result == Ok::<Option<CommandRequest>, AppError>(None),
        result matches Err(error) ==> error is Provider,
{
}

/// The command that is given is the one of its name, with the text that comes with it.
pub proof fn a_command_is_known_by_its_name(
    data: &InteractionData,
    result: Result<Option<DiscordCommand>, AppError>,
)
    requires
        call_ensures(discord_command, (data,), result),
    ensures
        data.options@.len() == 0 && data.name@ == "status"@ ==> result == Ok::<
            Option<DiscordCommand>,
            AppError,
        >(Some(DiscordCommand::Status)),
        data.options@.len() == 0 && data.name@ == "model"@ ==> result == Ok::<
            Option<DiscordCommand>,
            AppError,
        >(Some(DiscordCommand::Model(None))),
        data.options@.len() == 0 && data.name@ == "reasoning"@ ==> result == Ok::<
            Option<DiscordCommand>,
            AppError,
        >(Some(DiscordCommand::Reasoning(None))),
        data.options@.len() == 1 && data.options@[0].kind == 3 && data.options@[0].value is Some
            ==> {
            &&& data.name@ == "model"@ && data.options@[0].name@ == "name"@ ==> result == Ok::<
                Option<DiscordCommand>,
                AppError,
            >(Some(DiscordCommand::Model(data.options@[0].value)))
            &&& data.name@ == "reasoning"@ && data.options@[0].name@ == "effort"@ ==> result
                == Ok::<Option<DiscordCommand>, AppError>(
                Some(DiscordCommand::Reasoning(data.options@[0].value)),
            )
        },
        data.name@ != "status"@ && data.name@ != "model"@ && data.name@ != "reasoning"@ ==> result
            == Ok::<Option<DiscordCommand>, AppError>(None),
        data.options@.len() > 1 && (data.name@ == "status"@ || data.name@ == "model"@ || data.name@
            == "reasoning"@) ==> result is Err,
        data.options@.len() == 1 && data.name@ == "status"@ ==> result is Err,
        data.options@.len() == 1 && data.options@[0].value is None && (data.name@ == "model"@
            || data.name@ == "reasoning"@) ==> result is Err,
{
    reveal_strlit("status");
    reveal_strlit("model");
    reveal_strlit("reasoning");
    assert("status"@[0] == 's' && "model"@[0] == 'm' && "reasoning"@[0] == 'r');
}

/// Whether a daemon says that it can do something.
pub open spec fn says_it_can(hello: HelloResult, what: Seq<char>) -> bool {
    exists|i: int| 0 <= i < hello.capabilities@.len() && (#[trigger] hello.capabilities@[i])@ == what
}

/// Whether a daemon says that it can do all that the gateway needs.
pub open spec fn can_all(hello: HelloResult) -> bool {
    &&& says_it_can(hello, "hello"@)
    &&& says_it_can(hello, "run.start"@)
    &&& says_it_can(hello, "message.append"@)
    &&& says_it_can(hello, "events.stream"@)
    &&& says_it_can(hello, "sessions.list"@)
    &&& says_it_can(hello, "transcript.read"@)
}

proof fn counted(sessions: Seq<SessionSummary>)
    ensures
        commands::active_in(sessions) == sessions.filter(|s: SessionSummary| goes_on(s)).len(),
        commands::active_in(sessions) <= sessions.len(),
    decreases sessions.len(),
{
    reveal(Seq::filter);
    if sessions.len() > 0 {
        counted(sessions.drop_last());
    }
}

/// Whether the run of a session has not ended.
pub open spec fn goes_on(session: SessionSummary) -> bool {
    session.status == RunStateName::Running || session.status == RunStateName::CancelRequested
}

/// A daemon is reported exactly where it can do all that the gateway needs: with its version, the
/// number of its sessions, and the number of those whose run has not ended.
pub proof fn a_daemon_is_reported_as_it_says(
    hello: &HelloResult,
    sessions: &Vec<SessionSummary>,
    result: Result<DaemonStatus, AppError>,
)
    requires
        call_ensures(daemon_status, (hello, sessions), result),
        sessions@.len() <= usize::MAX,
    ensures
        result is Ok <==> can_all(*hello),
        result matches Ok(status) ==> {
            &&& status.version == hello.daemon_version
            &&& status.sessions == sessions@.len()
            &&& status.active_runs == sessions@.filter(|s: SessionSummary| goes_on(s)).len()
        },
        result matches Err(error) ==> error is DaemonProtocol,
{
    counted(sessions@);
    let required = gateway::required_capabilities();
    if can_all(*hello) {
        assert forall|i: int| 0 <= i < required.len() implies gateway::advertises(
            *hello,
            #[trigger] required[i],
        ) by {
            assert(says_it_can(*hello, required[i]));
        }
    }
    if gateway::capable(*hello) {
        assert(gateway::advertises(*hello, required[0]));
        assert(gateway::advertises(*hello, required[1]));
        assert(gateway::advertises(*hello, required[2]));
        assert(gateway::advertises(*hello, required[3]));
        assert(gateway::advertises(*hello, required[4]));
        assert(gateway::advertises(*hello, required[5]));
    }
}

} // verus!
