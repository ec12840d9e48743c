//! What the gateway does with the messages of its channels.

use crate::app::model::RunOverrides;
use crate::config::{Config, DiscordGatewayConfig, ResolvedConfigPath};
use crate::daemon::client;
use crate::daemon::client::{ClientRequest, DaemonClient};
use crate::daemon::handlers::Method;
use crate::daemon::protocol;
use crate::daemon::protocol::{
    HelloResult, MessageAppendParams, RunStartParams, RunStateName, TranscriptReadResult,
};
use crate::discord_gateway::commands::is_owner;
use crate::discord_gateway::input;
use crate::discord_gateway::input::discord_input_is_unsafe;
use crate::discord_gateway::receiver::DiscordMessage;
use crate::error;
use crate::error::AppError;
use crate::text;
use std::collections::HashMap;
use vstd::prelude::*;

verus! {

broadcast use vstd::std_specs::hash::group_hash_axioms;

pub const DISCORD_REJECTION_MESSAGE: &'static str =
    "Message rejected: unsafe or oversized Discord input.";

pub const RUN_FAILED_MESSAGE: &'static str = "Run failed. Inspect it locally with: plato replay";

/// Where a gateway works, and with which daemon and configuration.
#[derive(Debug, PartialEq, Eq)]
pub struct DiscordGatewayOptions {
    pub workspace_root: String,
    pub socket_path: Option<String>,
    pub config_path: Option<String>,
}

/// The configuration path that is handed to the daemon: only one that the user chose.
pub fn forwarded_config_path(resolved: &Option<ResolvedConfigPath>) -> (result: Option<String>)
    ensures
        result == (match *resolved {
            Some(ResolvedConfigPath::Authorized(path)) => Some(path),
            _ => None,
        }),
{
    match resolved {
        Some(resolved) => resolved.forwarded_path(),
        None => None,
    }
}

/// The settings of the Discord gateway, which a configuration need not have.
pub fn discord_of(config: &Config) -> (result: Result<&DiscordGatewayConfig, AppError>)
    ensures
        match config.gateway {
            Some(gateway) => result == Ok::<&DiscordGatewayConfig, AppError>(&gateway.discord),
            None => error::refused_with(result, "gateway.discord configuration is required"@),
        },
{
    match &config.gateway {
        Some(gateway) => Ok(&gateway.discord),
        None => Err(error::config_error("gateway.discord configuration is required")),
    }
}

/// A variable of the environment.
#[derive(Debug, PartialEq, Eq)]
pub enum EnvValue {
    Unset,
    Text(String),
    NotUnicode,
}

/// What is wrong with the environment of a gateway, given the variable of its token and, each with
/// whether it is set, the variables that may hold a provider's credential: the first fault counts.
pub open spec fn environment_error(
    token_env: Seq<char>,
    provider_env: Seq<char>,
    provider_set: bool,
    openai_set: bool,
    openrouter_set: bool,
    token: EnvValue,
) -> Option<Seq<char>> {
    if token_env == provider_env || token_env == "OPENAI_API_KEY"@ || token_env
        == "OPENROUTER_API_KEY"@ {
        Some("gateway token env var must differ from provider credential env vars"@)
    } else if provider_set {
        Some("gateway refuses provider credential env var "@ + provider_env)
    } else if openai_set {
        Some("gateway refuses provider credential env var "@ + "OPENAI_API_KEY"@)
    } else if openrouter_set {
        Some("gateway refuses provider credential env var "@ + "OPENROUTER_API_KEY"@)
    } else {
        match token {
            EnvValue::Unset => Some("gateway token env var "@ + token_env + " is not set"@),
            EnvValue::NotUnicode => Some("gateway token is not valid UTF-8"@),
            EnvValue::Text(token) => if token@.len() == 0 {
                Some("gateway token must not be empty"@)
            } else {
                None
            },
        }
    }
}

/// Whether the result is the token, or the fault of the environment, that these values give.
pub open spec fn token_follows(
    result: Result<String, AppError>,
    token_env: Seq<char>,
    provider_env: Seq<char>,
    provider: EnvValue,
    openai: EnvValue,
    openrouter: EnvValue,
    token: EnvValue,
) -> bool {
    match environment_error(
        token_env,
        provider_env,
        !(provider is Unset),
        !(openai is Unset),
        !(openrouter is Unset),
        token,
    ) {
        Some(message) => error::refused_with(result, message),
        None => result matches Ok(found) && token == EnvValue::Text(found),
    }
}

/// The token, or what is wrong with these values.
pub fn token_from(
    token_env: &str,
    provider_env: &str,
    provider: EnvValue,
    openai: EnvValue,
    openrouter: EnvValue,
    token: EnvValue,
) -> (result: Result<String, AppError>)
    ensures
        token_follows(result, token_env@, provider_env@, provider, openai, openrouter, token),
{
    if text::same(token_env, provider_env) || text::same(token_env, "OPENAI_API_KEY")
        || text::same(token_env, "OPENROUTER_API_KEY") {
        return Err(
            error::config_error(
                "gateway token env var must differ from provider credential env vars",
            ),
        );
    }
    if !matches!(provider, EnvValue::Unset) {
        return Err(
            AppError::Config(
                text::concat("gateway refuses provider credential env var ", provider_env),
            ),
        );
    }
    if !matches!(openai, EnvValue::Unset) {
        return Err(
            AppError::Config(
                text::concat("gateway refuses provider credential env var ", "OPENAI_API_KEY"),
            ),
        );
    }
    if !matches!(openrouter, EnvValue::Unset) {
        return Err(
            AppError::Config(
                text::concat("gateway refuses provider credential env var ", "OPENROUTER_API_KEY"),
            ),
        );
    }
    match token {
        EnvValue::Unset => Err(
            AppError::Config(text::concat3("gateway token env var ", token_env, " is not set")),
        ),
        EnvValue::NotUnicode => Err(error::config_error("gateway token is not valid UTF-8")),
        EnvValue::Text(token) => if text::chars_of(token.as_str()).len() == 0 {
            Err(error::config_error("gateway token must not be empty"))
        } else {
            Ok(token)
        },
    }
}

/// The token of the gateway, which must not run beside the credential of a provider. `env` looks up
/// a variable of the environment.
pub fn gateway_token<F: Fn(&str) -> EnvValue>(
    config: &Config,
    discord: &DiscordGatewayConfig,
    env: F,
) -> (result: Result<String, AppError>)
    requires
        forall|name: &str| #[trigger] call_requires(env, (name,)),
    ensures
        exists|provider: EnvValue, openai: EnvValue, openrouter: EnvValue, token: EnvValue|
            #![trigger token_follows(result, discord.api_key_env@, config.provider.api_key_env@, provider, openai, openrouter, token)]
            {
                &&& looked_up(env, config.provider.api_key_env@, provider)
                &&& looked_up(env, "OPENAI_API_KEY"@, openai)
                &&& looked_up(env, "OPENROUTER_API_KEY"@, openrouter)
                &&& looked_up(env, discord.api_key_env@, token)
                &&& token_follows(
                    result,
                    discord.api_key_env@,
                    config.provider.api_key_env@,
                    provider,
                    openai,
                    openrouter,
                    token,
                )
            },
{
    let provider = env(config.provider.api_key_env.as_str());
    let openai = env("OPENAI_API_KEY");
    let openrouter = env("OPENROUTER_API_KEY");
    let token = env(discord.api_key_env.as_str());
    let ghost provider_value = provider;
    let ghost openai_value = openai;
    let ghost openrouter_value = openrouter;
    let ghost token_value = token;
    let result = token_from(
        discord.api_key_env.as_str(),
        config.provider.api_key_env.as_str(),
        provider,
        openai,
        openrouter,
        token,
    );
    assert(looked_up(env, config.provider.api_key_env@, provider_value));
    assert(looked_up(env, discord.api_key_env@, token_value));
    assert(looked_up(env, "OPENAI_API_KEY"@, openai_value));
    assert(looked_up(env, "OPENROUTER_API_KEY"@, openrouter_value));
    assert(token_follows(
        result,
        discord.api_key_env@,
        config.provider.api_key_env@,
        provider_value,
        openai_value,
        openrouter_value,
        token_value,
    ));
    result
}

/// Whether a lookup of a variable can bring a value.
pub open spec fn looked_up<F: Fn(&str) -> EnvValue>(
    env: F,
    name: Seq<char>,
    value: EnvValue,
) -> bool {
    exists|s: &str| s@ == name && #[trigger] call_ensures(env, (s,), value)
}

/// A gateway that has its token runs beside no credential of a provider, and its token is in a
/// variable of its own.
pub proof fn the_gateway_runs_without_provider_credentials(
    token_env: Seq<char>,
    provider_env: Seq<char>,
    provider: EnvValue,
    openai: EnvValue,
    openrouter: EnvValue,
    token: EnvValue,
    result: Result<String, AppError>,
)
    requires
        token_follows(result, token_env, provider_env, provider, openai, openrouter, token),
        result is Ok,
    ensures
        provider is Unset && openai is Unset && openrouter is Unset,
        token_env != provider_env,
        result->Ok_0@.len() > 0,
{
}

/// What a daemon must be able to do.
pub open spec fn required_capabilities() -> Seq<Seq<char>> {
    seq![
        "hello"@,
        "run.start"@,
        "message.append"@,
        "events.stream"@,
        "sessions.list"@,
        "transcript.read"@,
    ]
}

/// Whether a daemon says that it can do something.
pub open spec fn advertises(hello: HelloResult, capability: Seq<char>) -> bool {
    exists|i: int|
        0 <= i < hello.capabilities@.len() && (#[trigger] hello.capabilities@[i])@ == capability
}

/// Whether a daemon says that it can do everything that it must be able to do.
pub open spec fn capable(hello: HelloResult) -> bool {
    forall|i: int|
        0 <= i < required_capabilities().len() ==> advertises(
            hello,
            #[trigger] required_capabilities()[i],
        )
}

fn is_advertised(hello: &HelloResult, capability: &str) -> (result: bool)
    ensures
        result == advertises(*hello, capability@),
{
    let mut i: usize = 0;
    while i < hello.capabilities.len()
        invariant
            i <= hello.capabilities@.len(),
            forall|j: int| 0 <= j < i ==> (#[trigger] hello.capabilities@[j])@ != capability@,
        decreases hello.capabilities@.len() - i,
    {
        if text::same(hello.capabilities[i].as_str(), capability) {
            return true;
        }
        i = i + 1;
    }
    false
}

/// Whether an error says that a daemon does not have a capability.
pub open spec fn says_lacking(error: AppError, capability: Seq<char>) -> bool {
    error matches AppError::DaemonProtocol(message) && message@
        == "daemon does not advertise required capability "@ + capability
}

/// Whether an error names the first thing that a daemon cannot do and must be able to do.
pub open spec fn names_first_lack(hello: HelloResult, error: AppError) -> bool {
    exists|i: int|
        0 <= i < required_capabilities().len() && says_lacking(
            error,
            #[trigger] required_capabilities()[i],
        ) && !advertises(hello, required_capabilities()[i]) && forall|j: int|
            0 <= j < i ==> advertises(hello, #[trigger] required_capabilities()[j])
}

/// Refuses a daemon that cannot do what the gateway needs, and names the first thing it cannot do.
pub fn require_capabilities(hello: &HelloResult) -> (result: Result<(), AppError>)
    ensures
        result is Ok == capable(*hello),
        result matches Err(error) ==> names_first_lack(*hello, error),
{
    let required: Vec<&'static str> =
        vec![
        "hello",
        "run.start",
        "message.append",
        "events.stream",
        "sessions.list",
        "transcript.read",
    ];
    let ghost texts = required_capabilities();
    assert forall|j: int| 0 <= j < texts.len() implies #[trigger] required@[j]@ == texts[j] by {}
    let mut i: usize = 0;
    while i < required.len()
        invariant
            i <= required.len(),
            required@.len() == texts.len(),
            texts == required_capabilities(),
            forall|j: int| 0 <= j < texts.len() ==> #[trigger] required@[j]@ == texts[j],
            forall|j: int| 0 <= j < i ==> advertises(*hello, #[trigger] texts[j]),
        decreases required.len() - i,
    {
        assert(required@[i as int]@ == texts[i as int]);
        if !is_advertised(hello, required[i]) {
            let error = AppError::DaemonProtocol(
                text::concat("daemon does not advertise required capability ", required[i]),
            );
            assert(says_lacking(error, texts[i as int]));
            return Err(error);
        }
        i = i + 1;
    }
    Ok(())
}

/// Whether the daemon may be asked again, over a new connection, after an error.
pub open spec fn may_reconnect(error: AppError) -> bool {
    match error {
        AppError::Io { .. } | AppError::Json(_) | AppError::DaemonProtocol(_) => true,
        AppError::DaemonResponse(error) => error.code@ == protocol::ERROR_NOT_FOUND@,
        _ => false,
    }
}

/// Whether the daemon may be asked again, over a new connection, after an error.
pub fn reconnectable(error: &AppError) -> (result: bool)
    ensures
        result == may_reconnect(*error),
{
    match error {
        AppError::Io { .. } | AppError::Json(_) | AppError::DaemonProtocol(_) => true,
        AppError::DaemonResponse(error) => text::same(
            error.code.as_str(),
            protocol::ERROR_NOT_FOUND,
        ),
        _ => false,
    }
}

/// Whether this is what the channel is told at the end of a run: the answer, that it failed, or
/// nothing where it was stopped. A run that has no answer, or has not ended, is an error.
pub open spec fn ends_with(
    transcript: TranscriptReadResult,
    told: Result<Option<String>, AppError>,
) -> bool {
    match transcript.status {
        RunStateName::Finished => match transcript.final_answer {
            Some(answer) => told == Ok::<_, AppError>(Some(answer)),
            None => told matches Err(AppError::RunFailed(message)) && message@ == "run "@
                + transcript.run_id@ + " ended with status "@ + protocol::state_text(
                transcript.status,
            ) + " without a final answer"@,
        },
        RunStateName::Failed => told matches Ok(Some(message)) && message@ == RUN_FAILED_MESSAGE@,
        RunStateName::Canceled | RunStateName::Interrupted => told == Ok::<_, AppError>(
            None::<String>,
        ),
        RunStateName::Running | RunStateName::CancelRequested => told matches Err(
            AppError::DaemonProtocol(message),
        ) && message@ == "run "@ + transcript.run_id@ + " read back with nonterminal status "@
            + protocol::state_text(transcript.status),
    }
}

/// What the channel is told at the end of a run.
pub fn terminal_message(transcript: TranscriptReadResult) -> (result: Result<
    Option<String>,
    AppError,
>)
    ensures
        ends_with(transcript, result),
{
    match transcript.status {
        RunStateName::Finished => match transcript.final_answer {
            Some(answer) => Ok(Some(answer)),
            None => {
                let mut message = text::concat3(
                    "run ",
                    transcript.run_id.as_str(),
                    " ended with status ",
                );
                message.append(transcript.status.as_str());
                message.append(" without a final answer");
                Err(AppError::RunFailed(message))
            },
        },
        RunStateName::Failed => Ok(Some(RUN_FAILED_MESSAGE.to_owned())),
        RunStateName::Canceled | RunStateName::Interrupted => Ok(None),
        RunStateName::Running | RunStateName::CancelRequested => {
            let mut message = text::concat3(
                "run ",
                transcript.run_id.as_str(),
                " read back with nonterminal status ",
            );
            message.append(transcript.status.as_str());
            Err(AppError::DaemonProtocol(message))
        },
    }
}

/// What is done with a message.
#[derive(Clone, Copy, Debug, PartialEq, Eq, Structural)]
pub enum MessageDecision {
    /// It is not the owner's, or it says nothing.
    Ignore,
    /// The channel is told that it is unsafe or too long.
    Reject,
    /// It is handed to the daemon.
    Handle,
}

/// What is done with a message of a user.
pub open spec fn decided(owner_user_ids: Seq<u64>, message: DiscordMessage) -> MessageDecision {
    if !owner_user_ids.contains(message.author_id) || text::is_blank(message.content@) {
        MessageDecision::Ignore
    } else if input::is_unsafe(message.content@) {
        MessageDecision::Reject
    } else {
        MessageDecision::Handle
    }
}

/// The request that starts a run for a message.
#[derive(Debug)]
pub enum RunRequest {
    Start(ClientRequest<RunStartParams>),
    Append(ClientRequest<MessageAppendParams>),
}

/// The gateway: whom it listens to, and which session each channel talks to.
#[derive(Debug)]
pub struct DiscordGateway {
    pub config_path: Option<String>,
    pub owner_user_ids: Vec<u64>,
    pub sessions: HashMap<u64, String>,
}

impl DiscordGateway {
    pub fn new(config_path: Option<String>, config: DiscordGatewayConfig) -> (result: Self)
        ensures
            result.config_path == config_path,
            result.owner_user_ids == config.owner_user_ids,
            result.sessions@ == Map::<u64, String>::empty(),
    {
        DiscordGateway {
            config_path,
            owner_user_ids: config.owner_user_ids,
            sessions: HashMap::new(),
        }
    }

    /// What is done with the next message.
    pub fn poll_once(&self, message: &DiscordMessage) -> (result: MessageDecision)
        ensures
            result == decided(self.owner_user_ids@, *message),
    {
        if !is_owner(&self.owner_user_ids, message.author_id) || text::blank(
            message.content.as_str(),
        ) {
            return MessageDecision::Ignore;
        }
        if discord_input_is_unsafe(message.content.as_str()) {
            return MessageDecision::Reject;
        }
        MessageDecision::Handle
    }

    /// The request that starts a run for a message: in the session that its channel talks to, or
    /// in a new one. The message is passed on as it is.
    pub fn handle_message(
        &self,
        daemon: &mut DaemonClient,
        message: DiscordMessage,
        overrides: RunOverrides,
    ) -> (result: RunRequest)
        requires
            old(daemon).next_id < u64::MAX,
        ensures
            if self.sessions@.dom().contains(message.channel_id) {
                result matches RunRequest::Append(request) && client::requested(
                    *old(daemon),
                    *final(daemon),
                    request,
                    Method::MessageAppend,
                ) && request.params == Some(
                    MessageAppendParams {
                        message: message.content,
                        session_id: Some(self.sessions@[message.channel_id]),
                        config_path: self.config_path,
                        overrides,
                        wait: Some(false),
                    },
                )
            } else {
                result matches RunRequest::Start(request) && client::requested(
                    *old(daemon),
                    *final(daemon),
                    request,
                    Method::RunStart,
                ) && request.params == Some(
                    RunStartParams {
                        question: message.content,
                        config_path: self.config_path,
                        overrides,
                        wait: Some(false),
                    },
                )
            },
    {
        match self.sessions.get(&message.channel_id) {
            Some(session_id) => RunRequest::Append(
                daemon.message_append_to_session_with_overrides(
                    message.content,
                    Some(session_id.clone()),
                    self.config_path.clone(),
                    overrides,
                    false,
                ),
            ),
            None => RunRequest::Start(
                daemon.run_start_with_overrides(
                    message.content,
                    self.config_path.clone(),
                    overrides,
                    false,
                ),
            ),
        }
    }

    /// Keeps the session that a channel talks to.
    pub fn started(&mut self, channel_id: u64, session_id: String)
        ensures
            final(self).sessions@ == old(self).sessions@.insert(channel_id, session_id),
            final(self).config_path == old(self).config_path,
            final(self).owner_user_ids == old(self).owner_user_ids,
    {
        self.sessions.insert(channel_id, session_id);
    }
}

/// Only a message of an owner that says something has any effect, and one that is unsafe never
/// reaches the daemon.
pub proof fn only_safe_messages_of_owners_are_handled(
    owner_user_ids: Seq<u64>,
    message: DiscordMessage,
)
    ensures
        decided(owner_user_ids, message) != MessageDecision::Ignore ==> owner_user_ids.contains(
            message.author_id,
        ),
        decided(owner_user_ids, message) == MessageDecision::Handle ==> !input::is_unsafe(
            message.content@,
        ),
{
}

} // verus!
