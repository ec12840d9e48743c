//! The agent's configuration: what a file may set, what is assumed where it sets nothing, and which
//! file counts.

use crate::error::{config_error, AppError};
use crate::{error, paths, text, tool_catalog};
use std::collections::HashMap;
use vstd::prelude::*;

verus! {

broadcast use vstd::std_specs::hash::group_hash_axioms;

pub const DEFAULT_OPENAI_MODEL: &'static str = "gpt-5.5";

pub const DEFAULT_OPENROUTER_MODEL: &'static str = "~openai/gpt-latest";

pub const DEFAULT_TOKEN_BUDGET: u32 = 4_000;

pub const DEFAULT_MAX_OUTPUT_TOKENS: u32 = 1_024;

pub const DEFAULT_MAX_TURNS: u32 = 8;

pub const DEFAULT_CONNECT_TIMEOUT_MS: u64 = 30_000;

pub const DEFAULT_STREAM_IDLE_TIMEOUT_MS: u64 = 120_000;

pub const OPENAI_BASE_URL: &'static str = "https://api.openai.com/v1";

pub const OPENROUTER_BASE_URL: &'static str = "https://openrouter.ai/api/v1";

pub const PLATO_CONFIG_ENV: &'static str = "PLATO_CONFIG";

pub const WORKSPACE_PROVIDER_OVERRIDE_ERROR: &'static str =
    "workspace plato.toml cannot set provider.api_key_env or provider.base_url; use --config, PLATO_CONFIG, or user config";

pub const WORKSPACE_GATEWAY_ERROR: &'static str =
    "workspace plato.toml cannot set [gateway]; use --config, PLATO_CONFIG, or user config";

pub const WORKSPACE_COMPUTER_ERROR: &'static str =
    "workspace plato.toml cannot configure or enable computer tools; use --config, PLATO_CONFIG, or user config";

pub const WORKSPACE_PRINCIPALS_ERROR: &'static str =
    "workspace plato.toml cannot set [principals]; use --config, PLATO_CONFIG, or user config";

pub const EMPTY_GATEWAY_ERROR: &'static str = "gateway must set discord or http";

/// Where the HTTP gateway listens where a file does not say.
pub const DEFAULT_HTTP_BIND: &'static str = "127.0.0.1:8787";

pub const TILDE_HOME_ERROR: &'static str = "user home is required for ~ expansion";

pub const CHANNEL_KEY_ERROR: &'static str =
    "gateway.discord.channel_configs keys must be positive numeric Discord channel IDs";

pub const CHANNEL_DUPLICATE_ERROR: &'static str =
    "gateway.discord.channel_configs contains a duplicate numeric Discord channel ID";

/// A configuration file, and whether it was chosen by the user or found in the workspace.
#[derive(Clone, Debug, PartialEq, Eq)]
pub enum ResolvedConfigPath {
    Authorized(String),
    Workspace(String),
}

/// The text of a resolved path.
pub open spec fn resolved_text(resolved: ResolvedConfigPath) -> Seq<char> {
    match resolved {
        ResolvedConfigPath::Authorized(path) => path@,
        ResolvedConfigPath::Workspace(path) => path@,
    }
}

impl ResolvedConfigPath {
    /// The path of the file.
    pub fn path(&self) -> (result: &str)
        ensures
            result@ == resolved_text(*self),
    {
        match self {
            ResolvedConfigPath::Authorized(path) => path.as_str(),
            ResolvedConfigPath::Workspace(path) => path.as_str(),
        }
    }

    /// The path of the file.
    pub fn into_path(self) -> (result: String)
        ensures
            result@ == resolved_text(self),
    {
        match self {
            ResolvedConfigPath::Authorized(path) => path,
            ResolvedConfigPath::Workspace(path) => path,
        }
    }

    /// The path that may be handed to another process: only one that the user chose.
    pub fn forwarded_path(&self) -> (result: Option<String>)
        ensures
            self is Workspace ==> result is None,
            *self matches ResolvedConfigPath::Authorized(path) ==> result == Some(path),
    {
        match self {
            ResolvedConfigPath::Authorized(path) => Some(path.clone()),
            ResolvedConfigPath::Workspace(_) => None,
        }
    }
}

#[derive(Debug)]
pub struct Config {
    pub provider: ProviderConfig,
    pub limits: LimitsConfig,
    pub tools: ToolsConfig,
    pub gateway: Option<GatewayConfig>,
    pub http_gateway: Option<HttpGatewayConfig>,
    /// Who may use the HTTP gateway, each under the key of its table.
    pub http_principals: Vec<(String, HttpPrincipalConfig)>,
    pub computer: Option<ComputerConfig>,
}

/// Where the HTTP gateway listens, and whether it may listen where other hosts can reach it.
#[derive(Debug, PartialEq, Eq)]
pub struct HttpGatewayConfig {
    pub bind: String,
    pub allow_non_loopback: bool,
}

/// Somebody who may use the HTTP gateway: the hashes of their tokens, and the workspaces that they
/// reach.
#[derive(Debug, PartialEq, Eq)]
pub struct HttpPrincipalConfig {
    pub name: String,
    pub token_sha256: Vec<String>,
    pub workspace_ids: Vec<String>,
}

/// The program that looks at the desktop; without one it is searched for by its name.
#[derive(Debug, PartialEq, Eq)]
pub struct ComputerConfig {
    pub executable: Option<String>,
}

#[derive(Debug)]
pub struct GatewayConfig {
    pub discord: DiscordGatewayConfig,
}

#[derive(Debug)]
pub struct DiscordGatewayConfig {
    pub api_key_env: String,
    pub owner_user_ids: Vec<u64>,
    pub channel_configs: HashMap<u64, String>,
}

#[derive(Clone, Debug)]
pub struct ProviderConfig {
    pub kind: ProviderKind,
    pub model: String,
    pub api_key_env: String,
    pub base_url: String,
    pub connect_timeout_ms: u64,
    pub stream_idle_timeout_ms: u64,
    pub http_referer: Option<String>,
    pub app_title: Option<String>,
}

#[derive(Clone, Copy, Debug, PartialEq, Eq, Structural)]
pub enum ProviderKind {
    OpenAi,
    OpenRouter,
}

#[derive(Clone, Copy, Debug, PartialEq, Eq, Structural)]
pub struct LimitsConfig {
    pub token_budget: u32,
    pub max_output_tokens: u32,
    pub max_turns: u32,
}

#[derive(Clone, Debug)]
pub struct ToolsConfig {
    pub enabled: Vec<String>,
}

/// A configuration file as it was written: what it does not set is absent.
#[derive(Debug)]
pub struct RawConfig {
    pub provider: Option<RawProviderConfig>,
    pub limits: Option<RawLimitsConfig>,
    pub tools: Option<RawToolsConfig>,
    pub gateway: Option<RawGatewayConfig>,
    pub principals: Option<RawPrincipalsConfig>,
    pub computer: Option<ComputerConfig>,
}

#[derive(Debug)]
pub struct RawGatewayConfig {
    pub discord: Option<RawDiscordGatewayConfig>,
    pub http: Option<RawHttpGatewayConfig>,
}

#[derive(Debug)]
pub struct RawHttpGatewayConfig {
    pub bind: Option<String>,
    pub allow_non_loopback: Option<bool>,
}

/// The tables of those who may use a gateway, in the order in which they are read.
#[derive(Debug)]
pub struct RawPrincipalsConfig {
    pub http: Vec<(String, HttpPrincipalConfig)>,
}

/// The table of the Discord gateway; the channels stand in the order in which they are read.
#[derive(Debug)]
pub struct RawDiscordGatewayConfig {
    pub api_key_env: String,
    pub owner_user_ids: Vec<u64>,
    pub channel_configs: Vec<(String, String)>,
}

#[derive(Debug)]
pub struct RawProviderConfig {
    pub kind: Option<ProviderKind>,
    pub model: Option<String>,
    pub api_key_env: Option<String>,
    pub base_url: Option<String>,
    pub connect_timeout_ms: Option<u64>,
    pub stream_idle_timeout_ms: Option<u64>,
    pub timeout_ms: Option<u64>,
    pub http_referer: Option<String>,
    pub app_title: Option<String>,
}

#[derive(Debug)]
pub struct RawLimitsConfig {
    pub token_budget: Option<u32>,
    pub max_output_tokens: Option<u32>,
    pub max_turns: Option<u32>,
}

#[derive(Debug)]
pub struct RawToolsConfig {
    pub enabled: Option<Vec<String>>,
}

impl Default for RawProviderConfig {
    fn default() -> (result: Self)
        ensures
            result == absent_provider(),
    {
        RawProviderConfig {
            kind: None,
            model: None,
            api_key_env: None,
            base_url: None,
            connect_timeout_ms: None,
            stream_idle_timeout_ms: None,
            timeout_ms: None,
            http_referer: None,
            app_title: None,
        }
    }
}

impl Default for RawLimitsConfig {
    fn default() -> (result: Self)
        ensures
            result == absent_limits(),
    {
        RawLimitsConfig { token_budget: None, max_output_tokens: None, max_turns: None }
    }
}

impl Default for RawToolsConfig {
    fn default() -> (result: Self)
        ensures
            result == (RawToolsConfig { enabled: None }),
    {
        RawToolsConfig { enabled: None }
    }
}

/// A provider table that sets nothing.
pub open spec fn absent_provider() -> RawProviderConfig {
    RawProviderConfig {
        kind: None,
        model: None,
        api_key_env: None,
        base_url: None,
        connect_timeout_ms: None,
        stream_idle_timeout_ms: None,
        timeout_ms: None,
        http_referer: None,
        app_title: None,
    }
}

/// A table of limits that sets nothing.
pub open spec fn absent_limits() -> RawLimitsConfig {
    RawLimitsConfig { token_budget: None, max_output_tokens: None, max_turns: None }
}

pub open spec fn provider_of(raw: RawConfig) -> RawProviderConfig {
    match raw.provider {
        Some(provider) => provider,
        None => absent_provider(),
    }
}

pub open spec fn limits_of(raw: RawConfig) -> RawLimitsConfig {
    match raw.limits {
        Some(limits) => limits,
        None => absent_limits(),
    }
}

/// The value that is set, or the one that is assumed.
pub open spec fn set_or<T>(value: Option<T>, assumed: T) -> T {
    match value {
        Some(v) => v,
        None => assumed,
    }
}

/// The text that is set, or the one that is assumed.
pub open spec fn text_or(value: Option<String>, assumed: Seq<char>) -> Seq<char> {
    match value {
        Some(v) => v@,
        None => assumed,
    }
}

pub open spec fn default_model_text(kind: ProviderKind) -> Seq<char> {
    match kind {
        ProviderKind::OpenAi => DEFAULT_OPENAI_MODEL@,
        ProviderKind::OpenRouter => DEFAULT_OPENROUTER_MODEL@,
    }
}

pub open spec fn default_key_text(kind: ProviderKind) -> Seq<char> {
    match kind {
        ProviderKind::OpenAi => "OPENAI_API_KEY"@,
        ProviderKind::OpenRouter => "OPENROUTER_API_KEY"@,
    }
}

pub open spec fn default_url_text(kind: ProviderKind) -> Seq<char> {
    match kind {
        ProviderKind::OpenAi => OPENAI_BASE_URL@,
        ProviderKind::OpenRouter => OPENROUTER_BASE_URL@,
    }
}

/// The provider that a file asks for.
pub open spec fn kind_of(raw: RawConfig) -> ProviderKind {
    set_or(provider_of(raw).kind, ProviderKind::OpenRouter)
}

/// The names of the tools that a file enables.
pub open spec fn enabled_of(raw: RawConfig) -> Seq<Seq<char>> {
    match raw.tools {
        Some(RawToolsConfig { enabled: Some(enabled) }) => tool_catalog::texts(enabled@),
        _ => tool_catalog::default_tools(),
    }
}

/// The refusal of a value that must be positive.
pub open spec fn positive_error(value: u64, field: Seq<char>) -> Option<Seq<char>> {
    if value == 0 {
        Some(field + " must be positive"@)
    } else {
        None
    }
}

/// The number of a Discord channel, if a key spells one.
pub open spec fn channel_number(key: Seq<char>) -> Option<u64> {
    match text::decimal_number(key) {
        Some(n) => if n == 0 {
            None
        } else {
            Some(n)
        },
        None => None,
    }
}

/// What is wrong with the first entry that is not the first of a channel, if there is one.
pub open spec fn channels_error(entries: Seq<(String, String)>) -> Option<Seq<char>>
    decreases entries.len(),
{
    if entries.len() == 0 {
        None
    } else {
        match channels_error(entries.drop_last()) {
            Some(message) => Some(message),
            None => match channel_number(entries.last().0@) {
                None => Some(CHANNEL_KEY_ERROR@),
                Some(n) => if channel_map(entries.drop_last()).contains_key(n) {
                    Some(CHANNEL_DUPLICATE_ERROR@)
                } else {
                    None
                },
            },
        }
    }
}

/// The configuration path of each channel.
pub open spec fn channel_map(entries: Seq<(String, String)>) -> Map<u64, String>
    decreases entries.len(),
{
    if entries.len() == 0 {
        Map::empty()
    } else {
        match channel_number(entries.last().0@) {
            Some(n) => channel_map(entries.drop_last()).insert(n, entries.last().1),
            None => channel_map(entries.drop_last()),
        }
    }
}

/// What is wrong with the table of the Discord gateway, if anything is.
pub open spec fn discord_error(raw: RawDiscordGatewayConfig) -> Option<Seq<char>> {
    if text::is_blank(raw.api_key_env@) {
        Some("gateway.discord.api_key_env must not be empty"@)
    } else if raw.owner_user_ids@.len() == 0 {
        Some("gateway.discord.owner_user_ids must not be empty"@)
    } else if raw.owner_user_ids@.contains(0u64) {
        Some("gateway.discord.owner_user_ids must contain positive integers"@)
    } else if raw.channel_configs@.len() == 0 {
        Some("gateway.discord.channel_configs must not be empty"@)
    } else {
        channels_error(raw.channel_configs@)
    }
}

/// What is wrong with a gateway table, if anything is.
pub open spec fn gateway_error(raw: RawGatewayConfig) -> Option<Seq<char>> {
    match (raw.discord, raw.http) {
        (Some(discord), _) => discord_error(discord),
        (None, Some(_)) => None,
        (None, None) => Some(EMPTY_GATEWAY_ERROR@),
    }
}

/// What is wrong with the time that a stream may stay idle, if anything is.
pub open spec fn idle_error(provider: RawProviderConfig) -> Option<Seq<char>> {
    match (provider.stream_idle_timeout_ms, provider.timeout_ms) {
        (Some(_), Some(_)) => Some(
            "provider.timeout_ms and provider.stream_idle_timeout_ms cannot both be set"@,
        ),
        (Some(value), None) => positive_error(value, "provider.stream_idle_timeout_ms"@),
        (None, Some(value)) => positive_error(value, "provider.timeout_ms"@),
        (None, None) => None,
    }
}

/// The time that a stream may stay idle.
pub open spec fn idle_of(provider: RawProviderConfig) -> u64 {
    match (provider.stream_idle_timeout_ms, provider.timeout_ms) {
        (Some(value), _) => value,
        (None, Some(value)) => value,
        (None, None) => DEFAULT_STREAM_IDLE_TIMEOUT_MS,
    }
}

/// What is wrong with a list of enabled tools, if anything is.
pub open spec fn tools_error(enabled: Seq<Seq<char>>) -> Option<Seq<char>> {
    if enabled.len() == 0 {
        Some("tools.enabled must not be empty"@)
    } else {
        unknown_tool_error(enabled)
    }
}

/// The refusal of the first tool that is not known, if there is one.
pub open spec fn unknown_tool_error(enabled: Seq<Seq<char>>) -> Option<Seq<char>>
    decreases enabled.len(),
{
    if enabled.len() == 0 {
        None
    } else {
        match unknown_tool_error(enabled.drop_last()) {
            Some(message) => Some(message),
            None => if tool_catalog::known_tool(enabled.last()) {
                None
            } else {
                Some("unknown tool in tools.enabled: "@ + enabled.last())
            },
        }
    }
}

/// The first of a list of refusals.
pub open spec fn first_error(errors: Seq<Option<Seq<char>>>) -> Option<Seq<char>>
    decreases errors.len(),
{
    if errors.len() == 0 {
        None
    } else {
        match errors[0] {
            Some(message) => Some(message),
            None => first_error(errors.drop_first()),
        }
    }
}

/// What is wrong with each part of a configuration, in the order in which the parts are looked at.
pub open spec fn raw_errors(raw: RawConfig) -> Seq<Option<Seq<char>>> {
    let limits = limits_of(raw);
    let provider = provider_of(raw);
    seq![
        match raw.gateway {
            Some(gateway) => gateway_error(gateway),
            None => None,
        },
        positive_error(
            set_or(limits.token_budget, DEFAULT_TOKEN_BUDGET) as u64,
            "limits.token_budget"@,
        ),
        positive_error(
            set_or(limits.max_output_tokens, DEFAULT_MAX_OUTPUT_TOKENS) as u64,
            "limits.max_output_tokens"@,
        ),
        positive_error(
            set_or(limits.max_turns, DEFAULT_MAX_TURNS) as u64,
            "limits.max_turns"@,
        ),
        positive_error(
            set_or(provider.connect_timeout_ms, DEFAULT_CONNECT_TIMEOUT_MS),
            "provider.connect_timeout_ms"@,
        ),
        idle_error(provider),
        tools_error(enabled_of(raw)),
    ]
}

/// What is wrong with a configuration, if anything is: the first fault.
pub open spec fn raw_error(raw: RawConfig) -> Option<Seq<char>> {
    first_error(raw_errors(raw))
}

/// The table of the Discord gateway, where a file has one.
pub open spec fn discord_of(raw: RawConfig) -> Option<RawDiscordGatewayConfig> {
    match raw.gateway {
        Some(gateway) => gateway.discord,
        None => None,
    }
}

/// The table of the HTTP gateway, where a file has one.
pub open spec fn http_of(raw: RawConfig) -> Option<RawHttpGatewayConfig> {
    match raw.gateway {
        Some(gateway) => gateway.http,
        None => None,
    }
}

/// Whether the table of the Discord gateway was taken over as it was written.
pub open spec fn discord_matches(
    raw: RawDiscordGatewayConfig,
    discord: DiscordGatewayConfig,
) -> bool {
    &&& discord.api_key_env == raw.api_key_env
    &&& discord.owner_user_ids == raw.owner_user_ids
    &&& discord.channel_configs@ == channel_map(raw.channel_configs@)
}

/// Whether the table of the HTTP gateway was taken over, with what is assumed where it says
/// nothing.
pub open spec fn http_matches(raw: RawHttpGatewayConfig, http: HttpGatewayConfig) -> bool {
    &&& http.bind@ == text_or(raw.bind, DEFAULT_HTTP_BIND@)
    &&& http.allow_non_loopback == set_or(raw.allow_non_loopback, false)
}

/// Whether a configuration is what a file says, with what is assumed where it says nothing.
pub open spec fn config_matches(raw: RawConfig, config: Config) -> bool {
    let limits = limits_of(raw);
    let provider = provider_of(raw);
    let kind = kind_of(raw);
    &&& config.provider.kind == kind
    &&& config.provider.model@ == text_or(provider.model, default_model_text(kind))
    &&& config.provider.api_key_env@ == text_or(provider.api_key_env, default_key_text(kind))
    &&& config.provider.base_url@ == text_or(provider.base_url, default_url_text(kind))
    &&& config.provider.connect_timeout_ms == set_or(
        provider.connect_timeout_ms,
        DEFAULT_CONNECT_TIMEOUT_MS,
    )
    &&& config.provider.stream_idle_timeout_ms == idle_of(provider)
    &&& config.provider.http_referer == provider.http_referer
    &&& config.provider.app_title == provider.app_title
    &&& config.limits.token_budget == set_or(limits.token_budget, DEFAULT_TOKEN_BUDGET)
    &&& config.limits.max_output_tokens == set_or(
        limits.max_output_tokens,
        DEFAULT_MAX_OUTPUT_TOKENS,
    )
    &&& config.limits.max_turns == set_or(limits.max_turns, DEFAULT_MAX_TURNS)
    &&& tool_catalog::texts(config.tools.enabled@) == enabled_of(raw)
    &&& match (discord_of(raw), config.gateway) {
        (Some(written), Some(gateway)) => discord_matches(written, gateway.discord),
        (None, None) => true,
        _ => false,
    }
    &&& match (http_of(raw), config.http_gateway) {
        (Some(written), Some(http)) => http_matches(written, http),
        (None, None) => true,
        _ => false,
    }
    &&& config.http_principals@ == (match raw.principals {
        Some(principals) => principals.http@,
        None => Seq::empty(),
    })
    &&& config.computer == raw.computer
}

/// A file that sets nothing.
pub open spec fn empty_raw() -> RawConfig {
    RawConfig {
        provider: None,
        limits: None,
        tools: None,
        gateway: None,
        principals: None,
        computer: None,
    }
}

/// Whether a file that was found in the workspace sets what only the user may set.
pub open spec fn workspace_error(raw: RawConfig) -> Option<Seq<char>> {
    if raw.gateway is Some {
        Some(WORKSPACE_GATEWAY_ERROR@)
    } else if provider_of(raw).api_key_env is Some || provider_of(raw).base_url is Some {
        Some(WORKSPACE_PROVIDER_OVERRIDE_ERROR@)
    } else if raw.principals is Some {
        Some(WORKSPACE_PRINCIPALS_ERROR@)
    } else if raw.computer is Some || enables_desktop(enabled_of(raw)) {
        Some(WORKSPACE_COMPUTER_ERROR@)
    } else {
        None
    }
}

/// Whether a list of tools holds one that looks at the desktop.
pub open spec fn enables_desktop(enabled: Seq<Seq<char>>) -> bool {
    exists|i: int| 0 <= i < enabled.len() && tool_catalog::observes_desktop(#[trigger] enabled[i])
}

/// What every configuration that was accepted has: positive limits, and tools that are known.
pub open spec fn well_formed(config: Config) -> bool {
    &&& config.limits.token_budget > 0
    &&& config.limits.max_output_tokens > 0
    &&& config.limits.max_turns > 0
    &&& config.provider.connect_timeout_ms > 0
    &&& config.provider.stream_idle_timeout_ms > 0
    &&& config.tools.enabled@.len() > 0
    &&& forall|i: int|
        0 <= i < config.tools.enabled@.len() ==> tool_catalog::known_tool(
            #[trigger] config.tools.enabled@[i]@,
        )
}

proof fn known_without_error(enabled: Seq<Seq<char>>)
    requires
        unknown_tool_error(enabled) is None,
    ensures
        forall|i: int|
            0 <= i < enabled.len() ==> tool_catalog::known_tool(#[trigger] enabled[i]),
    decreases enabled.len(),
{
    if enabled.len() > 0 {
        let t = enabled.drop_last();
        known_without_error(t);
        assert forall|i: int| 0 <= i < enabled.len() implies tool_catalog::known_tool(
            #[trigger] enabled[i],
        ) by {
            if i < t.len() {
                assert(enabled[i] == t[i]);
            }
        }
    }
}

proof fn unknown_tool_error_of_prefix(enabled: Seq<Seq<char>>, n: int)
    requires
        0 <= n <= enabled.len(),
        unknown_tool_error(enabled.take(n)) is Some,
    ensures
        unknown_tool_error(enabled) == unknown_tool_error(enabled.take(n)),
    decreases enabled.len(),
{
    if n == enabled.len() {
        assert(enabled.take(n) =~= enabled);
    } else {
        assert(enabled.drop_last().take(n) =~= enabled.take(n));
        unknown_tool_error_of_prefix(enabled.drop_last(), n);
    }
}

proof fn channels_error_of_prefix(entries: Seq<(String, String)>, n: int)
    requires
        0 <= n <= entries.len(),
        channels_error(entries.take(n)) is Some,
    ensures
        channels_error(entries) == channels_error(entries.take(n)),
    decreases entries.len(),
{
    if n == entries.len() {
        assert(entries.take(n) =~= entries);
    } else {
        assert(entries.drop_last().take(n) =~= entries.take(n));
        channels_error_of_prefix(entries.drop_last(), n);
    }
}

/// The first of seven refusals.
proof fn first_of_seven(e: Seq<Option<Seq<char>>>)
    requires
        e.len() == 7,
    ensures
        first_error(e) == (if e[0] is Some {
            e[0]
        } else if e[1] is Some {
            e[1]
        } else if e[2] is Some {
            e[2]
        } else if e[3] is Some {
            e[3]
        } else if e[4] is Some {
            e[4]
        } else if e[5] is Some {
            e[5]
        } else {
            e[6]
        }),
{
    reveal_with_fuel(first_error, 8);
}

/// Every configuration that is read from a file has positive limits and known tools.
pub proof fn accepted_config_is_well_formed(raw: RawConfig, config: Config)
    requires
        raw_error(raw) is None,
        config_matches(raw, config),
    ensures
        well_formed(config),
{
    first_of_seven(raw_errors(raw));
    known_without_error(enabled_of(raw));
    let enabled = config.tools.enabled@;
    assert(tool_catalog::texts(enabled).len() == enabled.len());
    assert forall|i: int| 0 <= i < enabled.len() implies tool_catalog::known_tool(
        #[trigger] enabled[i]@,
    ) by {
        assert(tool_catalog::texts(enabled)[i] == enabled[i]@);
    }
}

/// A configuration file in the workspace never decides where keys are read or where requests go,
/// never opens a gateway or lets anybody into one, and never configures or enables a tool that looks
/// at the desktop.
pub proof fn workspace_config_is_harmless(raw: RawConfig, config: Config)
    requires
        workspace_error(raw) is None,
        config_matches(raw, config),
    ensures
        config.gateway is None,
        config.http_gateway is None,
        config.http_principals@.len() == 0,
        config.computer is None,
        config.provider.api_key_env@ == default_key_text(config.provider.kind),
        config.provider.base_url@ == default_url_text(config.provider.kind),
        forall|i: int|
            0 <= i < config.tools.enabled@.len() ==> !tool_catalog::observes_desktop(
                #[trigger] config.tools.enabled@[i]@,
            ),
{
    let enabled = config.tools.enabled@;
    assert forall|i: int| 0 <= i < enabled.len() implies !tool_catalog::observes_desktop(
        #[trigger] enabled[i]@,
    ) by {
        assert(tool_catalog::texts(enabled)[i] == enabled[i]@);
        assert(enabled_of(raw)[i] == enabled[i]@);
    }
}

/// A value that must be positive.
pub fn positive(value: u64, field: &str) -> (result: Result<u64, AppError>)
    ensures
        match positive_error(value, field@) {
            Some(message) => error::refused_with(result, message),
            None => result == Ok::<u64, AppError>(value),
        },
{
    if value == 0 {
        return Err(AppError::Config(text::concat(field, " must be positive")));
    }
    Ok(value)
}

pub fn default_model(kind: ProviderKind) -> (result: &'static str)
    ensures
        result@ == default_model_text(kind),
{
    match kind {
        ProviderKind::OpenAi => DEFAULT_OPENAI_MODEL,
        ProviderKind::OpenRouter => DEFAULT_OPENROUTER_MODEL,
    }
}

pub fn default_api_key_env(kind: ProviderKind) -> (result: &'static str)
    ensures
        result@ == default_key_text(kind),
{
    match kind {
        ProviderKind::OpenAi => "OPENAI_API_KEY",
        ProviderKind::OpenRouter => "OPENROUTER_API_KEY",
    }
}

pub fn default_base_url(kind: ProviderKind) -> (result: &'static str)
    ensures
        result@ == default_url_text(kind),
{
    match kind {
        ProviderKind::OpenAi => OPENAI_BASE_URL,
        ProviderKind::OpenRouter => OPENROUTER_BASE_URL,
    }
}

/// The text that is set, or the one that is assumed.
fn own_or(value: Option<String>, assumed: &str) -> (result: String)
    ensures
        result@ == text_or(value, assumed@),
{
    match value {
        Some(v) => v,
        None => assumed.to_owned(),
    }
}

impl DiscordGatewayConfig {
    /// The Discord gateway that a table asks for, or what is wrong with it.
    pub fn from_raw(raw: RawDiscordGatewayConfig) -> (result: Result<Self, AppError>)
        ensures
            match discord_error(raw) {
                Some(message) => error::refused_with(result, message),
                None => result is Ok && discord_matches(raw, result->Ok_0),
            },
    {
        if text::blank(raw.api_key_env.as_str()) {
            return Err(config_error("gateway.discord.api_key_env must not be empty"));
        }
        let owners = &raw.owner_user_ids;
        if owners.len() == 0 {
            return Err(config_error("gateway.discord.owner_user_ids must not be empty"));
        }
        let mut i: usize = 0;
        while i < owners.len()
            invariant
                i <= owners.len(),
                !text::is_blank(raw.api_key_env@),
                owners@ == raw.owner_user_ids@,
                owners.len() > 0,
                forall|j: int| 0 <= j < i ==> owners@[j] != 0,
            decreases owners.len() - i,
        {
            if owners[i] == 0 {
                assert(owners@.contains(0u64));
                return Err(
                    config_error("gateway.discord.owner_user_ids must contain positive integers"),
                );
            }
            i = i + 1;
        }
        let entries = &raw.channel_configs;
        if entries.len() == 0 {
            return Err(config_error("gateway.discord.channel_configs must not be empty"));
        }
        let mut channel_configs: HashMap<u64, String> = HashMap::new();
        let mut n: usize = 0;
        assert(entries@.take(0) =~= Seq::<(String, String)>::empty());
        while n < entries.len()
            invariant
                n <= entries.len(),
                entries@ == raw.channel_configs@,
                !text::is_blank(raw.api_key_env@),
                raw.owner_user_ids@.len() > 0,
                !raw.owner_user_ids@.contains(0u64),
                raw.channel_configs@.len() > 0,
                channels_error(entries@.take(n as int)) is None,
                channel_configs@ == channel_map(entries@.take(n as int)),
            decreases entries.len() - n,
        {
            let ghost next = entries@.take(n + 1);
            assert(next.drop_last() =~= entries@.take(n as int));
            assert(next.last() == entries@[n as int]);
            let number = match text::parse_decimal(entries[n].0.as_str()) {
                Some(number) => number,
                None => {
                    proof {
                        channels_error_of_prefix(entries@, n + 1);
                    }
                    return Err(config_error(CHANNEL_KEY_ERROR));
                },
            };
            if number == 0 {
                proof {
                    channels_error_of_prefix(entries@, n + 1);
                }
                return Err(config_error(CHANNEL_KEY_ERROR));
            }
            if channel_configs.contains_key(&number) {
                proof {
                    channels_error_of_prefix(entries@, n + 1);
                }
                return Err(config_error(CHANNEL_DUPLICATE_ERROR));
            }
            channel_configs.insert(number, entries[n].1.clone());
            n = n + 1;
        }
        assert(entries@.take(n as int) =~= entries@);
        Ok(
            DiscordGatewayConfig {
                api_key_env: raw.api_key_env,
                owner_user_ids: raw.owner_user_ids,
                channel_configs,
            },
        )
    }
}

impl HttpGatewayConfig {
    /// The HTTP gateway that a table asks for.
    pub fn from_raw(raw: RawHttpGatewayConfig) -> (result: Self)
        ensures
            http_matches(raw, result),
    {
        HttpGatewayConfig {
            bind: own_or(raw.bind, DEFAULT_HTTP_BIND),
            allow_non_loopback: raw.allow_non_loopback.unwrap_or(false),
        }
    }

    /// Whether the gateway may listen at an address: at one that only this host can reach it
    /// always may, at any other only where a file or the command line allows it.
    pub fn may_listen(&self, is_loopback: bool, allow_flag: bool) -> (result: bool)
        ensures
            result == (is_loopback || self.allow_non_loopback || allow_flag),
    {
        is_loopback || self.allow_non_loopback || allow_flag
    }
}

impl GatewayConfig {
    /// The gateways that a table asks for, or what is wrong with it.
    pub fn from_raw(raw: RawGatewayConfig) -> (result: Result<
        (Option<Self>, Option<HttpGatewayConfig>),
        AppError,
    >)
        ensures
            match gateway_error(raw) {
                Some(message) => error::refused_with(result, message),
                None => {
                    &&& result is Ok
                    &&& match (raw.discord, result->Ok_0.0) {
                        (Some(written), Some(gateway)) => discord_matches(
                            written,
                            gateway.discord,
                        ),
                        (None, None) => true,
                        _ => false,
                    }
                    &&& match (raw.http, result->Ok_0.1) {
                        (Some(written), Some(http)) => http_matches(written, http),
                        (None, None) => true,
                        _ => false,
                    }
                },
            },
    {
        if raw.discord.is_none() && raw.http.is_none() {
            return Err(config_error(EMPTY_GATEWAY_ERROR));
        }
        let gateway = match raw.discord {
            Some(discord) => match DiscordGatewayConfig::from_raw(discord) {
                Ok(discord) => Some(GatewayConfig { discord }),
                Err(error) => return Err(error),
            },
            None => None,
        };
        let http = match raw.http {
            Some(http) => Some(HttpGatewayConfig::from_raw(http)),
            None => None,
        };
        Ok((gateway, http))
    }
}

impl Config {
    /// The configuration that a file asks for, or the first thing that is wrong with it.
    pub fn from_raw(raw: RawConfig) -> (result: Result<Self, AppError>)
        ensures
            match raw_error(raw) {
                Some(message) => error::refused_with(result, message),
                None => result is Ok && config_matches(raw, result->Ok_0),
            },
    {
        let ghost written = raw;
        proof {
            first_of_seven(raw_errors(raw));
        }
        let provider = match raw.provider {
            Some(provider) => provider,
            None => RawProviderConfig::default(),
        };
        let limits = match raw.limits {
            Some(limits) => limits,
            None => RawLimitsConfig::default(),
        };
        let tools = match raw.tools {
            Some(tools) => tools,
            None => RawToolsConfig::default(),
        };
        let (gateway, http_gateway) = match raw.gateway {
            Some(gateway) => match GatewayConfig::from_raw(gateway) {
                Ok(gateways) => gateways,
                Err(error) => return Err(error),
            },
            None => (None, None),
        };
        let http_principals = match raw.principals {
            Some(principals) => principals.http,
            None => Vec::new(),
        };
        let token_budget: u32 = limits.token_budget.unwrap_or(DEFAULT_TOKEN_BUDGET);
        if let Err(error) = positive(token_budget as u64, "limits.token_budget") {
            return Err(error);
        }
        let max_output_tokens: u32 = limits.max_output_tokens.unwrap_or(DEFAULT_MAX_OUTPUT_TOKENS);
        if let Err(error) = positive(max_output_tokens as u64, "limits.max_output_tokens") {
            return Err(error);
        }
        let max_turns: u32 = limits.max_turns.unwrap_or(DEFAULT_MAX_TURNS);
        if let Err(error) = positive(max_turns as u64, "limits.max_turns") {
            return Err(error);
        }
        let connect_timeout_ms: u64 = provider.connect_timeout_ms.unwrap_or(
            DEFAULT_CONNECT_TIMEOUT_MS,
        );
        if let Err(error) = positive(connect_timeout_ms, "provider.connect_timeout_ms") {
            return Err(error);
        }
        let stream_idle_timeout_ms = match (provider.stream_idle_timeout_ms, provider.timeout_ms) {
            (Some(_), Some(_)) => {
                return Err(
                    config_error(
                        "provider.timeout_ms and provider.stream_idle_timeout_ms cannot both be set",
                    ),
                );
            },
            (Some(value), None) => match positive(value, "provider.stream_idle_timeout_ms") {
                Ok(value) => value,
                Err(error) => return Err(error),
            },
            (None, Some(value)) => match positive(value, "provider.timeout_ms") {
                Ok(value) => value,
                Err(error) => return Err(error),
            },
            (None, None) => DEFAULT_STREAM_IDLE_TIMEOUT_MS,
        };
        let kind = provider.kind.unwrap_or(ProviderKind::OpenRouter);
        let enabled = match tools.enabled {
            Some(enabled) => enabled,
            None => tool_catalog::default_enabled_tools(),
        };
        assert(tool_catalog::texts(enabled@) == enabled_of(written));
        if let Err(error) = check_tools(&enabled) {
            return Err(error);
        }
        Ok(
            Config {
                provider: ProviderConfig {
                    model: own_or(provider.model, default_model(kind)),
                    api_key_env: own_or(provider.api_key_env, default_api_key_env(kind)),
                    base_url: own_or(provider.base_url, default_base_url(kind)),
                    connect_timeout_ms,
                    stream_idle_timeout_ms,
                    http_referer: provider.http_referer,
                    app_title: provider.app_title,
                    kind,
                },
                limits: LimitsConfig { token_budget, max_output_tokens, max_turns },
                tools: ToolsConfig { enabled },
                gateway,
                http_gateway,
                http_principals,
                computer: raw.computer,
            },
        )
    }

    /// The configuration of the file that was found: the default one where there is none. A file
    /// of the workspace may not set what only the user may set.
    pub fn load_resolved(found: Option<(ResolvedConfigPath, RawConfig)>) -> (result: Result<
        Self,
        AppError,
    >)
        ensures
            match found {
                None => result is Ok && config_matches(empty_raw(), result->Ok_0),
                Some((resolved, raw)) => if resolved is Workspace && workspace_error(raw) is Some {
                    error::refused_with(result, workspace_error(raw)->0)
                } else {
                    match raw_error(raw) {
                        Some(message) => error::refused_with(result, message),
                        None => result is Ok && config_matches(raw, result->Ok_0),
                    }
                },
            },
    {
        match found {
            None => Ok(Config::default()),
            Some((resolved, raw)) => {
                if let ResolvedConfigPath::Workspace(_) = resolved {
                    if let Err(error) = check_workspace_file(&raw) {
                        return Err(error);
                    }
                }
                Config::from_raw(raw)
            },
        }
    }

    /// Finds the configuration file, has it read, and takes it over. `read` reads and parses one
    /// file.
    pub fn load<F: Fn(&str) -> Result<RawConfig, AppError>>(
        places: &ConfigPlaces,
        read: F,
    ) -> (result: Result<Self, AppError>)
        requires
            forall|path: &str| #[trigger] call_requires(read, (path,)),
        ensures
            match place_found(*places) {
                Err(message) => error::refused_with(result, message),
                Ok(None) => result is Ok && config_matches(empty_raw(), result->Ok_0),
                Ok(Some((workspace, path))) => exists|path_str: &str, outcome|
                    {
                        &&& path_str@ == path
                        &&& #[trigger] call_ensures(read, (path_str,), outcome)
                        &&& match outcome {
                            Err(error) => result == Err::<Self, AppError>(error),
                            Ok(raw) => if workspace && workspace_error(raw) is Some {
                                error::refused_with(result, workspace_error(raw)->0)
                            } else {
                                match raw_error(raw) {
                                    Some(message) => error::refused_with(result, message),
                                    None => result is Ok && config_matches(raw, result->Ok_0),
                                }
                            },
                        }
                    },
            },
    {
        let resolved = match resolve_config(places) {
            Ok(resolved) => resolved,
            Err(error) => return Err(error),
        };
        match resolved {
            None => Config::load_resolved(None),
            Some(resolved) => {
                let path = resolved.path();
                let outcome = read(path);
                assert(call_ensures(read, (path,), outcome));
                match outcome {
                    Ok(raw) => Config::load_resolved(Some((resolved, raw))),
                    Err(error) => Err(error),
                }
            },
        }
    }
}

impl Default for Config {
    fn default() -> (result: Self)
        ensures
            config_matches(empty_raw(), result),
            well_formed(result),
    {
        let kind = ProviderKind::OpenRouter;
        let result = Config {
            provider: ProviderConfig {
                model: default_model(kind).to_owned(),
                api_key_env: default_api_key_env(kind).to_owned(),
                base_url: default_base_url(kind).to_owned(),
                connect_timeout_ms: DEFAULT_CONNECT_TIMEOUT_MS,
                stream_idle_timeout_ms: DEFAULT_STREAM_IDLE_TIMEOUT_MS,
                http_referer: None,
                app_title: None,
                kind,
            },
            limits: LimitsConfig {
                token_budget: DEFAULT_TOKEN_BUDGET,
                max_output_tokens: DEFAULT_MAX_OUTPUT_TOKENS,
                max_turns: DEFAULT_MAX_TURNS,
            },
            tools: ToolsConfig { enabled: tool_catalog::default_enabled_tools() },
            gateway: None,
            http_gateway: None,
            http_principals: Vec::new(),
            computer: None,
        };
        proof {
            let enabled = result.tools.enabled@;
            let names = tool_catalog::texts(enabled);
            assert(names.len() == enabled.len());
            assert forall|i: int| 0 <= i < enabled.len() implies tool_catalog::known_tool(
                #[trigger] enabled[i]@,
            ) by {
                assert(names[i] == enabled[i]@);
                assert(names.contains(names[i]));
            }
        }
        result
    }
}

/// Refuses a list of tools that is empty or names a tool that is not known.
fn check_tools(enabled: &Vec<String>) -> (result: Result<(), AppError>)
    ensures
        match tools_error(tool_catalog::texts(enabled@)) {
            Some(message) => error::refused_with(result, message),
            None => result is Ok,
        },
{
    let ghost names = tool_catalog::texts(enabled@);
    if enabled.len() == 0 {
        return Err(config_error("tools.enabled must not be empty"));
    }
    let mut i: usize = 0;
    assert(names.take(0) =~= Seq::<Seq<char>>::empty());
    while i < enabled.len()
        invariant
            i <= enabled.len(),
            enabled.len() > 0,
            names == tool_catalog::texts(enabled@),
            unknown_tool_error(names.take(i as int)) is None,
        decreases enabled.len() - i,
    {
        assert(names.take(i + 1).drop_last() =~= names.take(i as int));
        assert(names.take(i + 1).last() == enabled@[i as int]@);
        if !tool_catalog::is_known_tool(enabled[i].as_str()) {
            proof {
                unknown_tool_error_of_prefix(names, i + 1);
            }
            return Err(
                AppError::Config(
                    text::concat("unknown tool in tools.enabled: ", enabled[i].as_str()),
                ),
            );
        }
        i = i + 1;
    }
    assert(names.take(i as int) =~= names);
    Ok(())
}

/// Refuses a file of the workspace that sets what only the user may set.
fn check_workspace_file(raw: &RawConfig) -> (result: Result<(), AppError>)
    ensures
        match workspace_error(*raw) {
            Some(message) => error::refused_with(result, message),
            None => result is Ok,
        },
{
    if raw.gateway.is_some() {
        return Err(config_error(WORKSPACE_GATEWAY_ERROR));
    }
    if let Some(provider) = &raw.provider {
        if provider.api_key_env.is_some() || provider.base_url.is_some() {
            return Err(config_error(WORKSPACE_PROVIDER_OVERRIDE_ERROR));
        }
    }
    if raw.principals.is_some() {
        return Err(config_error(WORKSPACE_PRINCIPALS_ERROR));
    }
    if raw.computer.is_some() {
        return Err(config_error(WORKSPACE_COMPUTER_ERROR));
    }
    assert(!enables_desktop(tool_catalog::default_tools())) by {
        reveal_strlit("file.read");
        reveal_strlit("file.list");
        reveal_strlit("file.write");
        reveal_strlit("file.edit");
        reveal_strlit("shell.exec");
        reveal_strlit("web.fetch");
        reveal_strlit("computer.windows");
        reveal_strlit("computer.observe");
        assert("computer.windows"@[0] == 'c' && "computer.observe"@[0] == 'c');
        assert("file.read"@[0] == 'f' && "file.list"@[0] == 'f' && "file.write"@[0] == 'f'
            && "file.edit"@[0] == 'f' && "shell.exec"@[0] == 's' && "web.fetch"@[0] == 'w');
    }
    if let Some(tools) = &raw.tools {
        if let Some(enabled) = &tools.enabled {
            let ghost names = tool_catalog::texts(enabled@);
            assert(names == enabled_of(*raw));
            let mut i: usize = 0;
            while i < enabled.len()
                invariant
                    i <= enabled.len(),
                    names == tool_catalog::texts(enabled@),
                    names == enabled_of(*raw),
                    raw.gateway is None,
                    raw.principals is None,
                    raw.computer is None,
                    provider_of(*raw).api_key_env is None,
                    provider_of(*raw).base_url is None,
                    forall|j: int|
                        0 <= j < i ==> !tool_catalog::observes_desktop(#[trigger] names[j]),
                decreases enabled.len() - i,
            {
                assert(names[i as int] == enabled@[i as int]@);
                if tool_catalog::is_desktop_tool(enabled[i].as_str()) {
                    return Err(config_error(WORKSPACE_COMPUTER_ERROR));
                }
                i = i + 1;
            }
        }
    }
    Ok(())
}

/// Where a configuration file can be, and which of the places hold one.
#[derive(Debug)]
pub struct ConfigPlaces {
    pub workspace_root: String,
    /// The file that the command line names.
    pub explicit_path: Option<String>,
    /// The file that the environment names.
    pub env_path: Option<String>,
    pub home: Option<String>,
    /// Whether the workspace holds a file of its own.
    pub workspace_file_exists: bool,
    /// Whether the user's own file exists.
    pub user_file_exists: bool,
}

/// A path with a leading `~` replaced by the user's home; nothing where the home is not known.
pub open spec fn tilde_expanded(path: Seq<char>, home: Option<String>) -> Option<Seq<char>> {
    if path == "~"@ {
        match home {
            Some(home) => Some(home@),
            None => None,
        }
    } else if text::starts_with(path, "~/"@) {
        match home {
            Some(home) => Some(paths::joined(home@, path.skip(2))),
            None => None,
        }
    } else {
        Some(path)
    }
}

/// The user's own configuration file.
pub open spec fn user_config_text(home: Seq<char>) -> Seq<char> {
    paths::joined(paths::joined(paths::joined(home, ".config"@), "plato"@), "config.toml"@)
}

/// The file that a path names, seen from the workspace.
pub open spec fn named_file(
    workspace_root: Seq<char>,
    path: Seq<char>,
    home: Option<String>,
) -> Result<Seq<char>, Seq<char>> {
    match tilde_expanded(path, home) {
        Some(expanded) => Ok(paths::joined(workspace_root, expanded)),
        None => Err(TILDE_HOME_ERROR@),
    }
}

/// The file that counts, and whether it is the workspace's: the one that the command line names,
/// or else the one that the environment names, or else the workspace's, or else the user's.
pub open spec fn chosen_file(
    workspace_root: Seq<char>,
    explicit_path: Option<String>,
    env_path: Option<String>,
    home: Option<String>,
    user_config: Option<Seq<char>>,
    workspace_file_exists: bool,
    user_file_exists: bool,
) -> Result<Option<(bool, Seq<char>)>, Seq<char>> {
    if let Some(path) = explicit_path {
        match named_file(workspace_root, path@, home) {
            Ok(file) => Ok(Some((false, file))),
            Err(message) => Err(message),
        }
    } else if let Some(path) = env_path {
        match named_file(workspace_root, path@, home) {
            Ok(file) => Ok(Some((false, file))),
            Err(message) => Err(message),
        }
    } else if workspace_file_exists {
        Ok(Some((true, paths::joined(workspace_root, "plato.toml"@))))
    } else if user_file_exists && user_config is Some {
        Ok(Some((false, user_config->0)))
    } else {
        Ok(None)
    }
}

/// The file that counts among some places.
pub open spec fn place_found(places: ConfigPlaces) -> Result<
    Option<(bool, Seq<char>)>,
    Seq<char>,
> {
    chosen_file(
        places.workspace_root@,
        places.explicit_path,
        places.env_path,
        places.home,
        match places.home {
            Some(home) => Some(user_config_text(home@)),
            None => None,
        },
        places.workspace_file_exists,
        places.user_file_exists,
    )
}

/// Whether a resolved file is the one that was chosen.
pub open spec fn resolves_to(
    result: Result<Option<ResolvedConfigPath>, AppError>,
    chosen: Result<Option<(bool, Seq<char>)>, Seq<char>>,
) -> bool {
    match chosen {
        Err(message) => error::refused_with(result, message),
        Ok(None) => result == Ok::<Option<ResolvedConfigPath>, AppError>(None),
        Ok(Some((workspace, path))) => result matches Ok(Some(resolved)) && resolved_text(resolved)
            == path && (resolved is Workspace <==> workspace),
    }
}

/// Where a path has a leading `~/`, what follows it.
pub fn leading_tilde_rest(path: &str) -> (result: Option<String>)
    ensures
        match result {
            Some(rest) => text::starts_with(path@, "~/"@) && rest@ == path@.skip(2),
            None => !text::starts_with(path@, "~/"@),
        },
{
    let chars = text::chars_of(path);
    proof {
        reveal_strlit("~/");
    }
    if chars.len() >= 2 && chars[0] == '~' && chars[1] == '/' {
        assert(path@.take(2) =~= "~/"@);
        assert(path@.subrange(2, path@.len() as int) =~= path@.skip(2));
        Some(text::text_of(&chars, 2, chars.len()))
    } else {
        assert(chars.len() >= 2 ==> path@.take(2)[0] == path@[0] && path@.take(2)[1] == path@[1]);
        None
    }
}

/// A path with a leading `~` replaced by the user's home.
pub fn expand_leading_tilde(path: String, home: &Option<String>) -> (result: Result<
    String,
    AppError,
>)
    ensures
        match tilde_expanded(path@, *home) {
            Some(expanded) => result matches Ok(found) && found@ == expanded,
            None => error::refused_with(result, TILDE_HOME_ERROR@),
        },
{
    if text::same(path.as_str(), "~") {
        return match home {
            Some(home) => Ok(home.clone()),
            None => Err(config_error(TILDE_HOME_ERROR)),
        };
    }
    match leading_tilde_rest(path.as_str()) {
        Some(rest) => match home {
            Some(home) => Ok(paths::join(home.as_str(), rest.as_str())),
            None => Err(config_error(TILDE_HOME_ERROR)),
        },
        None => Ok(path),
    }
}

/// The file that a path names, seen from the workspace.
pub fn resolve_explicit_config_path(
    workspace_root: &str,
    path: String,
    home: &Option<String>,
) -> (result: Result<String, AppError>)
    ensures
        match named_file(workspace_root@, path@, *home) {
            Ok(file) => result matches Ok(found) && found@ == file,
            Err(message) => error::refused_with(result, message),
        },
{
    match expand_leading_tilde(path, home) {
        Ok(expanded) => Ok(paths::join(workspace_root, expanded.as_str())),
        Err(error) => Err(error),
    }
}

/// The user's own configuration file.
pub fn user_config_path(home: &Option<String>) -> (result: Option<String>)
    ensures
        match home {
            Some(home) => result matches Some(path) && path@ == user_config_text(home@),
            None => result is None,
        },
{
    match home {
        Some(home) => {
            let config = paths::join(home.as_str(), ".config");
            let plato = paths::join(config.as_str(), "plato");
            Some(paths::join(plato.as_str(), "config.toml"))
        },
        None => None,
    }
}

/// The configuration file that counts.
pub fn resolve_config_with(
    workspace_root: &str,
    explicit_path: Option<String>,
    env_path: Option<String>,
    home: &Option<String>,
    user_config: Option<String>,
    workspace_file_exists: bool,
    user_file_exists: bool,
) -> (result: Result<Option<ResolvedConfigPath>, AppError>)
    ensures
        resolves_to(
            result,
            chosen_file(
                workspace_root@,
                explicit_path,
                env_path,
                *home,
                match user_config {
                    Some(path) => Some(path@),
                    None => None,
                },
                workspace_file_exists,
                user_file_exists,
            ),
        ),
{
    if let Some(path) = explicit_path {
        return match resolve_explicit_config_path(workspace_root, path, home) {
            Ok(path) => Ok(Some(ResolvedConfigPath::Authorized(path))),
            Err(error) => Err(error),
        };
    }
    if let Some(path) = env_path {
        return match resolve_explicit_config_path(workspace_root, path, home) {
            Ok(path) => Ok(Some(ResolvedConfigPath::Authorized(path))),
            Err(error) => Err(error),
        };
    }
    if workspace_file_exists {
        return Ok(
            Some(ResolvedConfigPath::Workspace(paths::join(workspace_root, "plato.toml"))),
        );
    }
    if let Some(path) = user_config {
        if user_file_exists {
            return Ok(Some(ResolvedConfigPath::Authorized(path)));
        }
    }
    Ok(None)
}

/// The configuration file that counts among some places.
pub fn resolve_config(places: &ConfigPlaces) -> (result: Result<
    Option<ResolvedConfigPath>,
    AppError,
>)
    ensures
        resolves_to(result, place_found(*places)),
{
    resolve_config_with(
        places.workspace_root.as_str(),
        places.explicit_path.clone(),
        places.env_path.clone(),
        &places.home,
        user_config_path(&places.home),
        places.workspace_file_exists,
        places.user_file_exists,
    )
}

/// The path of the configuration file that counts.
pub fn resolve_config_path(places: &ConfigPlaces) -> (result: Result<Option<String>, AppError>)
    ensures
        match place_found(*places) {
            Err(message) => error::refused_with(result, message),
            Ok(None) => result == Ok::<Option<String>, AppError>(None),
            Ok(Some((_, path))) => result matches Ok(Some(found)) && found@ == path,
        },
{
    match resolve_config(places) {
        Ok(Some(resolved)) => Ok(Some(resolved.into_path())),
        Ok(None) => Ok(None),
        Err(error) => Err(error),
    }
}

/// The command line comes before the environment, the environment before the workspace, and the
/// workspace before the user's own file; a file that either of the first two names is the user's
/// choice.
pub proof fn resolution_order(places: ConfigPlaces)
    ensures
        places.explicit_path matches Some(path) ==> (match named_file(
            places.workspace_root@,
            path@,
            places.home,
        ) {
            Ok(file) => place_found(places) == Ok::<_, Seq<char>>(Some((false, file))),
            Err(_) => place_found(places) is Err,
        }),
        places.explicit_path is None && places.env_path is Some ==> (match named_file(
            places.workspace_root@,
            places.env_path->0@,
            places.home,
        ) {
            Ok(file) => place_found(places) == Ok::<_, Seq<char>>(Some((false, file))),
            Err(_) => place_found(places) is Err,
        }),
        places.explicit_path is None && places.env_path is None && places.workspace_file_exists
            ==> place_found(places) == Ok::<_, Seq<char>>(
            Some((true, paths::joined(places.workspace_root@, "plato.toml"@))),
        ),
        places.explicit_path is None && places.env_path is None && !places.workspace_file_exists
            && !places.user_file_exists ==> place_found(places) == Ok::<
            Option<(bool, Seq<char>)>,
            Seq<char>,
        >(None),
{
}

} // verus!
