//! What holds of every configuration that is loaded, and of every one that is refused.

use crate::config::{
    self, default_api_key_env, default_base_url, default_model, resolve_config, Config,
    ConfigPlaces, DiscordGatewayConfig, HttpGatewayConfig, ProviderKind, RawConfig,
    RawDiscordGatewayConfig, RawHttpGatewayConfig, ResolvedConfigPath, DEFAULT_OPENAI_MODEL,
    DEFAULT_OPENROUTER_MODEL, OPENAI_BASE_URL, OPENROUTER_BASE_URL, TILDE_HOME_ERROR,
    WORKSPACE_GATEWAY_ERROR, WORKSPACE_PROVIDER_OVERRIDE_ERROR,
};
use crate::error::AppError;
use crate::paths::join;
use crate::{text, tool_catalog};
use vstd::prelude::*;

verus! {

/// Whether a file asks for OpenAI.
pub open spec fn asks_for_openai(raw: RawConfig) -> bool {
    raw.provider matches Some(provider) && provider.kind == Some(ProviderKind::OpenAi)
}

/// Whether a file names a model.
pub open spec fn names_model(raw: RawConfig) -> bool {
    raw.provider matches Some(provider) && provider.model is Some
}

/// Whether a file says where the key is found.
pub open spec fn names_key(raw: RawConfig) -> bool {
    raw.provider matches Some(provider) && provider.api_key_env is Some
}

/// Whether a file says where requests go.
pub open spec fn names_url(raw: RawConfig) -> bool {
    raw.provider matches Some(provider) && provider.base_url is Some
}

/// Who a file that says nothing of the provider is served by, with which model, key and address:
/// each provider with its own.
pub proof fn each_provider_has_its_own_defaults(raw: RawConfig, config: Config)
    requires
        call_ensures(Config::from_raw, (raw,), Ok::<Config, AppError>(config)),
    ensures
        asks_for_openai(raw) ==> config.provider.kind == ProviderKind::OpenAi,
        !asks_for_openai(raw) ==> config.provider.kind == ProviderKind::OpenRouter,
        asks_for_openai(raw) && !names_model(raw) ==> config.provider.model@
            == DEFAULT_OPENAI_MODEL@,
        !asks_for_openai(raw) && !names_model(raw) ==> config.provider.model@
            == DEFAULT_OPENROUTER_MODEL@,
        asks_for_openai(raw) && !names_key(raw) ==> config.provider.api_key_env@
            == "OPENAI_API_KEY"@,
        !asks_for_openai(raw) && !names_key(raw) ==> config.provider.api_key_env@
            == "OPENROUTER_API_KEY"@,
        asks_for_openai(raw) && !names_url(raw) ==> config.provider.base_url@ == OPENAI_BASE_URL@,
        !asks_for_openai(raw) && !names_url(raw) ==> config.provider.base_url@
            == OPENROUTER_BASE_URL@,
{
}

/// The two providers differ in what is assumed of them.
pub proof fn the_providers_differ(
    model: &'static str,
    key: &'static str,
    url: &'static str,
    other_model: &'static str,
    other_key: &'static str,
    other_url: &'static str,
)
    requires
        call_ensures(default_model, (ProviderKind::OpenAi,), model),
        call_ensures(default_api_key_env, (ProviderKind::OpenAi,), key),
        call_ensures(default_base_url, (ProviderKind::OpenAi,), url),
        call_ensures(default_model, (ProviderKind::OpenRouter,), other_model),
        call_ensures(default_api_key_env, (ProviderKind::OpenRouter,), other_key),
        call_ensures(default_base_url, (ProviderKind::OpenRouter,), other_url),
    ensures
        model@ == "gpt-5.5"@,
        key@ == "OPENAI_API_KEY"@,
        url@ == "https://api.openai.com/v1"@,
        other_model@ == "~openai/gpt-latest"@,
        other_key@ == "OPENROUTER_API_KEY"@,
        other_url@ == "https://openrouter.ai/api/v1"@,
{
}

/// Whatever a file sets of the provider is what counts, whoever the provider is.
pub proof fn what_is_set_of_the_provider_counts(raw: RawConfig, config: Config)
    requires
        call_ensures(Config::from_raw, (raw,), Ok::<Config, AppError>(config)),
        raw.provider is Some,
    ensures
        raw.provider->0.model matches Some(model) ==> config.provider.model@ == model@,
        raw.provider->0.api_key_env matches Some(key) ==> config.provider.api_key_env@ == key@,
        raw.provider->0.base_url matches Some(url) ==> config.provider.base_url@ == url@,
        raw.provider->0.connect_timeout_ms matches Some(wait)
            ==> config.provider.connect_timeout_ms == wait,
        raw.provider->0.stream_idle_timeout_ms matches Some(wait)
            ==> config.provider.stream_idle_timeout_ms == wait,
        raw.provider->0.timeout_ms matches Some(wait) ==> config.provider.stream_idle_timeout_ms
            == wait,
        config.provider.http_referer == raw.provider->0.http_referer,
        config.provider.app_title == raw.provider->0.app_title,
{
    first_fault(config::raw_errors(raw));
    assert(config::raw_errors(raw)[5] is None);
}

proof fn first_fault(errors: Seq<Option<Seq<char>>>)
    ensures
        config::first_error(errors) is None ==> forall|i: int|
            0 <= i < errors.len() ==> (#[trigger] errors[i]) is None,
        config::first_error(errors) is Some ==> exists|i: int|
            0 <= i < errors.len() && #[trigger] errors[i] == config::first_error(errors)
                && forall|j: int| 0 <= j < i ==> (#[trigger] errors[j]) is None,
    decreases errors.len(),
{
    if errors.len() > 0 {
        let rest = errors.drop_first();
        first_fault(rest);
        if errors[0] is None {
            if config::first_error(rest) is Some {
                let i = choose|i: int|
                    0 <= i < rest.len() && #[trigger] rest[i] == config::first_error(rest)
                        && forall|j: int| 0 <= j < i ==> (#[trigger] rest[j]) is None;
                assert(errors[i + 1] == rest[i]);
                assert forall|j: int| 0 <= j < i + 1 implies (#[trigger] errors[j]) is None by {
                    if j > 0 {
                        assert(rest[j - 1] is None);
                    }
                }
            } else {
                assert forall|i: int| 0 <= i < errors.len() implies (#[trigger] errors[i])
                    is None by {
                    if i > 0 {
                        assert(rest[i - 1] is None);
                    }
                }
            }
        } else {
            assert(errors[0] == config::first_error(errors));
        }
    }
}

/// Whether a limit of a file is zero.
pub open spec fn is_zero(limit: Option<u32>) -> bool {
    limit == Some(0u32)
}

/// A limit that a file sets is what counts, and what it does not set is assumed.
pub proof fn limits_are_as_set(raw: RawConfig, config: Config)
    requires
        call_ensures(Config::from_raw, (raw,), Ok::<Config, AppError>(config)),
    ensures
        match raw.limits {
            Some(limits) => {
                &&& limits.token_budget matches Some(n) ==> config.limits.token_budget == n
                &&& limits.max_output_tokens matches Some(n) ==> config.limits.max_output_tokens
                    == n
                &&& limits.max_turns matches Some(n) ==> config.limits.max_turns == n
                &&& limits.token_budget is None ==> config.limits.token_budget == 4_000
                &&& limits.max_output_tokens is None ==> config.limits.max_output_tokens == 1_024
                &&& limits.max_turns is None ==> config.limits.max_turns == 8
            },
            None => config.limits.token_budget == 4_000 && config.limits.max_output_tokens == 1_024
                && config.limits.max_turns == 8,
        },
        raw.provider is None ==> config.provider.connect_timeout_ms == 30_000
            && config.provider.stream_idle_timeout_ms == 120_000,
        raw.provider matches Some(provider) ==> (provider.connect_timeout_ms is None
            ==> config.provider.connect_timeout_ms == 30_000) && (provider.stream_idle_timeout_ms
            is None && provider.timeout_ms is None ==> config.provider.stream_idle_timeout_ms
            == 120_000),
{
}

/// The tools that a file enables are those that are offered, in its order; where it names none, they
/// are the tools for files, the shell and the web.
pub proof fn tools_are_as_enabled(raw: RawConfig, config: Config)
    requires
        call_ensures(Config::from_raw, (raw,), Ok::<Config, AppError>(config)),
    ensures
        match raw.tools {
            Some(tools) => tools.enabled matches Some(enabled) ==> {
                &&& config.tools.enabled@.len() == enabled@.len()
                &&& forall|i: int|
                    0 <= i < enabled@.len() ==> (#[trigger] config.tools.enabled@[i])@
                        == enabled@[i]@
            },
            None => true,
        },
        (raw.tools is None || raw.tools->0.enabled is None) ==> {
            let enabled = config.tools.enabled@;
            &&& enabled.len() == 6
            &&& enabled[0]@ == "file.read"@
            &&& enabled[1]@ == "file.list"@
            &&& enabled[2]@ == "file.write"@
            &&& enabled[3]@ == "file.edit"@
            &&& enabled[4]@ == "shell.exec"@
            &&& enabled[5]@ == "web.fetch"@
        },
{
    let names = tool_catalog::texts(config.tools.enabled@);
    assert forall|i: int| 0 <= i < config.tools.enabled@.len() implies (
    #[trigger] config.tools.enabled@[i])@ == names[i] by {}
    if let Some(tools) = raw.tools {
        if let Some(enabled) = tools.enabled {
            assert forall|i: int| 0 <= i < enabled@.len() implies names[i] == (
            #[trigger] enabled@[i])@ by {}
            assert(names.len() == enabled@.len());
        }
    }
}

/// Whether the keys of some channels are numbers from one on, no two of them alike.
pub open spec fn channels_are_distinct(entries: Seq<(String, String)>) -> bool {
    &&& forall|i: int|
        0 <= i < entries.len() ==> {
            &&& text::decimal_number((#[trigger] entries[i]).0@) is Some
            &&& text::decimal_number(entries[i].0@) != Some(0u64)
        }
    &&& forall|i: int, j: int|
        0 <= i < j < entries.len() ==> text::decimal_number((#[trigger] entries[i]).0@)
            != text::decimal_number((#[trigger] entries[j]).0@)
}

/// Whether a table of the Discord gateway can be used.
pub open spec fn usable(raw: RawDiscordGatewayConfig) -> bool {
    &&& !text::is_blank(raw.api_key_env@)
    &&& raw.owner_user_ids@.len() > 0
    &&& forall|i: int| 0 <= i < raw.owner_user_ids@.len() ==> #[trigger] raw.owner_user_ids@[i] != 0
    &&& raw.channel_configs@.len() > 0
    &&& channels_are_distinct(raw.channel_configs@)
}

proof fn channels_taken_over(entries: Seq<(String, String)>)
    ensures
        config::channels_error(entries) is None <==> channels_are_distinct(entries),
        channels_are_distinct(entries) ==> forall|i: int|
            0 <= i < entries.len() ==> {
                let n = text::decimal_number((#[trigger] entries[i]).0@)->0;
                &&& config::channel_map(entries).contains_key(n)
                &&& config::channel_map(entries)[n] == entries[i].1
            },
        forall|n: u64| #[trigger]
            config::channel_map(entries).contains_key(n) ==> exists|i: int|
                0 <= i < entries.len() && text::decimal_number((#[trigger] entries[i]).0@)
                    == Some(n) && n != 0,
        forall|i: int|
            0 <= i < entries.len() && text::decimal_number((#[trigger] entries[i]).0@) is Some
                && text::decimal_number(entries[i].0@) != Some(0u64) ==> config::channel_map(
                entries,
            ).contains_key(text::decimal_number(entries[i].0@)->0),
    decreases entries.len(),
{
    if entries.len() > 0 {
        let t = entries.drop_last();
        let last = entries.last();
        channels_taken_over(t);
        assert forall|i: int| 0 <= i < t.len() implies #[trigger] t[i] == entries[i] by {}
        if channels_are_distinct(entries) {
            assert(channels_are_distinct(t)) by {
                assert forall|i: int, j: int| 0 <= i < j < t.len() implies text::decimal_number(
                    (#[trigger] t[i]).0@,
                ) != text::decimal_number((#[trigger] t[j]).0@) by {
                    assert(text::decimal_number(entries[i].0@) != text::decimal_number(
                        entries[j].0@,
                    ));
                }
            }
            let n = text::decimal_number(entries[entries.len() - 1].0@)->0;
            if config::channel_map(t).contains_key(n) {
                let i = choose|i: int|
                    0 <= i < t.len() && text::decimal_number((#[trigger] t[i]).0@) == Some(n)
                        && n != 0;
                assert(text::decimal_number(entries[i].0@) != text::decimal_number(
                    entries[entries.len() - 1].0@,
                ));
            }
            assert forall|i: int| 0 <= i < entries.len() implies {
                let n = text::decimal_number((#[trigger] entries[i]).0@)->0;
                &&& config::channel_map(entries).contains_key(n)
                &&& config::channel_map(entries)[n] == entries[i].1
            } by {
                if i < t.len() {
                    assert(config::channel_map(t).contains_key(
                        text::decimal_number(t[i].0@)->0,
                    ));
                    assert(text::decimal_number(entries[i].0@) != text::decimal_number(
                        entries[entries.len() - 1].0@,
                    ));
                }
            }
        }
        if config::channels_error(entries) is None {
            assert(channels_are_distinct(entries)) by {
                let n = config::channel_number(last.0@)->0;
                assert forall|i: int| 0 <= i < entries.len() implies {
                    &&& text::decimal_number((#[trigger] entries[i]).0@) is Some
                    &&& text::decimal_number(entries[i].0@) != Some(0u64)
                } by {
                    if i < t.len() {
                        assert(text::decimal_number(t[i].0@) is Some);
                    }
                }
                assert forall|i: int, j: int|
                    0 <= i < j < entries.len() implies text::decimal_number(
                    (#[trigger] entries[i]).0@,
                ) != text::decimal_number((#[trigger] entries[j]).0@) by {
                    if j < t.len() {
                        assert(text::decimal_number(t[i].0@) != text::decimal_number(t[j].0@));
                    } else {
                        assert(config::channel_map(t).contains_key(
                            text::decimal_number(t[i].0@)->0,
                        ));
                    }
                }
            }
        }
        assert forall|n: u64| #[trigger] config::channel_map(entries).contains_key(n) implies (
        exists|i: int|
            0 <= i < entries.len() && text::decimal_number((#[trigger] entries[i]).0@) == Some(n)
                && n != 0) by {
            if config::channel_map(t).contains_key(n) {
                let i = choose|i: int|
                    0 <= i < t.len() && text::decimal_number((#[trigger] t[i]).0@) == Some(n)
                        && n != 0;
                assert(text::decimal_number(entries[i].0@) == Some(n));
            } else {
                assert(text::decimal_number(entries[entries.len() - 1].0@) == Some(n));
            }
        }
        assert forall|i: int|
            0 <= i < entries.len() && text::decimal_number((#[trigger] entries[i]).0@) is Some
                && text::decimal_number(entries[i].0@) != Some(0u64) implies config::channel_map(
            entries,
        ).contains_key(text::decimal_number(entries[i].0@)->0) by {
            if i < t.len() {
                assert(config::channel_map(t).contains_key(text::decimal_number(t[i].0@)->0));
            }
        }
    }
}

/// A table of the Discord gateway is refused exactly where it cannot be used. Where it can, its
/// owners and the place of its key are taken over, and every channel has the file that stands beside
/// its number; no other channel has one.
pub proof fn the_discord_table_is_taken_over(
    raw: RawDiscordGatewayConfig,
    result: Result<DiscordGatewayConfig, AppError>,
)
    requires
        call_ensures(DiscordGatewayConfig::from_raw, (raw,), result),
    ensures
        result is Ok <==> usable(raw),
        result matches Ok(discord) ==> {
            &&& discord.api_key_env == raw.api_key_env
            &&& discord.owner_user_ids == raw.owner_user_ids
            &&& forall|i: int|
                0 <= i < raw.channel_configs@.len() ==> {
                    let n = text::decimal_number((#[trigger] raw.channel_configs@[i]).0@)->0;
                    &&& discord.channel_configs@.contains_key(n)
                    &&& discord.channel_configs@[n] == raw.channel_configs@[i].1
                }
            &&& forall|n: u64| #[trigger]
                discord.channel_configs@.contains_key(n) ==> exists|i: int|
                    0 <= i < raw.channel_configs@.len() && text::decimal_number(
                        (#[trigger] raw.channel_configs@[i]).0@,
                    ) == Some(n)
        },
{
    channels_taken_over(raw.channel_configs@);
    let owners = raw.owner_user_ids@;
    if owners.contains(0u64) {
        let i = choose|i: int| 0 <= i < owners.len() && owners[i] == 0u64;
        assert(!(owners[i] != 0));
    } else {
        assert forall|i: int| 0 <= i < owners.len() implies #[trigger] owners[i] != 0 by {
            assert(owners.contains(owners[i]));
        }
    }
}

/// Whether a file can be used: what it sets is positive, it does not set one time twice, its tools
/// are known ones, and its gateway table holds a gateway that can be used.
pub open spec fn faultless(raw: RawConfig) -> bool {
    &&& raw.gateway matches Some(gateway) ==> {
        &&& gateway.discord is Some || gateway.http is Some
        &&& gateway.discord matches Some(discord) ==> usable(discord)
    }
    &&& raw.limits matches Some(limits) ==> !is_zero(limits.token_budget) && !is_zero(
        limits.max_output_tokens,
    ) && !is_zero(limits.max_turns)
    &&& raw.provider matches Some(provider) ==> {
        &&& provider.connect_timeout_ms != Some(0u64)
        &&& provider.stream_idle_timeout_ms != Some(0u64)
        &&& provider.timeout_ms != Some(0u64)
        &&& provider.stream_idle_timeout_ms is None || provider.timeout_ms is None
    }
    &&& raw.tools matches Some(tools) ==> (tools.enabled matches Some(enabled) ==> {
        &&& enabled@.len() > 0
        &&& forall|i: int| 0 <= i < enabled@.len() ==> is_a_tool((#[trigger] enabled@[i])@)
    })
}

/// Whether a name is that of a tool.
pub open spec fn is_a_tool(name: Seq<char>) -> bool {
    ||| name == "file.read"@
    ||| name == "file.list"@
    ||| name == "file.write"@
    ||| name == "file.edit"@
    ||| name == "shell.exec"@
    ||| name == "web.fetch"@
    ||| name == "computer.windows"@
    ||| name == "computer.observe"@
}

proof fn known_tools(enabled: Seq<Seq<char>>)
    ensures
        config::unknown_tool_error(enabled) is None <==> forall|i: int|
            0 <= i < enabled.len() ==> is_a_tool(#[trigger] enabled[i]),
    decreases enabled.len(),
{
    let d = tool_catalog::default_tools();
    assert(d[0] == "file.read"@ && d[1] == "file.list"@ && d[2] == "file.write"@ && d[3]
        == "file.edit"@ && d[4] == "shell.exec"@ && d[5] == "web.fetch"@);
    if enabled.len() > 0 {
        let t = enabled.drop_last();
        known_tools(t);
        assert forall|i: int| 0 <= i < t.len() implies #[trigger] t[i] == enabled[i] by {}
        assert(enabled[enabled.len() - 1] == enabled.last());
        if forall|i: int| 0 <= i < enabled.len() ==> is_a_tool(#[trigger] enabled[i]) {
            assert forall|i: int| 0 <= i < t.len() implies is_a_tool(#[trigger] t[i]) by {
                assert(is_a_tool(enabled[i]));
            }
            assert(is_a_tool(enabled[enabled.len() - 1]));
        }
        if config::unknown_tool_error(enabled) is None {
            assert forall|i: int| 0 <= i < enabled.len() implies is_a_tool(
                #[trigger] enabled[i],
            ) by {
                if i < t.len() {
                    assert(is_a_tool(t[i]));
                }
            }
        }
    }
}

proof fn refusal_of(raw: RawConfig)
    ensures
        config::raw_error(raw) is None <==> faultless(raw),
{
    let errors = config::raw_errors(raw);
    first_fault(errors);
    if let Some(gateway) = raw.gateway {
        if let Some(discord) = gateway.discord {
            channels_taken_over(discord.channel_configs@);
            let owners = discord.owner_user_ids@;
            if owners.contains(0u64) {
                let i = choose|i: int| 0 <= i < owners.len() && owners[i] == 0u64;
                assert(!(owners[i] != 0));
            } else {
                assert forall|i: int| 0 <= i < owners.len() implies #[trigger] owners[i] != 0 by {
                    assert(owners.contains(owners[i]));
                }
            }
            assert(config::discord_error(discord) is None <==> usable(discord));
        }
    }
    let names = config::enabled_of(raw);
    known_tools(names);
    if let Some(tools) = raw.tools {
        if let Some(enabled) = tools.enabled {
            assert(names.len() == enabled@.len());
            assert forall|i: int| 0 <= i < enabled@.len() implies names[i] == (
            #[trigger] enabled@[i])@ by {}
            if forall|i: int| 0 <= i < enabled@.len() ==> is_a_tool((#[trigger] enabled@[i])@) {
                assert forall|i: int| 0 <= i < names.len() implies is_a_tool(
                    #[trigger] names[i],
                ) by {
                    assert(is_a_tool(enabled@[i]@));
                }
            }
            if forall|i: int| 0 <= i < names.len() ==> is_a_tool(#[trigger] names[i]) {
                assert forall|i: int| 0 <= i < enabled@.len() implies is_a_tool(
                    (#[trigger] enabled@[i])@,
                ) by {
                    assert(is_a_tool(names[i]));
                }
            }
        }
    }
    assert(errors[0] is None && errors[1] is None && errors[2] is None && errors[3] is None
        && errors[4] is None && errors[5] is None && errors[6] is None <==> faultless(raw));
    if config::first_error(errors) is Some {
        let i = choose|i: int|
            0 <= i < errors.len() && #[trigger] errors[i] == config::first_error(errors)
                && forall|j: int| 0 <= j < i ==> (#[trigger] errors[j]) is None;
        assert(errors[i] is Some);
    }
}

/// A file is refused exactly where something is wrong with it, and the refusal says that it is the
/// configuration that cannot be used.
pub proof fn only_a_faulty_file_is_refused(raw: RawConfig, result: Result<Config, AppError>)
    requires
        call_ensures(Config::from_raw, (raw,), result),
    ensures
        result is Ok <==> faultless(raw),
        result matches Err(error) ==> error is Config,
{
    refusal_of(raw);
}

/// The gateways, those who may use them and the desktop program are those of the file, and nothing
/// is opened that the file does not ask for.
pub proof fn gateways_are_as_written(raw: RawConfig, config: Config)
    requires
        call_ensures(Config::from_raw, (raw,), Ok::<Config, AppError>(config)),
    ensures
        config.gateway is Some <==> raw.gateway is Some && raw.gateway->0.discord is Some,
        config.http_gateway is Some <==> raw.gateway is Some && raw.gateway->0.http is Some,
        config.gateway matches Some(gateway) ==> {
            &&& gateway.discord.owner_user_ids == raw.gateway->0.discord->0.owner_user_ids
            &&& gateway.discord.api_key_env == raw.gateway->0.discord->0.api_key_env
        },
        raw.principals matches Some(principals) ==> config.http_principals@ == principals.http@,
        raw.principals is None ==> config.http_principals@.len() == 0,
        config.computer == raw.computer,
{
}

/// The HTTP gateway listens where the file says, or else on this host alone, and it may be reached
/// from elsewhere only where the file says so.
pub proof fn the_http_gateway_stays_home(raw: RawHttpGatewayConfig, http: HttpGatewayConfig)
    requires
        call_ensures(HttpGatewayConfig::from_raw, (raw,), http),
    ensures
        raw.bind matches Some(bind) ==> http.bind@ == bind@,
        raw.bind is None ==> http.bind@ == "127.0.0.1:8787"@,
        http.allow_non_loopback <==> raw.allow_non_loopback == Some(true),
{
}

/// Whether a file sets what only the user may set: where keys are read and where requests go, the
/// gateways and who may use them, and the tools that look at the desktop.
pub open spec fn oversteps(raw: RawConfig) -> bool {
    ||| raw.gateway is Some
    ||| names_key(raw)
    ||| names_url(raw)
    ||| raw.principals is Some
    ||| raw.computer is Some
    ||| raw.tools is Some && raw.tools->0.enabled is Some && exists|i: int|
        0 <= i < raw.tools->0.enabled->0@.len() && looks_at_desktop(
            (#[trigger] raw.tools->0.enabled->0@[i])@,
        )
}

/// Whether a name is that of a tool that looks at the desktop.
pub open spec fn looks_at_desktop(name: Seq<char>) -> bool {
    name == "computer.windows"@ || name == "computer.observe"@
}

proof fn no_default_tool_looks_at_the_desktop()
    ensures
        !config::enables_desktop(tool_catalog::default_tools()),
{
    reveal_strlit("file.read");
    reveal_strlit("file.list");
    reveal_strlit("file.write");
    reveal_strlit("file.edit");
    reveal_strlit("shell.exec");
    reveal_strlit("web.fetch");
    reveal_strlit("computer.windows");
    reveal_strlit("computer.observe");
    assert("computer.windows"@[0] == 'c' && "computer.observe"@[0] == 'c');
    assert("file.read"@[0] == 'f' && "file.list"@[0] == 'f' && "file.write"@[0] == 'f'
        && "file.edit"@[0] == 'f' && "shell.exec"@[0] == 's' && "web.fetch"@[0] == 'w');
}

/// A file of the workspace is taken exactly where it is faultless and sets nothing that only the user
/// may set; a file that the user chose is taken exactly where it is faultless. Without a file there
/// is always a configuration.
pub proof fn a_workspace_file_may_not_overstep(
    found: Option<(ResolvedConfigPath, RawConfig)>,
    result: Result<Config, AppError>,
)
    requires
        call_ensures(Config::load_resolved, (found,), result),
    ensures
        match found {
            None => result is Ok,
            Some((ResolvedConfigPath::Workspace(_), raw)) => result is Ok <==> faultless(raw)
                && !oversteps(raw),
            Some((ResolvedConfigPath::Authorized(_), raw)) => result is Ok <==> faultless(raw),
        },
        result matches Err(error) ==> error is Config,
        found matches Some((ResolvedConfigPath::Workspace(_), raw)) ==> {
            &&& raw.gateway is Some ==> result == Err::<Config, AppError>(result->Err_0)
                && result->Err_0->Config_0@ == WORKSPACE_GATEWAY_ERROR@
            &&& raw.gateway is None && (names_key(raw) || names_url(raw))
                ==> result->Err_0->Config_0@ == WORKSPACE_PROVIDER_OVERRIDE_ERROR@
        },
{
    if let Some((resolved, raw)) = found {
        refusal_of(raw);
        no_default_tool_looks_at_the_desktop();
        let names = config::enabled_of(raw);
        if raw.tools is Some && raw.tools->0.enabled is Some {
            let enabled = raw.tools->0.enabled->0@;
            assert(names.len() == enabled.len());
            assert forall|i: int| 0 <= i < enabled.len() implies names[i] == (
            #[trigger] enabled[i])@ by {}
            if config::enables_desktop(names) {
                let i = choose|i: int|
                    0 <= i < names.len() && tool_catalog::observes_desktop(#[trigger] names[i]);
                assert(looks_at_desktop(enabled[i]@));
            }
            if exists|i: int| 0 <= i < enabled.len() && looks_at_desktop((#[trigger] enabled[i])@) {
                let i = choose|i: int|
                    0 <= i < enabled.len() && looks_at_desktop((#[trigger] enabled[i])@);
                assert(tool_catalog::observes_desktop(names[i]));
            }
        }
    }
}

/// Whether a message says that a value must be positive.
pub open spec fn wants_positive(result: Result<Config, AppError>, field: Seq<char>) -> bool {
    result matches Err(AppError::Config(message)) && message@ == field + " must be positive"@
}

/// A limit of zero is refused by its name: the first one, in the order of the file's tables.
pub proof fn a_zero_is_named(raw: RawConfig, result: Result<Config, AppError>)
    requires
        call_ensures(Config::from_raw, (raw,), result),
        raw.gateway is None,
    ensures
        raw.limits matches Some(limits) ==> {
            &&& is_zero(limits.token_budget) ==> wants_positive(result, "limits.token_budget"@)
            &&& !is_zero(limits.token_budget) && is_zero(limits.max_output_tokens)
                ==> wants_positive(result, "limits.max_output_tokens"@)
            &&& !is_zero(limits.token_budget) && !is_zero(limits.max_output_tokens) && is_zero(
                limits.max_turns,
            ) ==> wants_positive(result, "limits.max_turns"@)
        },
        raw.limits is None && raw.provider is Some ==> {
            let provider = raw.provider->0;
            &&& provider.connect_timeout_ms == Some(0u64) ==> wants_positive(
                result,
                "provider.connect_timeout_ms"@,
            )
            &&& provider.connect_timeout_ms is None && provider.timeout_ms is None
                && provider.stream_idle_timeout_ms == Some(0u64) ==> wants_positive(
                result,
                "provider.stream_idle_timeout_ms"@,
            )
            &&& provider.connect_timeout_ms is None && provider.stream_idle_timeout_ms is None
                && provider.timeout_ms == Some(0u64) ==> wants_positive(
                result,
                "provider.timeout_ms"@,
            )
        },
{
    let errors = config::raw_errors(raw);
    reveal_with_fuel(config::first_error, 8);
    assert(errors.drop_first()[0] == errors[1]);
    assert(errors.drop_first().drop_first()[0] == errors[2]);
    assert(errors.drop_first().drop_first().drop_first()[0] == errors[3]);
    assert(errors.drop_first().drop_first().drop_first().drop_first()[0] == errors[4]);
    assert(errors.drop_first().drop_first().drop_first().drop_first().drop_first()[0]
        == errors[5]);
}

/// A path taken from a base: one that starts at the root stays, and any other stands behind the base
/// with one slash between them.
pub proof fn a_path_is_taken_from_its_base(base: &str, path: &str, taken: String)
    requires
        call_ensures(join, (base, path), taken),
    ensures
        path@.len() > 0 && path@[0] == '/' ==> taken@ == path@,
        path@.len() > 0 && path@[0] != '/' ==> {
            &&& base@.len() == 0 ==> taken@ == path@
            &&& base@.len() > 0 && base@[base@.len() - 1] == '/' ==> taken@ == base@ + path@
            &&& base@.len() > 0 && base@[base@.len() - 1] != '/' ==> taken@ == base@ + "/"@ + path@
        },
{
    reveal_strlit("/");
    assert(base@.push('/') =~= base@ + "/"@);
    assert(Seq::<char>::empty() + path@ =~= path@);
    if base@.len() == 0 {
        assert(base@ + path@ =~= path@);
    }
}

/// Whether a path stays as it is wherever it is taken from.
pub open spec fn at_root(path: Seq<char>) -> bool {
    path.len() > 0 && path[0] == '/'
}

/// Whether a file that the user names was found: an absolute path as it is, and one under `~/` in the
/// user's home.
pub open spec fn names_file(
    result: Result<Option<ResolvedConfigPath>, AppError>,
    path: Seq<char>,
    places: ConfigPlaces,
) -> bool {
    &&& at_root(path) ==> (result matches Ok(Some(ResolvedConfigPath::Authorized(file)))
        && file@ == path)
    &&& path.len() > 0 && path[0] != '/' && path[0] != '~' && places.workspace_root@.len() > 0
        && places.workspace_root@.last() != '/' ==> (result matches Ok(
        Some(ResolvedConfigPath::Authorized(file)),
    ) && file@ == places.workspace_root@ + "/"@ + path)
    &&& path.len() > 2 && path[0] == '~' && path[1] == '/' && path[2] != '/' ==> match places.home {
        Some(home) => at_root(home@) && home@.last() != '/' ==> (result matches Ok(
            Some(ResolvedConfigPath::Authorized(file)),
        ) && file@ == home@ + "/"@ + path.skip(2)),
        None => result matches Err(AppError::Config(message)) && message@ == TILDE_HOME_ERROR@,
    }
    &&& path == seq!['~'] ==> match places.home {
        Some(home) => at_root(home@) ==> (result matches Ok(
            Some(ResolvedConfigPath::Authorized(file)),
        ) && file@ == home@),
        None => result matches Err(AppError::Config(message)) && message@ == TILDE_HOME_ERROR@,
    }
}

/// The file that the command line names counts, or else the one that the environment names, or else
/// the workspace's own, or else the user's own. What the first two name and the user's own file are
/// the user's choice; the workspace's own file is not.
pub proof fn the_first_file_counts(
    places: &ConfigPlaces,
    result: Result<Option<ResolvedConfigPath>, AppError>,
)
    requires
        call_ensures(resolve_config, (places,), result),
    ensures
        places.explicit_path matches Some(path) ==> names_file(result, path@, *places),
        places.explicit_path is None ==> (places.env_path matches Some(path) ==> names_file(
            result,
            path@,
            *places,
        )),
        places.explicit_path is None && places.env_path is None && places.workspace_file_exists
            && places.workspace_root@.len() > 0 && places.workspace_root@.last() != '/' ==> (
        result matches Ok(Some(ResolvedConfigPath::Workspace(file))) && file@
            == places.workspace_root@ + "/"@ + "plato.toml"@),
        places.explicit_path is None && places.env_path is None && !places.workspace_file_exists
            && places.user_file_exists ==> (match places.home {
            Some(home) => home@.len() > 0 && home@.last() != '/' ==> (result matches Ok(
                Some(ResolvedConfigPath::Authorized(file)),
            ) && file@ == home@ + "/"@ + ".config"@ + "/"@ + "plato"@ + "/"@ + "config.toml"@),
            None => result == Ok::<Option<ResolvedConfigPath>, AppError>(None),
        }),
        places.explicit_path is None && places.env_path is None && !places.workspace_file_exists
            && !places.user_file_exists ==> result == Ok::<Option<ResolvedConfigPath>, AppError>(
            None,
        ),
        result matches Ok(Some(ResolvedConfigPath::Workspace(_))) ==> places.explicit_path is None
            && places.env_path is None && places.workspace_file_exists,
{
    reveal_strlit("/");
    reveal_strlit("~");
    reveal_strlit("~/");
    reveal_strlit("plato.toml");
    reveal_strlit(".config");
    reveal_strlit("plato");
    reveal_strlit("config.toml");
    let root = places.workspace_root@;
    assert(root.push('/') =~= root + "/"@);
    assert("~"@ =~= seq!['~']);
    if let Some(path) = places.explicit_path {
        path_forms(path@, *places);
    } else if let Some(path) = places.env_path {
        path_forms(path@, *places);
    }
    if let Some(home) = places.home {
        let one = home@ + "/"@ + ".config"@;
        assert(home@.push('/') =~= home@ + "/"@);
        assert(one.last() == 'g');
        assert(one.push('/') =~= one + "/"@);
        let two = one + "/"@ + "plato"@;
        assert(two.last() == 'o');
        assert(two.push('/') =~= two + "/"@);
    }
}

proof fn path_forms(path: Seq<char>, places: ConfigPlaces)
    ensures
        at_root(path) ==> path != "~"@ && !text::starts_with(path, "~/"@),
        path.len() > 0 && path[0] != '~' ==> path != "~"@ && !text::starts_with(path, "~/"@),
        path.len() > 2 && path[0] == '~' && path[1] == '/' ==> path != "~"@ && text::starts_with(
            path,
            "~/"@,
        ),
        places.home matches Some(home) ==> home@.push('/') == home@ + "/"@,
        places.home matches Some(home) ==> (home@.push('/') + path.skip(2)) == home@ + "/"@
            + path.skip(2),
        path.len() > 2 ==> path.skip(2)[0] == path[2],
        path.len() > 0 ==> path.take(1)[0] == path[0],
{
    reveal_strlit("/");
    reveal_strlit("~");
    reveal_strlit("~/");
    if path.len() >= 2 {
        assert(path.take(2)[0] == path[0]);
        if path[0] == '~' && path[1] == '/' {
            assert(path.take(2) =~= "~/"@);
        }
    }
    if let Some(home) = places.home {
        assert(home@.push('/') =~= home@ + "/"@);
    }
}

} // verus!
