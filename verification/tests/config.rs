use plato_agent::config::{
    ComputerConfig, Config, ConfigPlaces, DEFAULT_CONNECT_TIMEOUT_MS, DEFAULT_STREAM_IDLE_TIMEOUT_MS,
    EMPTY_GATEWAY_ERROR, HttpGatewayConfig, HttpPrincipalConfig, OPENAI_BASE_URL, ProviderKind,
    RawConfig, RawDiscordGatewayConfig, RawGatewayConfig, RawHttpGatewayConfig, RawLimitsConfig,
    RawPrincipalsConfig, RawProviderConfig, RawToolsConfig, ResolvedConfigPath,
    WORKSPACE_COMPUTER_ERROR, WORKSPACE_GATEWAY_ERROR, WORKSPACE_PRINCIPALS_ERROR,
    WORKSPACE_PROVIDER_OVERRIDE_ERROR,
    expand_leading_tilde, leading_tilde_rest, resolve_config, resolve_config_path,
    resolve_config_with, user_config_path,
};
use plato_agent::error::AppError;
use plato_agent::tool_catalog::{
    EffectClass, default_enabled_tools, effect_for_tool, is_known_tool,
};
use std::collections::HashMap;

fn empty() -> RawConfig {
    RawConfig {
        provider: None,
        limits: None,
        tools: None,
        gateway: None,
        principals: None,
        computer: None,
    }
}

fn limits(
    token_budget: Option<u32>,
    max_output_tokens: Option<u32>,
    max_turns: Option<u32>,
) -> RawConfig {
    RawConfig {
        limits: Some(RawLimitsConfig {
            token_budget,
            max_output_tokens,
            max_turns,
        }),
        ..empty()
    }
}

fn provider(provider: RawProviderConfig) -> RawConfig {
    RawConfig {
        provider: Some(provider),
        ..empty()
    }
}

fn discord(channels: &[(&str, &str)]) -> RawConfig {
    RawConfig {
        gateway: Some(RawGatewayConfig {
            discord: Some(RawDiscordGatewayConfig {
                api_key_env: "DISCORD_BOT_TOKEN".to_string(),
                owner_user_ids: vec![123456789],
                channel_configs: channels
                    .iter()
                    .map(|(key, path)| (key.to_string(), path.to_string()))
                    .collect(),
            }),
            http: None,
        }),
        ..empty()
    }
}

fn authorized(raw: RawConfig) -> Result<Config, AppError> {
    Config::load_resolved(Some((
        ResolvedConfigPath::Authorized("/etc/plato.toml".to_string()),
        raw,
    )))
}

fn of_workspace(raw: RawConfig) -> Result<Config, AppError> {
    Config::load_resolved(Some((
        ResolvedConfigPath::Workspace("/work/plato.toml".to_string()),
        raw,
    )))
}

fn refused(result: Result<Config, AppError>) -> String {
    match result {
        Err(AppError::Config(message)) => message,
        other => panic!("{other:?}"),
    }
}

#[test]
fn default_config_has_the_bootstrap_tools() {
    let config = Config::default();

    assert_eq!(config.provider.kind, ProviderKind::OpenRouter);
    assert_eq!(config.provider.model, "~openai/gpt-latest");
    assert_eq!(config.provider.api_key_env, "OPENROUTER_API_KEY");
    assert_eq!(config.provider.base_url, "https://openrouter.ai/api/v1");
    assert_eq!(
        config.provider.connect_timeout_ms,
        DEFAULT_CONNECT_TIMEOUT_MS
    );
    assert_eq!(
        config.provider.stream_idle_timeout_ms,
        DEFAULT_STREAM_IDLE_TIMEOUT_MS
    );
    assert_eq!(config.limits.max_turns, 8);
    assert!(config.gateway.is_none());
    assert_eq!(
        config.tools.enabled,
        vec![
            "file.read",
            "file.list",
            "file.write",
            "file.edit",
            "shell.exec",
            "web.fetch"
        ]
    );
}

#[test]
fn parses_discord_gateway_config() {
    let config = authorized(discord(&[(
        "111111111111111111",
        "~/.config/plato/channels/news.toml",
    )]))
    .unwrap();
    let discord = config.gateway.unwrap().discord;

    assert_eq!(discord.api_key_env, "DISCORD_BOT_TOKEN");
    assert_eq!(discord.owner_user_ids, vec![123456789]);
    assert_eq!(
        discord.channel_configs,
        HashMap::from([(
            111111111111111111,
            "~/.config/plato/channels/news.toml".to_string()
        )])
    );
}

#[test]
fn rejects_empty_discord_channel_configs() {
    assert_eq!(
        refused(authorized(discord(&[]))),
        "gateway.discord.channel_configs must not be empty"
    );
}

#[test]
fn rejects_zero_and_nonnumeric_discord_channel_config_keys() {
    for channel_id in ["0", "+1", "not-a-channel"] {
        assert_eq!(
            refused(authorized(discord(&[(channel_id, "channel.toml")]))),
            "gateway.discord.channel_configs keys must be positive numeric Discord channel IDs"
        );
    }
}

#[test]
fn rejects_discord_channel_config_keys_with_duplicate_numeric_values() {
    assert_eq!(
        refused(authorized(discord(&[
            ("1", "news.toml"),
            ("01", "dev.toml")
        ]))),
        "gateway.discord.channel_configs contains a duplicate numeric Discord channel ID"
    );
}

#[test]
fn auto_workspace_config_rejects_sensitive_provider_fields() {
    for raw in [
        RawProviderConfig {
            api_key_env: Some("STOLEN_SECRET".to_string()),
            ..RawProviderConfig::default()
        },
        RawProviderConfig {
            base_url: Some("https://attacker.invalid/v1".to_string()),
            ..RawProviderConfig::default()
        },
    ] {
        let resolved = resolve_config_with("/work", None, None, &None, None, true, false)
            .unwrap()
            .unwrap();
        assert!(matches!(&resolved, ResolvedConfigPath::Workspace(_)));
        let error = Config::load_resolved(Some((resolved, provider(raw))));
        assert_eq!(refused(error), WORKSPACE_PROVIDER_OVERRIDE_ERROR);
    }
}

#[test]
fn auto_workspace_config_rejects_the_gateway_table() {
    assert_eq!(
        refused(of_workspace(discord(&[("200", "channel.toml")]))),
        WORKSPACE_GATEWAY_ERROR
    );
}

#[test]
fn auto_workspace_config_rejects_desktop_tools() {
    let tools = || RawConfig {
        tools: Some(RawToolsConfig {
            enabled: Some(vec!["computer.observe".to_string()]),
        }),
        ..empty()
    };
    assert_eq!(refused(of_workspace(tools())), WORKSPACE_COMPUTER_ERROR);
    assert_eq!(
        authorized(tools()).unwrap().tools.enabled,
        vec!["computer.observe"]
    );
}

fn desktop() -> RawConfig {
    RawConfig {
        computer: Some(ComputerConfig {
            executable: Some("/absolute/path/to/cua-driver".to_string()),
        }),
        tools: Some(RawToolsConfig {
            enabled: Some(vec![
                "file.read".to_string(),
                "file.list".to_string(),
                "computer.windows".to_string(),
                "computer.observe".to_string(),
            ]),
        }),
        ..empty()
    }
}

#[test]
fn the_user_can_configure_and_enable_desktop_tools() {
    let config = authorized(desktop()).unwrap();
    assert_eq!(
        config.tools.enabled,
        vec![
            "file.read",
            "file.list",
            "computer.windows",
            "computer.observe"
        ]
    );
    assert_eq!(
        config.computer,
        Some(ComputerConfig {
            executable: Some("/absolute/path/to/cua-driver".to_string())
        })
    );
    let unnamed = authorized(RawConfig {
        computer: Some(ComputerConfig { executable: None }),
        ..empty()
    })
    .unwrap();
    assert_eq!(unnamed.computer, Some(ComputerConfig { executable: None }));
    assert_eq!(Config::default().computer, None);

    assert_eq!(refused(of_workspace(desktop())), WORKSPACE_COMPUTER_ERROR);
    assert_eq!(
        refused(of_workspace(RawConfig {
            tools: None,
            ..desktop()
        })),
        WORKSPACE_COMPUTER_ERROR
    );
}

fn http(bind: Option<&str>, allow_non_loopback: Option<bool>) -> RawConfig {
    RawConfig {
        gateway: Some(RawGatewayConfig {
            discord: None,
            http: Some(RawHttpGatewayConfig {
                bind: bind.map(str::to_string),
                allow_non_loopback,
            }),
        }),
        ..empty()
    }
}

fn principals() -> RawPrincipalsConfig {
    RawPrincipalsConfig {
        http: vec![(
            "remote_laptop".to_string(),
            HttpPrincipalConfig {
                name: "remote_laptop".to_string(),
                token_sha256: vec!["<emitted lowercase SHA-256 hash>".to_string()],
                workspace_ids: vec!["<server workspace id>".to_string()],
            },
        )],
    }
}

#[test]
fn the_http_gateway_needs_no_discord_gateway() {
    let config = authorized(RawConfig {
        principals: Some(principals()),
        ..http(Some("127.0.0.1:8787"), None)
    })
    .unwrap();
    assert!(config.gateway.is_none());
    assert_eq!(
        config.http_gateway,
        Some(HttpGatewayConfig {
            bind: "127.0.0.1:8787".to_string(),
            allow_non_loopback: false
        })
    );
    assert_eq!(config.http_principals, principals().http);

    let assumed = authorized(http(None, Some(true))).unwrap().http_gateway.unwrap();
    assert_eq!(assumed.bind, "127.0.0.1:8787");
    assert!(assumed.allow_non_loopback);

    let mut both = discord(&[("200", "channel.toml")]);
    both.gateway.as_mut().unwrap().http = http(None, None).gateway.unwrap().http;
    let config = authorized(both).unwrap();
    assert!(config.gateway.is_some());
    assert!(config.http_gateway.is_some());
    assert!(config.http_principals.is_empty());
}

#[test]
fn a_gateway_table_configures_a_gateway() {
    assert_eq!(
        refused(authorized(RawConfig {
            gateway: Some(RawGatewayConfig {
                discord: None,
                http: None
            }),
            ..empty()
        })),
        EMPTY_GATEWAY_ERROR
    );
}

#[test]
fn auto_workspace_config_rejects_the_http_gateway_and_its_principals() {
    assert_eq!(
        refused(of_workspace(http(None, None))),
        WORKSPACE_GATEWAY_ERROR
    );
    assert_eq!(
        refused(of_workspace(RawConfig {
            principals: Some(principals()),
            ..empty()
        })),
        WORKSPACE_PRINCIPALS_ERROR
    );
}

#[test]
fn auto_workspace_config_allows_other_fields() {
    let raw = RawConfig {
        provider: Some(RawProviderConfig {
            kind: Some(ProviderKind::OpenAi),
            model: Some("gpt-test".to_string()),
            timeout_ms: Some(3000),
            ..RawProviderConfig::default()
        }),
        limits: Some(RawLimitsConfig {
            max_turns: Some(2),
            ..RawLimitsConfig::default()
        }),
        tools: Some(RawToolsConfig {
            enabled: Some(vec!["file.read".to_string()]),
        }),
        ..empty()
    };
    let config = of_workspace(raw).unwrap();

    assert_eq!(config.provider.kind, ProviderKind::OpenAi);
    assert_eq!(config.provider.model, "gpt-test");
    assert_eq!(config.provider.api_key_env, "OPENAI_API_KEY");
    assert_eq!(config.provider.base_url, OPENAI_BASE_URL);
    assert_eq!(
        config.provider.connect_timeout_ms,
        DEFAULT_CONNECT_TIMEOUT_MS
    );
    assert_eq!(config.provider.stream_idle_timeout_ms, 3000);
    assert_eq!(config.limits.max_turns, 2);
    assert_eq!(config.tools.enabled, vec!["file.read"]);
    assert!(config.gateway.is_none());
}

#[test]
fn explicit_environment_and_user_configs_allow_trusted_fields() {
    let raw = || RawConfig {
        provider: Some(RawProviderConfig {
            api_key_env: Some("AUTHORIZED_SECRET".to_string()),
            base_url: Some("https://provider.example/v1".to_string()),
            ..RawProviderConfig::default()
        }),
        ..discord(&[("200", "channel.toml")])
    };
    for source in ["explicit", "environment", "user"] {
        let path = match source {
            "explicit" => "/work/plato.toml".to_string(),
            _ => format!("/work/{source}.toml"),
        };
        let resolved = match source {
            "explicit" => resolve_config_with(
                "/work",
                Some("plato.toml".to_string()),
                None,
                &None,
                None,
                true,
                false,
            ),
            "environment" => {
                resolve_config_with("/work", None, Some(path.clone()), &None, None, false, false)
            }
            _ => resolve_config_with("/work", None, None, &None, Some(path.clone()), false, true),
        }
        .unwrap()
        .unwrap();
        assert!(matches!(
            &resolved,
            ResolvedConfigPath::Authorized(resolved_path) if resolved_path == &path
        ));
        assert_eq!(resolved.path(), path);
        assert_eq!(resolved.forwarded_path(), Some(path.clone()));

        let config = Config::load_resolved(Some((resolved, raw()))).unwrap();
        assert_eq!(config.provider.api_key_env, "AUTHORIZED_SECRET");
        assert_eq!(config.provider.base_url, "https://provider.example/v1");
        let discord = config.gateway.unwrap().discord;
        assert_eq!(
            discord.channel_configs,
            HashMap::from([(200, "channel.toml".to_string())])
        );
    }
}

#[test]
fn rejects_zero_token_budget() {
    assert!(matches!(
        Config::from_raw(limits(Some(0), None, None)),
        Err(AppError::Config(_))
    ));
}

#[test]
fn rejects_zero_max_output_tokens() {
    assert!(matches!(
        Config::from_raw(limits(None, Some(0), None)),
        Err(AppError::Config(_))
    ));
}

#[test]
fn rejects_unknown_enabled_tools() {
    let raw = RawConfig {
        provider: None,
        limits: None,
        tools: Some(RawToolsConfig {
            enabled: Some(vec!["shell.delete".into()]),
        }),
        ..empty()
    };

    let err = Config::from_raw(raw).unwrap_err();

    assert!(matches!(
        err,
        AppError::Config(message) if message == "unknown tool in tools.enabled: shell.delete"
    ));
}

#[test]
fn rejects_zero_max_turns() {
    assert!(matches!(
        Config::from_raw(limits(None, None, Some(0))),
        Err(AppError::Config(_))
    ));
}

#[test]
fn parses_configured_max_turns() {
    assert_eq!(
        Config::from_raw(limits(None, None, Some(3)))
            .unwrap()
            .limits
            .max_turns,
        3
    );
}

#[test]
fn parses_explicit_provider_timeouts() {
    let config = Config::from_raw(provider(RawProviderConfig {
        connect_timeout_ms: Some(2500),
        stream_idle_timeout_ms: Some(9000),
        ..RawProviderConfig::default()
    }))
    .unwrap();

    assert_eq!(config.provider.connect_timeout_ms, 2500);
    assert_eq!(config.provider.stream_idle_timeout_ms, 9000);
}

#[test]
fn legacy_provider_timeout_maps_to_stream_idle_budget() {
    let config = Config::from_raw(provider(RawProviderConfig {
        connect_timeout_ms: Some(2500),
        timeout_ms: Some(9000),
        ..RawProviderConfig::default()
    }))
    .unwrap();

    assert_eq!(config.provider.connect_timeout_ms, 2500);
    assert_eq!(config.provider.stream_idle_timeout_ms, 9000);
}

#[test]
fn rejects_legacy_and_explicit_stream_idle_timeouts_together() {
    let error = Config::from_raw(provider(RawProviderConfig {
        timeout_ms: Some(9000),
        stream_idle_timeout_ms: Some(9000),
        ..RawProviderConfig::default()
    }));

    assert_eq!(
        refused(error),
        "provider.timeout_ms and provider.stream_idle_timeout_ms cannot both be set"
    );
}

#[test]
fn rejects_zero_provider_timeouts() {
    for (field, raw) in [
        (
            "provider.connect_timeout_ms",
            RawProviderConfig {
                connect_timeout_ms: Some(0),
                ..RawProviderConfig::default()
            },
        ),
        (
            "provider.stream_idle_timeout_ms",
            RawProviderConfig {
                stream_idle_timeout_ms: Some(0),
                ..RawProviderConfig::default()
            },
        ),
        (
            "provider.timeout_ms",
            RawProviderConfig {
                timeout_ms: Some(0),
                ..RawProviderConfig::default()
            },
        ),
    ] {
        assert_eq!(
            refused(Config::from_raw(provider(raw))),
            format!("{field} must be positive")
        );
    }
}

#[test]
fn openrouter_defaults_to_openrouter_endpoint_and_key() {
    let raw = RawConfig {
        provider: Some(RawProviderConfig {
            kind: Some(ProviderKind::OpenRouter),
            model: None,
            api_key_env: None,
            base_url: None,
            connect_timeout_ms: None,
            stream_idle_timeout_ms: None,
            timeout_ms: None,
            http_referer: None,
            app_title: None,
        }),
        limits: None,
        tools: None,
        ..empty()
    };

    let config = Config::from_raw(raw).unwrap();

    assert_eq!(config.provider.model, "~openai/gpt-latest");
    assert_eq!(config.provider.api_key_env, "OPENROUTER_API_KEY");
    assert_eq!(config.provider.base_url, "https://openrouter.ai/api/v1");
}

fn places() -> ConfigPlaces {
    ConfigPlaces {
        workspace_root: "/work".to_string(),
        explicit_path: None,
        env_path: None,
        home: Some("/home/user".to_string()),
        workspace_file_exists: false,
        user_file_exists: false,
    }
}

#[test]
fn explicit_config_path_wins_resolution() {
    let mut places = places();
    places.explicit_path = Some("/work/explicit.toml".to_string());
    places.env_path = Some("env.toml".to_string());
    places.workspace_file_exists = true;
    assert_eq!(
        resolve_config_path(&places),
        Ok(Some("/work/explicit.toml".to_string()))
    );
}

#[test]
fn plato_config_env_is_second_resolution_step() {
    let mut places = places();
    places.env_path = Some("/work/env.toml".to_string());
    places.workspace_file_exists = true;
    assert_eq!(
        resolve_config_path(&places),
        Ok(Some("/work/env.toml".to_string()))
    );
}

#[test]
fn workspace_plato_toml_is_third_resolution_step() {
    let mut places = places();
    places.workspace_file_exists = true;
    places.user_file_exists = true;
    assert_eq!(
        resolve_config_path(&places),
        Ok(Some("/work/plato.toml".to_string()))
    );
    assert!(matches!(
        resolve_config(&places),
        Ok(Some(ResolvedConfigPath::Workspace(_)))
    ));
}

#[test]
fn user_config_is_fourth_resolution_step() {
    let mut places = places();
    places.user_file_exists = true;
    assert_eq!(
        resolve_config_path(&places),
        Ok(Some("/home/user/.config/plato/config.toml".to_string()))
    );
    assert_eq!(
        user_config_path(&places.home).as_deref(),
        Some("/home/user/.config/plato/config.toml")
    );
}

#[test]
fn missing_config_paths_resolve_to_built_in_defaults() {
    assert_eq!(resolve_config_path(&places()), Ok(None));
    let config = Config::load(&places(), |_: &str| panic!("nothing to read")).unwrap();
    assert_eq!(config.limits.max_turns, 8);
}

#[test]
fn expands_leading_tilde_for_explicit_config_paths() {
    let mut places = places();
    places.explicit_path = Some("~/plato.toml".to_string());
    assert_eq!(
        resolve_config_path(&places),
        Ok(Some("/home/user/plato.toml".to_string()))
    );
    places.home = None;
    assert_eq!(
        resolve_config_path(&places),
        Err(AppError::Config(
            "user home is required for ~ expansion".to_string()
        ))
    );
    assert_eq!(leading_tilde_rest("~/a/b").as_deref(), Some("a/b"));
    assert_eq!(leading_tilde_rest("~a"), None);
    assert_eq!(
        expand_leading_tilde("~".to_string(), &Some("/h".to_string())),
        Ok("/h".to_string())
    );
}

#[test]
fn relative_explicit_config_paths_resolve_against_workspace_root() {
    let mut places = places();
    places.explicit_path = Some("config/plato.toml".to_string());
    assert_eq!(
        resolve_config_path(&places),
        Ok(Some("/work/config/plato.toml".to_string()))
    );
}

#[test]
fn loading_reads_the_file_that_counts() {
    let mut places = places();
    places.workspace_file_exists = true;
    let config = Config::load(&places, |path: &str| {
        assert_eq!(path, "/work/plato.toml");
        Ok(limits(None, None, Some(5)))
    })
    .unwrap();
    assert_eq!(config.limits.max_turns, 5);
    let error = Config::load(&places, |_: &str| {
        Err(AppError::Toml("broken".to_string()))
    })
    .unwrap_err();
    assert_eq!(error, AppError::Toml("broken".to_string()));
    let error = Config::load(&places, |_: &str| Ok(discord(&[("200", "c")]))).unwrap_err();
    assert_eq!(error, AppError::Config(WORKSPACE_GATEWAY_ERROR.to_string()));
}

#[test]
fn tools_have_their_effects() {
    for (tool, effect) in [
        ("file.read", EffectClass::ReadOnly),
        ("file.list", EffectClass::ReadOnly),
        ("file.write", EffectClass::WorkspaceWrite),
        ("file.edit", EffectClass::WorkspaceWrite),
        ("shell.exec", EffectClass::ExternalSideEffect),
        ("web.fetch", EffectClass::Network),
    ] {
        assert_eq!(effect_for_tool(tool), effect);
        assert!(is_known_tool(tool));
    }
    assert!(!is_known_tool("shell.delete"));
    assert_eq!(default_enabled_tools().len(), 6);
}

#[test]
fn only_leave_opens_the_http_gateway_beyond_this_machine() {
    let listener = |allow_non_loopback: bool| HttpGatewayConfig {
        bind: "0.0.0.0:8080".to_string(),
        allow_non_loopback,
    };
    assert!(!listener(false).may_listen(false, false));
    assert!(listener(true).may_listen(false, false));
    assert!(listener(false).may_listen(false, true));
    assert!(listener(true).may_listen(false, true));
    assert!(listener(false).may_listen(true, false));
}
