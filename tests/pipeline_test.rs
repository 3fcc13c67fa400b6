use sub_util::{
    apply_default_config, generate_clash_config, generate_clash_config_with_validation,
    generate_proxy_providers, generate_rules_and_providers, get_available_region_groups,
    get_rule_set_update_interval, is_region_group_target, is_valid_url, validate_app_config,
    validate_rule_set_config, AppConfig, Config, ConfigError, DefaultConfig, LogLevel, NameMap,
    ProviderConfig, ProxyGroup, ProxyGroupCommon, ProxyProvider, RegionGroupConfig,
    RegionTemplate, RuleCfg, RuleProvider, RuleSetBehavior, RuleSetCfg, RuleSingleCfg, RuleTag,
    RunMode, SelectGroup, DEFAULT_HEALTH_CHECK_INTERVAL, DEFAULT_HEALTH_CHECK_URL,
    DEFAULT_RULE_UPDATE_INTERVAL, DEFAULT_UPDATE_INTERVAL,
};

fn create_test_app_config() -> AppConfig {
    let mut proxies = NameMap::new();
    proxies.insert("test-provider".to_string(), "https://example.com/clash".to_string());

    AppConfig {
        proxies,
        groups: vec![ProxyGroup::Select(SelectGroup {
            common: ProxyGroupCommon {
                name: "Proxies".to_string(),
                proxies: Some(vec!["Auto".to_string(), "DIRECT".to_string()]),
                use_provider: None,
                url: None,
                interval: None,
                lazy: None,
                timeout: None,
                max_failed_times: None,
                disable_udp: None,
                icon: None,
                filter: None,
            },
        })],
        rules: vec![
            RuleCfg::Single(RuleSingleCfg {
                tag: RuleTag::Domain,
                value: "example.com".to_string(),
                target: "DIRECT".to_string(),
            }),
            RuleCfg::RuleSet(RuleSetCfg {
                name: "test-rule-set".to_string(),
                url: "https://example.com/rules.yaml".to_string(),
                behavior: RuleSetBehavior::Domain,
                target: "Proxies".to_string(),
                interval: None,
            }),
        ],
        region_groups: Some(RegionGroupConfig {
            enabled: true,
            regions: vec![RegionTemplate {
                name: "HK".to_string(),
                display_name: Some("香港".to_string()),
                filter: "(?i)(hk|hong kong)".to_string(),
                icon: Some("🇭🇰".to_string()),
            }],
            create_auto_groups: true,
            global_filter: None,
        }),
        default_config: Some(DefaultConfig {
            port: Some(7890),
            socks_port: None,
            mixed_port: Some(7891),
            mode: Some(RunMode::Rule),
            log_level: Some(LogLevel::Info),
            allow_lan: Some(true),
        }),
        provider_config: Some(ProviderConfig {
            health_check_url: Some("http://test.com/generate_204".to_string()),
            health_check_interval: Some(600),
            update_interval: Some(7200),
            lazy: Some(false),
        }),
        auth: None,
    }
}

#[test]
fn test_generate_proxy_providers() {
    let mut proxies = NameMap::new();
    proxies.insert("test".to_string(), "https://example.com/clash".to_string());

    let provider_config = Some(ProviderConfig {
        health_check_url: Some("http://test.com".to_string()),
        health_check_interval: Some(600),
        update_interval: Some(7200),
        lazy: Some(false),
    });

    let providers = generate_proxy_providers(&proxies, &provider_config);

    assert_eq!(providers.len(), 1);
    assert!(providers.contains_key("test"));

    match providers.get("test").unwrap() {
        ProxyProvider::Http(http_provider) => {
            assert_eq!(http_provider.url, "https://example.com/clash");
            assert_eq!(http_provider.path, Some("./proxies/test.yaml".to_string()));
            assert_eq!(http_provider.common.interval, Some(7200));

            let health_check = http_provider.common.health_check.as_ref().unwrap();
            assert_eq!(health_check.url, "http://test.com");
            assert_eq!(health_check.interval, 600);
            assert_eq!(health_check.lazy, Some(false));
        }
        _ => panic!("Expected HTTP provider"),
    }
}

#[test]
fn test_generate_proxy_providers_with_defaults() {
    let mut proxies = NameMap::new();
    proxies.insert("test".to_string(), "https://example.com/clash".to_string());

    let providers = generate_proxy_providers(&proxies, &None);

    match providers.get("test").unwrap() {
        ProxyProvider::Http(http_provider) => {
            assert_eq!(http_provider.common.interval, Some(DEFAULT_UPDATE_INTERVAL));

            let health_check = http_provider.common.health_check.as_ref().unwrap();
            assert_eq!(health_check.url, DEFAULT_HEALTH_CHECK_URL);
            assert_eq!(health_check.interval, DEFAULT_HEALTH_CHECK_INTERVAL);
        }
        _ => panic!("Expected HTTP provider"),
    }
}

#[test]
fn test_apply_default_config() {
    let mut config = Config::default();
    let default_config = Some(DefaultConfig {
        port: Some(8080),
        socks_port: Some(1080),
        mixed_port: Some(7890),
        mode: Some(RunMode::Global),
        log_level: Some(LogLevel::Debug),
        allow_lan: Some(false),
    });

    apply_default_config(&mut config, &default_config);

    assert_eq!(config.port, Some(8080));
    assert_eq!(config.socks_port, Some(1080));
    assert_eq!(config.mixed_port, Some(7890));
    assert_eq!(config.mode, RunMode::Global);
    assert_eq!(config.log_level, LogLevel::Debug);
    assert_eq!(config.allow_lan, Some(false));
}

#[test]
fn test_generate_rules_and_providers() {
    let rules_config = vec![
        RuleCfg::Single(RuleSingleCfg {
            tag: RuleTag::Domain,
            value: "example.com".to_string(),
            target: "DIRECT".to_string(),
        }),
        RuleCfg::RuleSet(RuleSetCfg {
            name: "test-set".to_string(),
            url: "https://example.com/rules.yaml".to_string(),
            behavior: RuleSetBehavior::Classical,
            target: "Proxies".to_string(),
            interval: Some(3600),
        }),
    ];

    let (rule_providers, rules) = generate_rules_and_providers(&rules_config);

    assert_eq!(rule_providers.len(), 1);
    assert_eq!(rules.len(), 2);

    let provider = rule_providers.get("test-set").unwrap();
    match provider {
        RuleProvider::Http(http_provider) => {
            assert_eq!(http_provider.url, "https://example.com/rules.yaml");
            assert_eq!(http_provider.path, Some("./rules/test-set.yaml".to_string()));
            assert_eq!(http_provider.common.behavior, RuleSetBehavior::Classical);
            assert_eq!(http_provider.common.interval, Some(3600));
        }
        _ => panic!("Expected HTTP rule provider"),
    }

    assert_eq!(rules[0].tag, RuleTag::Domain);
    assert_eq!(rules[0].value, "example.com");
    assert_eq!(rules[0].target, "DIRECT");

    assert_eq!(rules[1].tag, RuleTag::RuleSet);
    assert_eq!(rules[1].value, "test-set");
    assert_eq!(rules[1].target, "Proxies");
}

#[test]
fn test_generate_clash_config() {
    let app_config = create_test_app_config();
    let config = generate_clash_config(app_config);

    assert_eq!(config.port, Some(7890));
    assert_eq!(config.mixed_port, Some(7891));
    assert_eq!(config.mode, RunMode::Rule);
    assert_eq!(config.log_level, LogLevel::Info);
    assert_eq!(config.allow_lan, Some(true));

    assert!(config.proxy_providers.is_some());
    let providers = config.proxy_providers.unwrap();
    assert_eq!(providers.len(), 1);
    assert!(providers.contains_key("test-provider"));

    assert!(config.proxy_groups.is_some());
    let groups = config.proxy_groups.unwrap();
    assert_eq!(groups.len(), 3);

    assert!(config.rule_providers.is_some());
    assert!(config.rules.is_some());
    let rule_providers = config.rule_providers.unwrap();
    let rules = config.rules.unwrap();
    assert_eq!(rule_providers.len(), 1);
    assert_eq!(rules.len(), 2);
}

#[test]
fn test_validate_app_config() {
    let app_config = create_test_app_config();
    assert!(validate_app_config(&app_config).is_ok());
}

#[test]
fn test_validate_app_config_invalid_url() {
    let mut app_config = create_test_app_config();
    app_config.proxies.insert("invalid".to_string(), "not-a-url".to_string());

    let result = validate_app_config(&app_config);
    assert!(result.is_err());
    match result.unwrap_err() {
        ConfigError::InvalidSubscriptionUrl(_) => {}
        _ => panic!("Expected InvalidSubscriptionUrl error"),
    }
}

#[test]
fn test_validate_app_config_invalid_rule_target() {
    let mut app_config = create_test_app_config();
    app_config.rules.push(RuleCfg::Single(RuleSingleCfg {
        tag: RuleTag::Domain,
        value: "test.com".to_string(),
        target: "NonExistentGroup".to_string(),
    }));

    let result = validate_app_config(&app_config);
    assert!(result.is_err());
    match result.unwrap_err() {
        ConfigError::RuleProcessingFailed(_) => {}
        _ => panic!("Expected RuleProcessingFailed error"),
    }
}

#[test]
fn test_generate_clash_config_with_validation() {
    let app_config = create_test_app_config();
    let result = generate_clash_config_with_validation(app_config);
    assert!(result.is_ok());
}

#[test]
fn test_is_valid_url() {
    assert!(is_valid_url("https://example.com"));
    assert!(is_valid_url("http://example.com"));
    assert!(!is_valid_url("ftp://example.com"));
    assert!(!is_valid_url("example.com"));
    assert!(!is_valid_url(""));
}

#[test]
fn test_get_available_region_groups() {
    let app_config = create_test_app_config();
    let region_groups = get_available_region_groups(&app_config);

    assert_eq!(region_groups.len(), 2);
    assert!(region_groups.contains(&"HK".to_string()));
    assert!(region_groups.contains(&"HK-Auto".to_string()));
}

#[test]
fn test_is_region_group_target() {
    let app_config = create_test_app_config();

    assert!(is_region_group_target("HK", &app_config));
    assert!(is_region_group_target("HK-Auto", &app_config));
    assert!(!is_region_group_target("US", &app_config));
    assert!(!is_region_group_target("Proxies", &app_config));
}

#[test]
fn test_validate_rule_set_config() {
    let valid_rule_set = RuleSetCfg {
        name: "test".to_string(),
        url: "https://example.com/rules.yaml".to_string(),
        behavior: RuleSetBehavior::Domain,
        target: "Proxies".to_string(),
        interval: Some(3600),
    };

    assert!(validate_rule_set_config(&valid_rule_set).is_ok());

    let invalid_url_rule_set = RuleSetCfg {
        name: "test".to_string(),
        url: "not-a-url".to_string(),
        behavior: RuleSetBehavior::Domain,
        target: "Proxies".to_string(),
        interval: None,
    };

    assert!(validate_rule_set_config(&invalid_url_rule_set).is_err());

    let empty_name_rule_set = RuleSetCfg {
        name: "".to_string(),
        url: "https://example.com/rules.yaml".to_string(),
        behavior: RuleSetBehavior::Domain,
        target: "Proxies".to_string(),
        interval: None,
    };

    assert!(validate_rule_set_config(&empty_name_rule_set).is_err());

    let invalid_interval_rule_set = RuleSetCfg {
        name: "test".to_string(),
        url: "https://example.com/rules.yaml".to_string(),
        behavior: RuleSetBehavior::Domain,
        target: "Proxies".to_string(),
        interval: Some(30),
    };

    assert!(validate_rule_set_config(&invalid_interval_rule_set).is_err());
}

#[test]
fn test_get_rule_set_update_interval() {
    let rule_set_with_interval = RuleSetCfg {
        name: "test".to_string(),
        url: "https://example.com/rules.yaml".to_string(),
        behavior: RuleSetBehavior::Domain,
        target: "Proxies".to_string(),
        interval: Some(3600),
    };

    assert_eq!(get_rule_set_update_interval(&rule_set_with_interval), 3600);

    let rule_set_without_interval = RuleSetCfg {
        name: "test".to_string(),
        url: "https://example.com/rules.yaml".to_string(),
        behavior: RuleSetBehavior::Domain,
        target: "Proxies".to_string(),
        interval: None,
    };

    assert_eq!(get_rule_set_update_interval(&rule_set_without_interval), DEFAULT_RULE_UPDATE_INTERVAL);
}
