use sub_util::{
    generate_clash_config, generate_clash_config_with_validation, generate_rules_and_providers,
    get_all_available_groups, validate_app_config, validate_generated_config,
    validate_rule_target, AppConfig, Config, ConfigError, HealthCheck, HttpProxyProvider, NameMap,
    ProxyGroup, ProxyGroupCommon, ProxyProvider, ProxyProviderCommon, RegionGroupConfig,
    RegionTemplate, Rule, RuleCfg, RuleProvider, RuleSetBehavior, RuleSetCfg, RuleSingleCfg,
    RuleTag, SelectGroup, UrlTestGroup,
};

fn single(tag: RuleTag, value: &str, target: &str) -> RuleCfg {
    RuleCfg::Single(RuleSingleCfg { tag, value: value.to_string(), target: target.to_string() })
}

fn rule_set(name: &str, url: &str, target: &str, interval: Option<u64>) -> RuleCfg {
    RuleCfg::RuleSet(RuleSetCfg {
        name: name.to_string(),
        url: url.to_string(),
        behavior: RuleSetBehavior::Ipcidr,
        target: target.to_string(),
        interval,
    })
}

fn common(name: &str, url: Option<&str>) -> ProxyGroupCommon {
    ProxyGroupCommon {
        name: name.to_string(),
        proxies: None,
        use_provider: None,
        url: url.map(|u| u.to_string()),
        interval: None,
        lazy: None,
        timeout: None,
        max_failed_times: None,
        disable_udp: None,
        icon: None,
        filter: None,
    }
}

fn one_subscription(name: &str, url: &str) -> AppConfig {
    let mut proxies = NameMap::new();
    proxies.insert(name.to_string(), url.to_string());
    AppConfig { proxies, ..Default::default() }
}

fn sample_input() -> AppConfig {
    let mut input = one_subscription("alpha", "https://x.test/sub");
    input.proxies.insert("beta".to_string(), "http://y.test/sub".to_string());
    input.region_groups = Some(RegionGroupConfig::default());
    input.rules = vec![
        single(RuleTag::DomainSuffix, "google.com", "HK"),
        rule_set("ads", "https://r.test/ads.yaml", "REJECT", None),
        single(RuleTag::Match, "", "DIRECT"),
    ];
    input
}

#[test]
fn round_trip_single_match_rule() {
    let mut input = one_subscription("p1", "https://x.test/sub");
    input.rules = vec![single(RuleTag::Match, "", "DIRECT")];

    let config = generate_clash_config_with_validation(input).unwrap();
    let providers = config.proxy_providers.unwrap();
    assert_eq!(providers.len(), 1);
    match providers.get("p1").unwrap() {
        ProxyProvider::Http(p) => {
            assert_eq!(p.common.interval, Some(3600));
            assert_eq!(p.common.health_check.as_ref().unwrap().interval, 300);
        }
        _ => panic!("Expected HTTP provider"),
    }
    let rules = config.rules.unwrap();
    assert_eq!(rules.len(), 1);
    assert_eq!(rules[0].to_line(), "MATCH,DIRECT");
    assert_eq!(config.proxy_groups.unwrap().len(), 0);
}

#[test]
fn region_expansion_with_builtin_templates() {
    let mut input = one_subscription("alpha", "https://x.test/sub");
    input.region_groups = Some(RegionGroupConfig {
        enabled: true,
        regions: vec![],
        create_auto_groups: true,
        global_filter: None,
    });
    let config = generate_clash_config_with_validation(input).unwrap();
    let groups = config.proxy_groups.unwrap();
    assert_eq!(groups.len(), 12);
    let hk = groups
        .iter()
        .find(|g| matches!(g, ProxyGroup::Select(s) if s.common.name == "HK"))
        .unwrap();
    assert_eq!(hk.common().proxies, Some(vec!["HK-Auto".to_string()]));
    assert_eq!(hk.common().use_provider, Some(vec!["alpha".to_string()]));
}

#[test]
fn invalid_subscription_url_is_rejected() {
    let input = one_subscription("bad", "ftp://x");
    match generate_clash_config_with_validation(input) {
        Err(ConfigError::InvalidSubscriptionUrl(detail)) => assert_eq!(detail, "bad: ftp://x"),
        other => panic!("Expected InvalidSubscriptionUrl error, got {:?}", other),
    }
}

#[test]
fn generation_is_deterministic() {
    let first = format!("{:?}", generate_clash_config(sample_input()));
    let second = format!("{:?}", generate_clash_config(sample_input()));
    assert_eq!(first, second);
    let checked_first = format!("{:?}", generate_clash_config_with_validation(sample_input()));
    let checked_second = format!("{:?}", generate_clash_config_with_validation(sample_input()));
    assert_eq!(checked_first, checked_second);
}

#[test]
fn rules_keep_declaration_order() {
    let decls = vec![
        single(RuleTag::Domain, "a.com", "DIRECT"),
        rule_set("s1", "https://r.test/s1.yaml", "Proxies", None),
        single(RuleTag::GeoIp, "CN", "DIRECT"),
        rule_set("s2", "https://r.test/s2.yaml", "REJECT", Some(120)),
        single(RuleTag::Match, "", "Proxies"),
    ];
    let (providers, rules) = generate_rules_and_providers(&decls);
    assert_eq!(rules.len(), 5);
    let tags: Vec<RuleTag> = rules.iter().map(|r| r.tag).collect();
    assert_eq!(
        tags,
        vec![RuleTag::Domain, RuleTag::RuleSet, RuleTag::GeoIp, RuleTag::RuleSet, RuleTag::Match]
    );
    let targets: Vec<&str> = rules.iter().map(|r| r.target.as_str()).collect();
    assert_eq!(targets, vec!["DIRECT", "Proxies", "DIRECT", "REJECT", "Proxies"]);
    assert_eq!(rules[1].value, "s1");
    assert_eq!(providers.keys(), vec!["s1".to_string(), "s2".to_string()]);
    match providers.get("s1").unwrap() {
        RuleProvider::Http(p) => assert_eq!(p.common.interval, Some(86400)),
        _ => panic!("Expected HTTP rule provider"),
    }
    match providers.get("s2").unwrap() {
        RuleProvider::Http(p) => assert_eq!(p.common.interval, Some(120)),
        _ => panic!("Expected HTTP rule provider"),
    }
}

#[test]
fn duplicate_rule_set_names_overwrite() {
    let decls = vec![
        rule_set("dup", "https://r.test/first.yaml", "DIRECT", None),
        rule_set("dup", "https://r.test/second.yaml", "REJECT", None),
    ];
    let (providers, rules) = generate_rules_and_providers(&decls);
    assert_eq!(providers.len(), 1);
    assert_eq!(rules.len(), 2);
    match providers.get("dup").unwrap() {
        RuleProvider::Http(p) => assert_eq!(p.url, "https://r.test/second.yaml"),
        _ => panic!("Expected HTTP rule provider"),
    }
}

#[test]
fn builtin_targets_valid_with_no_groups() {
    let none: Vec<String> = vec![];
    assert!(validate_rule_target("DIRECT", &none).is_ok());
    assert!(validate_rule_target("REJECT", &none).is_ok());
}

#[test]
fn unknown_target_lists_available_groups() {
    let available = vec!["Proxies".to_string(), "HK".to_string()];
    match validate_rule_target("Nowhere", &available) {
        Err(ConfigError::RuleProcessingFailed(m)) => assert_eq!(
            m,
            "Rule target 'Nowhere' is not a valid proxy group. Available groups: Proxies, HK"
        ),
        other => panic!("Expected RuleProcessingFailed error, got {:?}", other),
    }
    assert!(validate_rule_target("HK", &available).is_ok());
}

#[test]
fn available_groups_in_order() {
    let mut input = sample_input();
    input.groups = vec![ProxyGroup::Select(SelectGroup { common: common("Proxies", None) })];
    input.region_groups = Some(RegionGroupConfig {
        enabled: true,
        regions: vec![RegionTemplate {
            name: "SG".to_string(),
            display_name: None,
            filter: "(sg)".to_string(),
            icon: None,
        }],
        create_auto_groups: true,
        global_filter: None,
    });
    assert_eq!(
        get_all_available_groups(&input),
        vec!["Proxies", "SG", "SG-Auto", "DIRECT", "REJECT"]
    );
}

#[test]
fn empty_rule_target_is_rejected() {
    let mut input = one_subscription("alpha", "https://x.test/sub");
    input.rules = vec![single(RuleTag::Domain, "a.com", "")];
    match validate_app_config(&input) {
        Err(ConfigError::RuleProcessingFailed(m)) => assert_eq!(m, "Rule target cannot be empty"),
        other => panic!("Expected RuleProcessingFailed error, got {:?}", other),
    }
}

#[test]
fn invalid_rule_set_url_is_rejected() {
    let mut input = one_subscription("alpha", "https://x.test/sub");
    input.rules = vec![rule_set("s", "file:///rules.yaml", "DIRECT", None)];
    match validate_app_config(&input) {
        Err(ConfigError::RuleProcessingFailed(m)) => {
            assert_eq!(m, "Invalid rule set URL: file:///rules.yaml")
        }
        other => panic!("Expected RuleProcessingFailed error, got {:?}", other),
    }
}

#[test]
fn invalid_region_filter_is_rejected() {
    let mut input = one_subscription("alpha", "https://x.test/sub");
    input.region_groups = Some(RegionGroupConfig {
        enabled: true,
        regions: vec![RegionTemplate {
            name: "XX".to_string(),
            display_name: None,
            filter: "xx".to_string(),
            icon: None,
        }],
        create_auto_groups: false,
        global_filter: None,
    });
    match validate_app_config(&input) {
        Err(ConfigError::ProxyGroupGenerationFailed(m)) => assert_eq!(
            m,
            "Invalid filter for region XX: Filter should contain parentheses for grouping"
        ),
        other => panic!("Expected ProxyGroupGenerationFailed error, got {:?}", other),
    }
}

#[test]
fn first_failure_wins() {
    let mut input = one_subscription("bad", "ftp://x");
    input.rules = vec![single(RuleTag::Domain, "a.com", "")];
    assert!(matches!(validate_app_config(&input), Err(ConfigError::InvalidSubscriptionUrl(_))));
}

#[test]
fn generated_document_checks() {
    let mut config = Config::default();
    assert!(validate_generated_config(&config).is_ok());

    config.proxy_groups = Some(vec![ProxyGroup::Select(SelectGroup { common: common("", None) })]);
    match validate_generated_config(&config) {
        Err(ConfigError::ConfigValidationFailed(m)) => {
            assert_eq!(m, "Proxy group name cannot be empty")
        }
        other => panic!("Expected ConfigValidationFailed error, got {:?}", other),
    }

    config.proxy_groups = Some(vec![ProxyGroup::UrlTest(UrlTestGroup {
        common: common("Auto", None),
        tolerance: None,
    })]);
    match validate_generated_config(&config) {
        Err(ConfigError::ConfigValidationFailed(m)) => {
            assert_eq!(m, "URL test group Auto must have a test URL")
        }
        other => panic!("Expected ConfigValidationFailed error, got {:?}", other),
    }

    config.proxy_groups = None;
    let mut providers = NameMap::new();
    providers.insert(
        "p".to_string(),
        ProxyProvider::Http(HttpProxyProvider {
            url: "gopher://p".to_string(),
            path: None,
            proxy: None,
            size_limit: None,
            header: None,
            common: ProxyProviderCommon {
                interval: None,
                health_check: Some(HealthCheck {
                    enable: true,
                    url: "http://h".to_string(),
                    interval: 60,
                    lazy: None,
                }),
                filter: None,
                exclude_filter: None,
                exclude_type: None,
            },
        }),
    );
    config.proxy_providers = Some(providers);
    match validate_generated_config(&config) {
        Err(ConfigError::ConfigValidationFailed(m)) => {
            assert_eq!(m, "Invalid provider URL for p: gopher://p")
        }
        other => panic!("Expected ConfigValidationFailed error, got {:?}", other),
    }
}

#[test]
fn rule_lines() {
    let rule = |tag: RuleTag, value: &str, target: &str| Rule {
        tag,
        value: value.to_string(),
        target: target.to_string(),
    };
    assert_eq!(rule(RuleTag::Domain, "example.com", "DIRECT").to_line(), "DOMAIN,example.com,DIRECT");
    assert_eq!(
        rule(RuleTag::DomainSuffix, "google.com", "Proxies").to_line(),
        "DOMAIN-SUFFIX,google.com,Proxies"
    );
    assert_eq!(rule(RuleTag::IpCIDR, "192.168.1.0/24", "DIRECT").to_line(), "IP-CIDR,192.168.1.0/24,DIRECT");
    assert_eq!(rule(RuleTag::GeoIp, "CN", "DIRECT").to_line(), "GEOIP,CN,DIRECT");
    assert_eq!(rule(RuleTag::RuleSet, "test-rule-set", "Proxies").to_line(), "RULE-SET,test-rule-set,Proxies");
    assert_eq!(rule(RuleTag::Match, "ignored", "Proxies").to_line(), "MATCH,Proxies");
    assert_eq!(rule(RuleTag::IpCIDR6, "::1/128", "REJECT").to_line(), "IP-CIDR6,::1/128,REJECT");
    assert_eq!(rule(RuleTag::IpAsn, "13335", "DIRECT").to_line(), "IP-ASN,13335,DIRECT");
    assert_eq!(rule(RuleTag::DomainRegex, "^a$", "DIRECT").to_line(), "DOMAIN-REGEX,^a$,DIRECT");
    assert_eq!(rule(RuleTag::DomainKeyword, "ads", "REJECT").to_line(), "DOMAIN-KEYWORD,ads,REJECT");
}

#[test]
fn error_messages() {
    let cases = [
        (ConfigError::InvalidSubscriptionUrl("a: b".to_string()), "Invalid subscription URL: a: b"),
        (ConfigError::ProxyGroupGenerationFailed("x".to_string()), "Proxy group generation failed: x"),
        (ConfigError::RuleProcessingFailed("y".to_string()), "Rule processing failed: y"),
        (ConfigError::ConfigValidationFailed("z".to_string()), "Config validation failed: z"),
    ];
    for (e, m) in cases {
        assert_eq!(e.message(), m);
    }
}

#[test]
fn provider_overrides_cascade() {
    let mut input = one_subscription("sub", "https://s.test");
    input.provider_config = Some(sub_util::ProviderConfig {
        health_check_url: None,
        health_check_interval: Some(120),
        update_interval: None,
        lazy: Some(true),
    });
    let config = generate_clash_config(input);
    let providers = config.proxy_providers.unwrap();
    match providers.get("sub").unwrap() {
        ProxyProvider::Http(p) => {
            assert_eq!(p.path, Some("./proxies/sub.yaml".to_string()));
            assert_eq!(p.common.interval, Some(3600));
            let hc = p.common.health_check.as_ref().unwrap();
            assert!(hc.enable);
            assert_eq!(hc.url, "http://www.gstatic.com/generate_204");
            assert_eq!(hc.interval, 120);
            assert_eq!(hc.lazy, Some(true));
        }
        _ => panic!("Expected HTTP provider"),
    }
}

#[test]
fn name_map_insert_replaces_in_place() {
    let mut m = NameMap::new();
    assert!(m.is_empty());
    m.insert("a".to_string(), "1".to_string());
    m.insert("b".to_string(), "2".to_string());
    m.insert("a".to_string(), "3".to_string());
    assert_eq!(m.len(), 2);
    assert_eq!(m.keys(), vec!["a".to_string(), "b".to_string()]);
    assert_eq!(m.get("a"), Some(&"3".to_string()));
    assert_eq!(m.get("c"), None);
    assert!(!m.contains_key("c"));
    assert_eq!(m.key_at(1), "b");
    assert_eq!(m.value_at(0), "3");
}

#[test]
fn error_kinds() {
    let e = ConfigError::InvalidSubscriptionUrl(String::new());
    assert_eq!(e.kind(), "invalid_subscription_url");
    assert!(!e.is_server_fault());
    let e = ConfigError::ProxyGroupGenerationFailed(String::new());
    assert_eq!(e.kind(), "proxy_group_generation_failed");
    assert!(e.is_server_fault());
    let e = ConfigError::RuleProcessingFailed(String::new());
    assert_eq!(e.kind(), "rule_processing_failed");
    assert!(!e.is_server_fault());
    let e = ConfigError::ConfigValidationFailed(String::new());
    assert_eq!(e.kind(), "config_validation_failed");
    assert!(!e.is_server_fault());
}

#[test]
fn rule_lines_read_back() {
    let parsed = Rule::parse_line("DOMAIN-SUFFIX,google.com,Proxies").unwrap();
    assert_eq!(parsed.tag, RuleTag::DomainSuffix);
    assert_eq!(parsed.value, "google.com");
    assert_eq!(parsed.target, "Proxies");

    let parsed = Rule::parse_line("MATCH,DIRECT").unwrap();
    assert_eq!(parsed.tag, RuleTag::Match);
    assert_eq!(parsed.value, "");
    assert_eq!(parsed.target, "DIRECT");

    let parsed = Rule::parse_line("GEOIP,CN,DIRECT,no-resolve").unwrap();
    assert_eq!(parsed.tag, RuleTag::GeoIp);
    assert_eq!(parsed.target, "DIRECT");

    assert!(Rule::parse_line("UNKNOWN,a,b").is_none());
    assert!(Rule::parse_line("DOMAIN,a").is_none());
    assert!(Rule::parse_line("MATCH").is_none());
    assert!(Rule::parse_line("").is_none());

    for line in ["IP-CIDR6,::1/128,REJECT", "RULE-SET,ads,REJECT", "IP-ASN,13335,DIRECT"] {
        assert_eq!(Rule::parse_line(line).unwrap().to_line(), line);
    }
    assert_eq!(RuleTag::from_keyword("DOMAIN-KEYWORD"), Some(RuleTag::DomainKeyword));
    assert_eq!(RuleTag::from_keyword("domain"), None);
}
