use sub_util::{default_true, get_default_region_templates, RegionGroupConfig, Rule, RuleSingleCfg, RuleTag};

#[test]
fn test_region_group_config_default() {
    let config = RegionGroupConfig::default();
    assert!(config.enabled);
    assert!(config.create_auto_groups);
    assert_eq!(config.regions.len(), 6);
    assert!(config.global_filter.is_none());
}

#[test]
fn test_get_default_region_templates() {
    let templates = get_default_region_templates();
    assert_eq!(templates.len(), 6);

    let hk_template = templates.iter().find(|t| t.name == "HK").unwrap();
    assert_eq!(hk_template.display_name, Some("香港".to_string()));
    assert_eq!(hk_template.filter, "(?i)(hk|hong kong|香港|港)");
    assert_eq!(hk_template.icon, Some("🇭🇰".to_string()));

    let us_template = templates.iter().find(|t| t.name == "US").unwrap();
    assert_eq!(us_template.display_name, Some("美国".to_string()));
    assert_eq!(us_template.filter, "(?i)(us|usa|united states|美国|美)");
    assert_eq!(us_template.icon, Some("🇺🇸".to_string()));
}

#[test]
fn test_rule_single_cfg_into_rule() {
    let rule_cfg = RuleSingleCfg {
        tag: RuleTag::DomainSuffix,
        value: "google.com".to_string(),
        target: "Proxies".to_string(),
    };

    let rule: Rule = rule_cfg.into();
    assert_eq!(rule.tag, RuleTag::DomainSuffix);
    assert_eq!(rule.value, "google.com");
    assert_eq!(rule.target, "Proxies");
}

#[test]
fn test_default_true() {
    assert_eq!(default_true(), true);
}

#[test]
fn default_templates_keep_their_order() {
    let names: Vec<String> = get_default_region_templates().into_iter().map(|t| t.name).collect();
    assert_eq!(names, vec!["HK", "US", "JP", "SG", "TW", "KR"]);
}
