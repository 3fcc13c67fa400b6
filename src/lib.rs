//! Expands a compact proxy subscription description into a complete
//! proxy client configuration, and checks every cross-reference in it.
use vstd::prelude::*;

pub mod app_config;
pub mod auth;
pub mod config;
pub mod error;
pub mod generate;
pub mod log_level;
pub mod name_map;
pub mod proxy;
pub mod proxy_group;
pub mod proxy_group_generator;
pub mod proxy_provider;
pub mod rule;
pub mod rule_provider;
pub mod run_mode;
pub mod text;
pub mod validate;

pub use app_config::{
    default_true, get_default_region_templates, AppConfig, AuthConfig, DefaultConfig,
    ProviderConfig, RegionGroupConfig, RegionTemplate, RuleCfg, RuleSetCfg, RuleSingleCfg,
};
pub use auth::{validate_token, AuthFailure};
pub use config::Config;
pub use error::ConfigError;
pub use generate::{
    apply_default_config, generate_clash_config, generate_proxy_providers,
    generate_rules_and_providers, DEFAULT_HEALTH_CHECK_INTERVAL, DEFAULT_HEALTH_CHECK_URL,
    DEFAULT_RULE_UPDATE_INTERVAL, DEFAULT_UPDATE_INTERVAL,
};
pub use log_level::LogLevel;
pub use name_map::NameMap;
pub use proxy::{IpVersion, ProxyCommon};
pub use proxy_group::{
    FallbackGroup, LoadBalanceGroup, ProxyGroup, ProxyGroupCommon, RelayGroup, SelectGroup,
    Strategy, UrlTestGroup,
};
pub use proxy_group_generator::ProxyGroupTemplateGenerator;
pub use proxy_provider::{
    FileProxyProvider, HealthCheck, HttpProxyProvider, ProxyName, ProxyProvider,
    ProxyProviderCommon,
};
pub use rule::{Rule, RuleTag};
pub use rule_provider::{
    FileRuleProvider, HttpRuleProvider, InlineRuleProvider, ProviderFormat, RuleProvider,
    RuleProviderCommon, RuleSetBehavior,
};
pub use run_mode::RunMode;
pub use validate::{
    generate_clash_config_with_validation, get_all_available_groups, get_available_region_groups,
    is_region_group_target, is_valid_url, validate_app_config, validate_generated_config,
    validate_rule_set_config, validate_rule_target, get_rule_set_update_interval,
};

verus! {

/// Generation depends on the description alone: two descriptions with the
/// same content give the same document, and the same outcome when checked.
/// Together with the contracts of `generate_clash_config` and
/// `generate_clash_config_with_validation`, which pin their results to
/// these functions, every call on the same description yields the same
/// document, character for character.
pub proof fn lemma_generation_deterministic(
    a: app_config::AppConfigView,
    b: app_config::AppConfigView,
)
    requires
        a == b,
    ensures
        generate::assemble(a) == generate::assemble(b),
        validate::validated(a) == validate::validated(b),
{
}

} // verus!
