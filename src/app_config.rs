//! The user-facing subscription description that the generator expands.
use vstd::prelude::*;
use crate::log_level::LogLevel;
use crate::name_map::NameMap;
use crate::proxy_group::{ProxyGroup, ProxyGroupView};
use crate::rule::{Rule, RuleTag, RuleView};
use crate::rule_provider::RuleSetBehavior;
use crate::run_mode::RunMode;

verus! {

/// One rule declaration: a single rule, or a remote rule list.
#[derive(Clone, Debug)]
pub enum RuleCfg {
    Single(RuleSingleCfg),
    RuleSet(RuleSetCfg),
}

/// A rule declared directly.
#[derive(Clone, Debug)]
pub struct RuleSingleCfg {
    pub tag: RuleTag,
    pub value: String,
    pub target: String,
}

/// A remote rule list whose matches go to `target`.
#[derive(Clone, Debug)]
pub struct RuleSetCfg {
    pub name: String,
    pub url: String,
    pub behavior: RuleSetBehavior,
    pub target: String,
    pub interval: Option<u64>,
}

/// The whole subscription description.
#[derive(Debug)]
pub struct AppConfig {
    pub proxies: NameMap<String>,
    pub groups: Vec<ProxyGroup>,
    pub rules: Vec<RuleCfg>,
    pub region_groups: Option<RegionGroupConfig>,
    pub default_config: Option<DefaultConfig>,
    pub provider_config: Option<ProviderConfig>,
    pub auth: Option<AuthConfig>,
}

/// Which per-region groups to generate.
#[derive(Clone, Debug)]
pub struct RegionGroupConfig {
    pub enabled: bool,
    pub regions: Vec<RegionTemplate>,
    pub create_auto_groups: bool,
    pub global_filter: Option<String>,
}

/// A geographic region: its group name, a label, the pattern that picks
/// its proxies by name, and an icon.
#[derive(Clone, Debug)]
pub struct RegionTemplate {
    pub name: String,
    pub display_name: Option<String>,
    pub filter: String,
    pub icon: Option<String>,
}

/// Scalar settings that override those of the generated document.
#[derive(Clone, Copy, Debug)]
pub struct DefaultConfig {
    pub port: Option<u16>,
    pub socks_port: Option<u16>,
    pub mixed_port: Option<u16>,
    pub mode: Option<RunMode>,
    pub log_level: Option<LogLevel>,
    pub allow_lan: Option<bool>,
}

/// Settings that override the defaults of every generated proxy provider.
#[derive(Clone, Debug)]
pub struct ProviderConfig {
    pub health_check_url: Option<String>,
    pub health_check_interval: Option<u64>,
    pub update_interval: Option<u64>,
    pub lazy: Option<bool>,
}

/// Access control for the service that hands out the document.
#[derive(Clone, Debug)]
pub struct AuthConfig {
    pub enabled: bool,
    pub token: Option<String>,
}

/// A rule list declaration with its texts as character sequences.
pub struct RuleSetView {
    pub name: Seq<char>,
    pub url: Seq<char>,
    pub behavior: RuleSetBehavior,
    pub target: Seq<char>,
    pub interval: Option<u64>,
}

/// A rule declaration with its texts as character sequences.
pub enum RuleCfgView {
    Single(RuleView),
    RuleSet(RuleSetView),
}

/// A region with its texts as character sequences.
pub struct RegionTemplateView {
    pub name: Seq<char>,
    pub display_name: Option<Seq<char>>,
    pub filter: Seq<char>,
    pub icon: Option<Seq<char>>,
}

/// Region group settings with texts as character sequences.
pub struct RegionGroupView {
    pub enabled: bool,
    pub regions: Seq<RegionTemplateView>,
    pub create_auto_groups: bool,
    pub global_filter: Option<Seq<char>>,
}

/// Provider overrides with texts as character sequences.
pub struct ProviderConfigView {
    pub health_check_url: Option<Seq<char>>,
    pub health_check_interval: Option<u64>,
    pub update_interval: Option<u64>,
    pub lazy: Option<bool>,
}

/// Access control settings with texts as character sequences.
pub struct AuthConfigView {
    pub enabled: bool,
    pub token: Option<Seq<char>>,
}

/// A subscription description with its texts as character sequences.
pub struct AppConfigView {
    pub proxies: Seq<(Seq<char>, Seq<char>)>,
    pub groups: Seq<ProxyGroupView>,
    pub rules: Seq<RuleCfgView>,
    pub region_groups: Option<RegionGroupView>,
    pub default_config: Option<DefaultConfig>,
    pub provider_config: Option<ProviderConfigView>,
    pub auth: Option<AuthConfigView>,
}

impl DeepView for RuleSingleCfg {
    type V = RuleView;

    open spec fn deep_view(&self) -> RuleView {
        RuleView { tag: self.tag, value: self.value@, target: self.target@ }
    }
}

impl DeepView for RuleSetCfg {
    type V = RuleSetView;

    open spec fn deep_view(&self) -> RuleSetView {
        RuleSetView {
            name: self.name@,
            url: self.url@,
            behavior: self.behavior,
            target: self.target@,
            interval: self.interval,
        }
    }
}

impl DeepView for RuleCfg {
    type V = RuleCfgView;

    open spec fn deep_view(&self) -> RuleCfgView {
        match self {
            RuleCfg::Single(r) => RuleCfgView::Single(r.deep_view()),
            RuleCfg::RuleSet(r) => RuleCfgView::RuleSet(r.deep_view()),
        }
    }
}

impl DeepView for RegionTemplate {
    type V = RegionTemplateView;

    open spec fn deep_view(&self) -> RegionTemplateView {
        RegionTemplateView {
            name: self.name@,
            display_name: self.display_name.deep_view(),
            filter: self.filter@,
            icon: self.icon.deep_view(),
        }
    }
}

impl DeepView for RegionGroupConfig {
    type V = RegionGroupView;

    open spec fn deep_view(&self) -> RegionGroupView {
        RegionGroupView {
            enabled: self.enabled,
            regions: self.regions.deep_view(),
            create_auto_groups: self.create_auto_groups,
            global_filter: self.global_filter.deep_view(),
        }
    }
}

impl DeepView for DefaultConfig {
    type V = DefaultConfig;

    open spec fn deep_view(&self) -> DefaultConfig {
        *self
    }
}

impl DeepView for ProviderConfig {
    type V = ProviderConfigView;

    open spec fn deep_view(&self) -> ProviderConfigView {
        ProviderConfigView {
            health_check_url: self.health_check_url.deep_view(),
            health_check_interval: self.health_check_interval,
            update_interval: self.update_interval,
            lazy: self.lazy,
        }
    }
}

impl DeepView for AuthConfig {
    type V = AuthConfigView;

    open spec fn deep_view(&self) -> AuthConfigView {
        AuthConfigView { enabled: self.enabled, token: self.token.deep_view() }
    }
}

impl DeepView for AppConfig {
    type V = AppConfigView;

    open spec fn deep_view(&self) -> AppConfigView {
        AppConfigView {
            proxies: self.proxies.deep_view(),
            groups: self.groups.deep_view(),
            rules: self.rules.deep_view(),
            region_groups: self.region_groups.deep_view(),
            default_config: self.default_config,
            provider_config: self.provider_config.deep_view(),
            auth: self.auth.deep_view(),
        }
    }
}

impl From<RuleSingleCfg> for Rule {
    /// The rule that a single rule declaration stands for.
    fn from(cfg: RuleSingleCfg) -> (r: Rule) {
        Rule { tag: cfg.tag, value: cfg.value, target: cfg.target }
    }
}

impl vstd::std_specs::convert::FromSpecImpl<RuleSingleCfg> for Rule {
    open spec fn obeys_from_spec() -> bool {
        true
    }

    open spec fn from_spec(cfg: RuleSingleCfg) -> Rule {
        Rule { tag: cfg.tag, value: cfg.value, target: cfg.target }
    }
}

/// The value of a switch that the description leaves out.
pub fn default_true() -> (r: bool)
    ensures
        r,
{
    true
}

/// A region with the given texts.
pub open spec fn region(
    name: Seq<char>,
    display_name: Seq<char>,
    filter: Seq<char>,
    icon: Seq<char>,
) -> RegionTemplateView {
    RegionTemplateView { name, display_name: Some(display_name), filter, icon: Some(icon) }
}

/// The built-in regions: Hong Kong, the United States, Japan, Singapore,
/// Taiwan and Korea, in that order.
pub open spec fn default_templates() -> Seq<RegionTemplateView> {
    seq![
        region("HK"@, "香港"@, "(?i)(hk|hong kong|香港|港)"@, "🇭🇰"@),
        region("US"@, "美国"@, "(?i)(us|usa|united states|美国|美)"@, "🇺🇸"@),
        region("JP"@, "日本"@, "(?i)(jp|japan|日本|日)"@, "🇯🇵"@),
        region("SG"@, "新加坡"@, "(?i)(sg|singapore|新加坡|新)"@, "🇸🇬"@),
        region("TW"@, "台湾"@, "(?i)(tw|taiwan|台湾|台)"@, "🇹🇼"@),
        region("KR"@, "韩国"@, "(?i)(kr|korea|韩国|韩)"@, "🇰🇷"@),
    ]
}

/// A region built from string literals.
fn make_region(name: &str, display_name: &str, filter: &str, icon: &str) -> (r: RegionTemplate)
    ensures
        r.deep_view() == region(name@, display_name@, filter@, icon@),
{
    RegionTemplate {
        name: String::from_str(name),
        display_name: Some(String::from_str(display_name)),
        filter: String::from_str(filter),
        icon: Some(String::from_str(icon)),
    }
}

/// The built-in regions, used when the description names none.
pub fn get_default_region_templates() -> (r: Vec<RegionTemplate>)
    ensures
        r.deep_view() == default_templates(),
{
    let mut r: Vec<RegionTemplate> = Vec::new();
    r.push(make_region("HK", "香港", "(?i)(hk|hong kong|香港|港)", "🇭🇰"));
    r.push(make_region("US", "美国", "(?i)(us|usa|united states|美国|美)", "🇺🇸"));
    r.push(make_region("JP", "日本", "(?i)(jp|japan|日本|日)", "🇯🇵"));
    r.push(make_region("SG", "新加坡", "(?i)(sg|singapore|新加坡|新)", "🇸🇬"));
    r.push(make_region("TW", "台湾", "(?i)(tw|taiwan|台湾|台)", "🇹🇼"));
    r.push(make_region("KR", "韩国", "(?i)(kr|korea|韩国|韩)", "🇰🇷"));
    assert(r.deep_view() =~= default_templates());
    r
}

impl Default for RegionGroupConfig {
    /// Region groups on, for the built-in regions, with automatic groups.
    fn default() -> (r: RegionGroupConfig)
        ensures
            r.deep_view() == (RegionGroupView {
                enabled: true,
                regions: default_templates(),
                create_auto_groups: true,
                global_filter: None,
            }),
    {
        RegionGroupConfig {
            enabled: true,
            regions: get_default_region_templates(),
            create_auto_groups: true,
            global_filter: None,
        }
    }
}

impl Default for AppConfig {
    /// A description with no subscription, group, rule or setting.
    fn default() -> (r: AppConfig)
        ensures
            r.deep_view() == (AppConfigView {
                proxies: Seq::empty(),
                groups: Seq::empty(),
                rules: Seq::empty(),
                region_groups: None,
                default_config: None,
                provider_config: None,
                auth: None,
            }),
    {
        let r = AppConfig {
            proxies: NameMap::new(),
            groups: Vec::new(),
            rules: Vec::new(),
            region_groups: None,
            default_config: None,
            provider_config: None,
            auth: None,
        };
        assert(r.groups.deep_view() =~= Seq::empty());
        assert(r.rules.deep_view() =~= Seq::empty());
        r
    }
}

} // verus!
