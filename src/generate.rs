//! Synthesis of providers and rules, and assembly of the document.
use vstd::prelude::*;
use crate::app_config::{AppConfig, AppConfigView, DefaultConfig, ProviderConfig, ProviderConfigView, RuleCfg, RuleCfgView, RuleSetView};
use crate::config::{empty_config, Config, ConfigView};
use crate::name_map::{insert_entry, key_index, keys_of, lemma_key_index, NameMap};
use crate::proxy_group::{ProxyGroup, ProxyGroupView};
use crate::proxy_group_generator::{region_groups, ProxyGroupTemplateGenerator};
use crate::proxy_provider::{HealthCheck, HealthCheckView, HttpProxyProvider, ProviderCommonView, ProxyProvider, ProxyProviderCommon, ProxyProviderView};
use crate::rule::{Rule, RuleTag, RuleView};
use crate::rule_provider::{HttpRuleProvider, HttpRuleProviderView, RuleProvider, RuleProviderCommon, RuleProviderView};
use crate::text::{concat3, copy_opt};

verus! {

/// The address that generated providers probe when no other is set.
pub const DEFAULT_HEALTH_CHECK_URL: &'static str = "http://www.gstatic.com/generate_204";

/// Seconds between two health checks when no other interval is set.
pub const DEFAULT_HEALTH_CHECK_INTERVAL: u64 = 300;

/// Seconds between two refreshes of a proxy provider by default.
pub const DEFAULT_UPDATE_INTERVAL: u64 = 3600;

/// Seconds between two refreshes of a rule provider by default.
pub const DEFAULT_RULE_UPDATE_INTERVAL: u64 = 86400;

/// The value set, or the default when none is.
pub open spec fn value_or<T>(o: Option<T>, default: T) -> T {
    match o {
        Some(v) => v,
        None => default,
    }
}

/// The value set, or the default when none is.
pub fn or_default(o: Option<u64>, default: u64) -> (r: u64)
    ensures
        r == value_or(o, default),
{
    match o {
        Some(v) => v,
        None => default,
    }
}

/// A copy of the text set, or the default text when none is.
pub fn text_or_default(o: &Option<String>, default: &str) -> (r: String)
    ensures
        r@ == value_or(o.deep_view(), default@),
{
    match o {
        Some(v) => v.clone(),
        None => String::from_str(default),
    }
}

/// The health check address that the overrides set, else the default.
pub open spec fn health_check_url_of(pc: Option<ProviderConfigView>) -> Seq<char> {
    match pc {
        Some(c) => value_or(c.health_check_url, DEFAULT_HEALTH_CHECK_URL@),
        None => DEFAULT_HEALTH_CHECK_URL@,
    }
}

/// The health check interval that the overrides set, else the default.
pub open spec fn health_check_interval_of(pc: Option<ProviderConfigView>) -> u64 {
    match pc {
        Some(c) => value_or(c.health_check_interval, DEFAULT_HEALTH_CHECK_INTERVAL),
        None => DEFAULT_HEALTH_CHECK_INTERVAL,
    }
}

/// The refresh interval that the overrides set, else the default.
pub open spec fn update_interval_of(pc: Option<ProviderConfigView>) -> u64 {
    match pc {
        Some(c) => value_or(c.update_interval, DEFAULT_UPDATE_INTERVAL),
        None => DEFAULT_UPDATE_INTERVAL,
    }
}

/// The laziness that the overrides set, passed on as it is.
pub open spec fn lazy_of(pc: Option<ProviderConfigView>) -> Option<bool> {
    match pc {
        Some(c) => c.lazy,
        None => None,
    }
}

/// The provider generated for the subscription `name` at `url`.
pub open spec fn provider_spec(
    name: Seq<char>,
    url: Seq<char>,
    pc: Option<ProviderConfigView>,
) -> ProxyProviderView {
    ProxyProviderView::Http {
        url,
        path: Some("./proxies/"@ + name + ".yaml"@),
        proxy: None,
        size_limit: None,
        header: None,
        common: ProviderCommonView {
            interval: Some(update_interval_of(pc)),
            health_check: Some(
                HealthCheckView {
                    enable: true,
                    url: health_check_url_of(pc),
                    interval: health_check_interval_of(pc),
                    lazy: lazy_of(pc),
                },
            ),
            filter: None,
            exclude_filter: None,
            exclude_type: None,
        },
    }
}

/// One provider per subscription, under the subscription's name, in the
/// order of the subscriptions.
pub open spec fn providers_spec(
    proxies: Seq<(Seq<char>, Seq<char>)>,
    pc: Option<ProviderConfigView>,
) -> Seq<(Seq<char>, ProxyProviderView)> {
    proxies.map_values(|e: (Seq<char>, Seq<char>)| (e.0, provider_spec(e.0, e.1, pc)))
}

/// The rule that a declaration stands for: a single rule as declared, a
/// rule list as a `RULE-SET` rule on the list's name.
pub open spec fn rule_of(d: RuleCfgView) -> RuleView {
    match d {
        RuleCfgView::Single(r) => r,
        RuleCfgView::RuleSet(s) => RuleView { tag: RuleTag::RuleSet, value: s.name, target: s.target },
    }
}

/// The rules, one per declaration, in the order declared.
pub open spec fn rules_spec(decls: Seq<RuleCfgView>) -> Seq<RuleView> {
    decls.map_values(|d: RuleCfgView| rule_of(d))
}

/// The provider generated for a rule list declaration.
pub open spec fn rule_provider_spec(s: RuleSetView) -> RuleProviderView {
    RuleProviderView::Http(
        HttpRuleProviderView {
            url: s.url,
            path: Some("./rules/"@ + s.name + ".yaml"@),
            size_limit: None,
            proxy: None,
            header: None,
            common: RuleProviderCommon {
                format: None,
                interval: Some(value_or(s.interval, DEFAULT_RULE_UPDATE_INTERVAL)),
                behavior: s.behavior,
            },
        },
    )
}

/// The rule providers: one per rule list name, stored in declaration
/// order; a later list of the same name replaces the earlier one.
pub open spec fn rule_providers_spec(decls: Seq<RuleCfgView>) -> Seq<
    (Seq<char>, RuleProviderView),
>
    decreases decls.len(),
{
    if decls.len() == 0 {
        seq![]
    } else {
        let earlier = rule_providers_spec(decls.drop_last());
        match decls.last() {
            RuleCfgView::Single(_) => earlier,
            RuleCfgView::RuleSet(s) => insert_entry(earlier, s.name, rule_provider_spec(s)),
        }
    }
}

/// The document's scalar settings after the overrides that are set.
pub open spec fn apply_defaults_spec(c: ConfigView, d: Option<DefaultConfig>) -> ConfigView {
    match d {
        None => c,
        Some(d) => ConfigView {
            port: if d.port is Some { d.port } else { c.port },
            socks_port: if d.socks_port is Some { d.socks_port } else { c.socks_port },
            mixed_port: if d.mixed_port is Some { d.mixed_port } else { c.mixed_port },
            allow_lan: if d.allow_lan is Some { d.allow_lan } else { c.allow_lan },
            mode: value_or(d.mode, c.mode),
            log_level: value_or(d.log_level, c.log_level),
            ..c
        },
    }
}

/// The region groups of a description: none without region settings.
pub open spec fn generated_groups(a: AppConfigView) -> Seq<ProxyGroupView> {
    match a.region_groups {
        Some(rc) => region_groups(keys_of(a.proxies), rc),
        None => seq![],
    }
}

/// The document generated from a description, without any check.
pub open spec fn assemble(a: AppConfigView) -> ConfigView {
    let base = apply_defaults_spec(empty_config(), a.default_config);
    ConfigView {
        proxy_providers: Some(providers_spec(a.proxies, a.provider_config)),
        proxy_groups: Some(generated_groups(a) + a.groups),
        rule_providers: Some(rule_providers_spec(a.rules)),
        rules: Some(rules_spec(a.rules)),
        ..base
    }
}

/// The tag of the rule that a declaration stands for.
pub open spec fn declared_tag(d: RuleCfgView) -> RuleTag {
    match d {
        RuleCfgView::Single(r) => r.tag,
        RuleCfgView::RuleSet(_) => RuleTag::RuleSet,
    }
}

/// The target of a declaration.
pub open spec fn declared_target(d: RuleCfgView) -> Seq<char> {
    match d {
        RuleCfgView::Single(r) => r.target,
        RuleCfgView::RuleSet(s) => s.target,
    }
}

/// The value of the rule that a declaration stands for: the declared value,
/// or the list's name for a rule list.
pub open spec fn declared_value(d: RuleCfgView) -> Seq<char> {
    match d {
        RuleCfgView::Single(r) => r.value,
        RuleCfgView::RuleSet(s) => s.name,
    }
}

/// Rules keep the declarations' order: as many rules as declarations, and
/// at each position the declaration's tag (`RuleSet` for a rule list),
/// value (the list's name for a rule list) and target.
pub proof fn lemma_rule_order(decls: Seq<RuleCfgView>)
    ensures
        rules_spec(decls).len() == decls.len(),
        forall|i: int|
            0 <= i < decls.len() ==> #[trigger] rules_spec(decls)[i].tag == declared_tag(decls[i])
                && rules_spec(decls)[i].value == declared_value(decls[i])
                && rules_spec(decls)[i].target == declared_target(decls[i]),
{
}

/// The provider generated for one subscription.
fn make_provider(name: &String, url: &String, provider_config: &Option<ProviderConfig>) -> (r:
    ProxyProvider)
    ensures
        r.deep_view() == provider_spec(name@, url@, provider_config.deep_view()),
{
    let (hc_url, hc_interval, update, lazy) = match provider_config {
        Some(c) => (
            text_or_default(&c.health_check_url, DEFAULT_HEALTH_CHECK_URL),
            or_default(c.health_check_interval, DEFAULT_HEALTH_CHECK_INTERVAL),
            or_default(c.update_interval, DEFAULT_UPDATE_INTERVAL),
            c.lazy,
        ),
        None => (
            String::from_str(DEFAULT_HEALTH_CHECK_URL),
            DEFAULT_HEALTH_CHECK_INTERVAL,
            DEFAULT_UPDATE_INTERVAL,
            None,
        ),
    };
    let health_check = HealthCheck { enable: true, url: hc_url, interval: hc_interval, lazy };
    ProxyProvider::Http(
        HttpProxyProvider {
            url: url.clone(),
            path: Some(concat3("./proxies/", name.as_str(), ".yaml")),
            proxy: None,
            size_limit: None,
            header: None,
            common: ProxyProviderCommon {
                interval: Some(update),
                health_check: Some(health_check),
                filter: None,
                exclude_filter: None,
                exclude_type: None,
            },
        },
    )
}

/// One remote provider per subscription, under the subscription's name,
/// with the overrides applied over the defaults.
pub fn generate_proxy_providers(
    proxies: &NameMap<String>,
    provider_config: &Option<ProviderConfig>,
) -> (r: NameMap<ProxyProvider>)
    ensures
        r.deep_view() == providers_spec(proxies.deep_view(), provider_config.deep_view()),
{
    let mut providers: NameMap<ProxyProvider> = NameMap::new();
    let n = proxies.len();
    let ghost pv = proxies.deep_view();
    let ghost cv = provider_config.deep_view();
    let mut i: usize = 0;
    while i < n
        invariant
            n == pv.len(),
            pv == proxies.deep_view(),
            cv == provider_config.deep_view(),
            keys_of(pv).no_duplicates(),
            i <= n,
            providers.deep_view() =~= providers_spec(pv, cv).subrange(0, i as int),
        decreases n - i,
    {
        let name = proxies.key_at(i);
        let url = proxies.value_at(i);
        let provider = make_provider(name, url, provider_config);
        let ghost before = providers.deep_view();
        proof {
            lemma_key_index(before, name@);
            if key_index(before, name@) >= 0 {
                let j = key_index(before, name@);
                assert(keys_of(pv)[j] == keys_of(pv)[i as int]);
            }
        }
        providers.insert(name.clone(), provider);
        i += 1;
    }
    providers
}

/// The rule that a declaration stands for.
fn make_rule(d: &RuleCfg) -> (r: Rule)
    ensures
        r.deep_view() == rule_of(d.deep_view()),
{
    match d {
        RuleCfg::Single(s) => Rule { tag: s.tag, value: s.value.clone(), target: s.target.clone() },
        RuleCfg::RuleSet(s) => Rule {
            tag: RuleTag::RuleSet,
            value: s.name.clone(),
            target: s.target.clone(),
        },
    }
}

/// The rules, one per declaration in the order declared, and one rule
/// provider per rule list name (the last declaration of a name wins).
pub fn generate_rules_and_providers(rules_config: &[RuleCfg]) -> (r: (
    NameMap<RuleProvider>,
    Vec<Rule>,
))
    ensures
        r.0.deep_view() == rule_providers_spec(rules_config.deep_view()),
        r.1.deep_view() == rules_spec(rules_config.deep_view()),
{
    let mut rule_providers: NameMap<RuleProvider> = NameMap::new();
    let mut rules: Vec<Rule> = Vec::new();
    let ghost dv = rules_config.deep_view();
    let mut i: usize = 0;
    while i < rules_config.len()
        invariant
            dv == rules_config.deep_view(),
            i <= dv.len(),
            rule_providers.deep_view() == rule_providers_spec(dv.subrange(0, i as int)),
            rules.deep_view() =~= rules_spec(dv).subrange(0, i as int),
        decreases dv.len() - i,
    {
        let d = &rules_config[i];
        assert(dv.subrange(0, i + 1).drop_last() =~= dv.subrange(0, i as int));
        match d {
            RuleCfg::Single(_) => {},
            RuleCfg::RuleSet(s) => {
                let provider = RuleProvider::Http(
                    HttpRuleProvider {
                        url: s.url.clone(),
                        path: Some(concat3("./rules/", s.name.as_str(), ".yaml")),
                        size_limit: None,
                        proxy: None,
                        header: None,
                        common: RuleProviderCommon {
                            format: None,
                            interval: Some(or_default(s.interval, DEFAULT_RULE_UPDATE_INTERVAL)),
                            behavior: s.behavior,
                        },
                    },
                );
                rule_providers.insert(s.name.clone(), provider);
            },
        }
        let ghost before = rules.deep_view();
        let rule = make_rule(d);
        rules.push(rule);
        assert(rules.deep_view() =~= before.push(rule_of(dv[i as int])));
        assert(rules_spec(dv).subrange(0, i + 1) =~= rules_spec(dv).subrange(0, i as int).push(
            rule_of(dv[i as int]),
        ));
        i += 1;
    }
    assert(dv.subrange(0, dv.len() as int) =~= dv);
    (rule_providers, rules)
}

/// Applies each scalar override that is set; the others leave the
/// document as it was.
pub fn apply_default_config(config: &mut Config, default_config: &Option<DefaultConfig>)
    ensures
        final(config).deep_view() == apply_defaults_spec(old(config).deep_view(), *default_config),
{
    if let Some(defaults) = default_config {
        if let Some(port) = defaults.port {
            config.port = Some(port);
        }
        if let Some(socks_port) = defaults.socks_port {
            config.socks_port = Some(socks_port);
        }
        if let Some(mixed_port) = defaults.mixed_port {
            config.mixed_port = Some(mixed_port);
        }
        if let Some(mode) = defaults.mode {
            config.mode = mode;
        }
        if let Some(log_level) = defaults.log_level {
            config.log_level = log_level;
        }
        if let Some(allow_lan) = defaults.allow_lan {
            config.allow_lan = Some(allow_lan);
        }
    }
}

/// The document generated from a description, without any check: the
/// overrides applied, one provider per subscription, the region groups
/// followed by the user's groups, and the rules with their providers.
pub fn generate_clash_config(app_config: AppConfig) -> (r: Config)
    ensures
        r.deep_view() == assemble(app_config.deep_view()),
{
    let ghost av = app_config.deep_view();
    let AppConfig { proxies, groups, rules, region_groups, default_config, provider_config, auth: _ } =
        app_config;
    let mut config = Config::default();
    apply_default_config(&mut config, &default_config);
    let proxy_providers = generate_proxy_providers(&proxies, &provider_config);
    let generated: Vec<ProxyGroup> = match &region_groups {
        Some(region_config) => {
            let names = proxies.keys();
            ProxyGroupTemplateGenerator::generate_region_groups(names.as_slice(), region_config)
        },
        None => Vec::new(),
    };
    assert(generated.deep_view() =~= generated_groups(av));
    let all_groups = ProxyGroupTemplateGenerator::merge_with_user_groups(generated, groups);
    let (rule_providers, rule_list) = generate_rules_and_providers(rules.as_slice());
    config.proxy_providers = Some(proxy_providers);
    config.proxy_groups = Some(all_groups);
    config.rule_providers = Some(rule_providers);
    config.rules = Some(rule_list);
    config
}

} // verus!
