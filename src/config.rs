//! The generated proxy client configuration document.
use vstd::prelude::*;
use crate::log_level::LogLevel;
use crate::name_map::NameMap;
use crate::proxy_group::{ProxyGroup, ProxyGroupView};
use crate::proxy_provider::{ProxyProvider, ProxyProviderView};
use crate::rule::{Rule, RuleView};
use crate::rule_provider::{RuleProvider, RuleProviderView};
use crate::run_mode::RunMode;

verus! {

/// The configuration document handed to the proxy client.
#[derive(Debug)]
pub struct Config {
    pub port: Option<u16>,
    pub socks_port: Option<u16>,
    pub mixed_port: Option<u16>,
    pub redir_port: Option<u16>,
    pub tproxy_port: Option<u16>,
    pub allow_lan: Option<bool>,
    pub mode: RunMode,
    pub log_level: LogLevel,
    pub proxy_providers: Option<NameMap<ProxyProvider>>,
    pub proxy_groups: Option<Vec<ProxyGroup>>,
    pub rule_providers: Option<NameMap<RuleProvider>>,
    pub rules: Option<Vec<Rule>>,
}

/// A configuration document with its texts as character sequences.
pub struct ConfigView {
    pub port: Option<u16>,
    pub socks_port: Option<u16>,
    pub mixed_port: Option<u16>,
    pub redir_port: Option<u16>,
    pub tproxy_port: Option<u16>,
    pub allow_lan: Option<bool>,
    pub mode: RunMode,
    pub log_level: LogLevel,
    pub proxy_providers: Option<Seq<(Seq<char>, ProxyProviderView)>>,
    pub proxy_groups: Option<Seq<ProxyGroupView>>,
    pub rule_providers: Option<Seq<(Seq<char>, RuleProviderView)>>,
    pub rules: Option<Seq<RuleView>>,
}

impl DeepView for Config {
    type V = ConfigView;

    open spec fn deep_view(&self) -> ConfigView {
        ConfigView {
            port: self.port,
            socks_port: self.socks_port,
            mixed_port: self.mixed_port,
            redir_port: self.redir_port,
            tproxy_port: self.tproxy_port,
            allow_lan: self.allow_lan,
            mode: self.mode,
            log_level: self.log_level,
            proxy_providers: self.proxy_providers.deep_view(),
            proxy_groups: self.proxy_groups.deep_view(),
            rule_providers: self.rule_providers.deep_view(),
            rules: self.rules.deep_view(),
        }
    }
}

/// The document before any setting is applied: rule-based routing,
/// informational logging, and nothing else set.
pub open spec fn empty_config() -> ConfigView {
    ConfigView {
        port: None,
        socks_port: None,
        mixed_port: None,
        redir_port: None,
        tproxy_port: None,
        allow_lan: None,
        mode: RunMode::Rule,
        log_level: LogLevel::Info,
        proxy_providers: None,
        proxy_groups: None,
        rule_providers: None,
        rules: None,
    }
}

impl Default for Config {
    /// The document before any setting is applied.
    fn default() -> (r: Config)
        ensures
            r.deep_view() == empty_config(),
    {
        Config {
            port: None,
            socks_port: None,
            mixed_port: None,
            redir_port: None,
            tproxy_port: None,
            allow_lan: None,
            mode: RunMode::Rule,
            log_level: LogLevel::Info,
            proxy_providers: None,
            proxy_groups: None,
            rule_providers: None,
            rules: None,
        }
    }
}

} // verus!
