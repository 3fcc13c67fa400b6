//! Sources of proxy lists.
use vstd::prelude::*;
use crate::name_map::NameMap;

verus! {

/// How the proxy client probes the proxies of a provider.
#[derive(Clone, Debug)]
pub struct HealthCheck {
    pub enable: bool,
    pub url: String,
    pub interval: u64,
    pub lazy: Option<bool>,
}

/// A renaming applied to the proxies of a provider.
#[derive(Clone, Debug)]
pub struct ProxyName {
    pub pattern: String,
    pub target: String,
}

/// The settings shared by every kind of proxy provider.
#[derive(Clone, Debug)]
pub struct ProxyProviderCommon {
    pub interval: Option<u64>,
    pub health_check: Option<HealthCheck>,
    pub filter: Option<String>,
    pub exclude_filter: Option<String>,
    pub exclude_type: Option<String>,
}

/// A proxy list fetched from `url` and cached at `path`.
#[derive(Debug)]
pub struct HttpProxyProvider {
    pub url: String,
    pub path: Option<String>,
    pub proxy: Option<String>,
    pub size_limit: Option<u64>,
    pub header: Option<NameMap<Vec<String>>>,
    pub common: ProxyProviderCommon,
}

/// A proxy list read from a local file.
#[derive(Clone, Debug)]
pub struct FileProxyProvider {
    pub path: String,
    pub common: ProxyProviderCommon,
}

/// A named source of proxies.
#[derive(Debug)]
pub enum ProxyProvider {
    Http(HttpProxyProvider),
    File(FileProxyProvider),
}

/// A health check with its texts as character sequences.
pub struct HealthCheckView {
    pub enable: bool,
    pub url: Seq<char>,
    pub interval: u64,
    pub lazy: Option<bool>,
}

/// The shared provider settings with texts as character sequences.
pub struct ProviderCommonView {
    pub interval: Option<u64>,
    pub health_check: Option<HealthCheckView>,
    pub filter: Option<Seq<char>>,
    pub exclude_filter: Option<Seq<char>>,
    pub exclude_type: Option<Seq<char>>,
}

/// A proxy provider with its texts as character sequences.
#[allow(inconsistent_fields)]
pub enum ProxyProviderView {
    Http {
        url: Seq<char>,
        path: Option<Seq<char>>,
        proxy: Option<Seq<char>>,
        size_limit: Option<u64>,
        header: Option<Seq<(Seq<char>, Seq<Seq<char>>)>>,
        common: ProviderCommonView,
    },
    File { path: Seq<char>, common: ProviderCommonView },
}

impl DeepView for HealthCheck {
    type V = HealthCheckView;

    open spec fn deep_view(&self) -> HealthCheckView {
        HealthCheckView {
            enable: self.enable,
            url: self.url@,
            interval: self.interval,
            lazy: self.lazy,
        }
    }
}

impl DeepView for ProxyProviderCommon {
    type V = ProviderCommonView;

    open spec fn deep_view(&self) -> ProviderCommonView {
        ProviderCommonView {
            interval: self.interval,
            health_check: self.health_check.deep_view(),
            filter: self.filter.deep_view(),
            exclude_filter: self.exclude_filter.deep_view(),
            exclude_type: self.exclude_type.deep_view(),
        }
    }
}

impl DeepView for ProxyProvider {
    type V = ProxyProviderView;

    open spec fn deep_view(&self) -> ProxyProviderView {
        match self {
            ProxyProvider::Http(p) => ProxyProviderView::Http {
                url: p.url@,
                path: p.path.deep_view(),
                proxy: p.proxy.deep_view(),
                size_limit: p.size_limit,
                header: p.header.deep_view(),
                common: p.common.deep_view(),
            },
            ProxyProvider::File(p) => ProxyProviderView::File {
                path: p.path@,
                common: p.common.deep_view(),
            },
        }
    }
}

} // verus!
