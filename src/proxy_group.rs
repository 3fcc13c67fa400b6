//! Groups that pick among proxies.
use vstd::prelude::*;

verus! {

/// How a load-balancing group spreads connections.
#[derive(Clone, Copy, Debug, PartialEq, Eq, Structural)]
pub enum Strategy {
    RoundRobin,
    ConsistentHashing,
    StickySession,
}

/// The settings shared by every kind of proxy group.
#[derive(Clone, Debug)]
pub struct ProxyGroupCommon {
    pub name: String,
    pub proxies: Option<Vec<String>>,
    pub use_provider: Option<Vec<String>>,
    pub url: Option<String>,
    pub interval: Option<u64>,
    pub lazy: Option<bool>,
    pub timeout: Option<u64>,
    pub max_failed_times: Option<u64>,
    pub disable_udp: Option<bool>,
    pub icon: Option<String>,
    pub filter: Option<String>,
}

/// A group that chains its proxies one after another.
#[derive(Clone, Debug)]
pub struct RelayGroup {
    pub common: ProxyGroupCommon,
}

/// A group that spreads connections over its proxies.
#[derive(Clone, Debug)]
pub struct LoadBalanceGroup {
    pub common: ProxyGroupCommon,
    pub strategy: Option<Strategy>,
}

/// A group that uses the first proxy that answers.
#[derive(Clone, Debug)]
pub struct FallbackGroup {
    pub common: ProxyGroupCommon,
}

/// A group that uses the proxy with the lowest measured latency.
#[derive(Clone, Debug)]
pub struct UrlTestGroup {
    pub common: ProxyGroupCommon,
    pub tolerance: Option<u64>,
}

/// A group whose proxy the user picks by hand.
#[derive(Clone, Debug)]
pub struct SelectGroup {
    pub common: ProxyGroupCommon,
}

/// A named group of proxies.
#[derive(Clone, Debug)]
pub enum ProxyGroup {
    Relay(RelayGroup),
    UrlTest(UrlTestGroup),
    Fallback(FallbackGroup),
    LoadBalance(LoadBalanceGroup),
    Select(SelectGroup),
}

/// The shared settings of a group with texts as character sequences.
pub struct GroupCommonView {
    pub name: Seq<char>,
    pub proxies: Option<Seq<Seq<char>>>,
    pub use_provider: Option<Seq<Seq<char>>>,
    pub url: Option<Seq<char>>,
    pub interval: Option<u64>,
    pub lazy: Option<bool>,
    pub timeout: Option<u64>,
    pub max_failed_times: Option<u64>,
    pub disable_udp: Option<bool>,
    pub icon: Option<Seq<char>>,
    pub filter: Option<Seq<char>>,
}

/// A proxy group with texts as character sequences.
pub enum ProxyGroupView {
    Relay(GroupCommonView),
    UrlTest(GroupCommonView, Option<u64>),
    Fallback(GroupCommonView),
    LoadBalance(GroupCommonView, Option<Strategy>),
    Select(GroupCommonView),
}

impl ProxyGroupView {
    /// The shared settings, whatever the kind of group.
    pub open spec fn common(self) -> GroupCommonView {
        match self {
            ProxyGroupView::Relay(c) => c,
            ProxyGroupView::UrlTest(c, _) => c,
            ProxyGroupView::Fallback(c) => c,
            ProxyGroupView::LoadBalance(c, _) => c,
            ProxyGroupView::Select(c) => c,
        }
    }
}

impl DeepView for ProxyGroupCommon {
    type V = GroupCommonView;

    open spec fn deep_view(&self) -> GroupCommonView {
        GroupCommonView {
            name: self.name@,
            proxies: self.proxies.deep_view(),
            use_provider: self.use_provider.deep_view(),
            url: self.url.deep_view(),
            interval: self.interval,
            lazy: self.lazy,
            timeout: self.timeout,
            max_failed_times: self.max_failed_times,
            disable_udp: self.disable_udp,
            icon: self.icon.deep_view(),
            filter: self.filter.deep_view(),
        }
    }
}

impl DeepView for ProxyGroup {
    type V = ProxyGroupView;

    open spec fn deep_view(&self) -> ProxyGroupView {
        match self {
            ProxyGroup::Relay(g) => ProxyGroupView::Relay(g.common.deep_view()),
            ProxyGroup::UrlTest(g) => ProxyGroupView::UrlTest(g.common.deep_view(), g.tolerance),
            ProxyGroup::Fallback(g) => ProxyGroupView::Fallback(g.common.deep_view()),
            ProxyGroup::LoadBalance(g) => ProxyGroupView::LoadBalance(
                g.common.deep_view(),
                g.strategy,
            ),
            ProxyGroup::Select(g) => ProxyGroupView::Select(g.common.deep_view()),
        }
    }
}

impl ProxyGroup {
    /// The shared settings, whatever the kind of group.
    pub fn common(&self) -> (r: &ProxyGroupCommon)
        ensures
            r.deep_view() == self.deep_view().common(),
    {
        match self {
            ProxyGroup::Relay(g) => &g.common,
            ProxyGroup::UrlTest(g) => &g.common,
            ProxyGroup::Fallback(g) => &g.common,
            ProxyGroup::LoadBalance(g) => &g.common,
            ProxyGroup::Select(g) => &g.common,
        }
    }
}

} // verus!
