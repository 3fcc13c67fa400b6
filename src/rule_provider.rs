//! Remote and local sources of rule lists.
use vstd::prelude::*;
use crate::name_map::NameMap;

verus! {

/// How the entries of a rule list are read.
#[derive(Clone, Copy, Debug, PartialEq, Eq, Structural)]
pub enum RuleSetBehavior {
    Domain,
    Ipcidr,
    Classical,
}

impl DeepView for RuleSetBehavior {
    type V = RuleSetBehavior;

    open spec fn deep_view(&self) -> RuleSetBehavior {
        *self
    }
}

impl Default for RuleSetBehavior {
    /// Lists of domains.
    fn default() -> (r: RuleSetBehavior)
        ensures
            r == RuleSetBehavior::Domain,
    {
        RuleSetBehavior::Domain
    }
}

/// The file format of a rule list.
#[derive(Clone, Copy, Debug, PartialEq, Eq, Structural)]
pub enum ProviderFormat {
    Yaml,
    Text,
    Mrs,
}

impl Default for ProviderFormat {
    /// YAML files.
    fn default() -> (r: ProviderFormat)
        ensures
            r == ProviderFormat::Yaml,
    {
        ProviderFormat::Yaml
    }
}

/// The settings shared by every kind of rule provider.
#[derive(Clone, Copy, Debug)]
pub struct RuleProviderCommon {
    pub format: Option<ProviderFormat>,
    pub interval: Option<u64>,
    pub behavior: RuleSetBehavior,
}

impl DeepView for RuleProviderCommon {
    type V = RuleProviderCommon;

    open spec fn deep_view(&self) -> RuleProviderCommon {
        *self
    }
}

/// A rule list fetched from `url` and cached at `path`.
#[derive(Debug)]
pub struct HttpRuleProvider {
    pub url: String,
    pub path: Option<String>,
    pub size_limit: Option<u64>,
    pub proxy: Option<String>,
    pub header: Option<NameMap<Vec<String>>>,
    pub common: RuleProviderCommon,
}

/// A rule list read from a local file.
#[derive(Debug)]
pub struct FileRuleProvider {
    pub path: String,
    pub common: RuleProviderCommon,
}

/// A rule list written out in the document itself.
#[derive(Debug)]
pub struct InlineRuleProvider {
    pub payload: Vec<String>,
    pub common: RuleProviderCommon,
}

/// A named source of rules.
#[derive(Debug)]
pub enum RuleProvider {
    Http(HttpRuleProvider),
    File(FileRuleProvider),
    Inline(InlineRuleProvider),
}

/// A remote rule provider with its texts as character sequences.
pub struct HttpRuleProviderView {
    pub url: Seq<char>,
    pub path: Option<Seq<char>>,
    pub size_limit: Option<u64>,
    pub proxy: Option<Seq<char>>,
    pub header: Option<Seq<(Seq<char>, Seq<Seq<char>>)>>,
    pub common: RuleProviderCommon,
}

/// A rule provider with its texts as character sequences.
pub enum RuleProviderView {
    Http(HttpRuleProviderView),
    File { path: Seq<char>, common: RuleProviderCommon },
    Inline { payload: Seq<Seq<char>>, common: RuleProviderCommon },
}

impl DeepView for HttpRuleProvider {
    type V = HttpRuleProviderView;

    open spec fn deep_view(&self) -> HttpRuleProviderView {
        HttpRuleProviderView {
            url: self.url@,
            path: self.path.deep_view(),
            size_limit: self.size_limit,
            proxy: self.proxy.deep_view(),
            header: self.header.deep_view(),
            common: self.common,
        }
    }
}

impl DeepView for RuleProvider {
    type V = RuleProviderView;

    open spec fn deep_view(&self) -> RuleProviderView {
        match self {
            RuleProvider::Http(p) => RuleProviderView::Http(p.deep_view()),
            RuleProvider::File(p) => RuleProviderView::File { path: p.path@, common: p.common },
            RuleProvider::Inline(p) => RuleProviderView::Inline {
                payload: p.payload.deep_view(),
                common: p.common,
            },
        }
    }
}

} // verus!
