//! Expansion of region templates into proxy groups.
use vstd::prelude::*;
use crate::app_config::{
    default_templates, get_default_region_templates, RegionGroupConfig, RegionGroupView,
    RegionTemplate, RegionTemplateView,
};
use crate::proxy_group::{
    GroupCommonView, ProxyGroup, ProxyGroupCommon, ProxyGroupView, SelectGroup, UrlTestGroup,
};
use crate::text::{concat, concat3, contains_char, copy_names, copy_opt};

verus! {

/// The address that automatic groups probe for latency.
pub const PROBE_URL: &'static str = "http://www.gstatic.com/generate_204";

/// Seconds between two latency probes of an automatic group.
pub const PROBE_INTERVAL: u64 = 300;

/// The name of the automatic group of the region named `name`.
pub open spec fn auto_name(name: Seq<char>) -> Seq<char> {
    name + "-Auto"@
}

/// A region's pattern narrowed by the global pattern, if there is one:
/// `(region).*global`, joined as text.
pub open spec fn compose_filter(region_filter: Seq<char>, global_filter: Option<Seq<char>>) -> Seq<
    char,
> {
    match global_filter {
        Some(g) => "("@ + region_filter + ").*"@ + g,
        None => region_filter,
    }
}

/// A pattern passes the structural check: it is not empty and holds both
/// an opening and a closing parenthesis.
pub open spec fn filter_ok(f: Seq<char>) -> bool {
    f.len() > 0 && f.contains('(') && f.contains(')')
}

/// The manual group of a region: its automatic group as the one member,
/// every provider, and the composed pattern.
pub open spec fn select_group_spec(
    region: RegionTemplateView,
    providers: Seq<Seq<char>>,
    global_filter: Option<Seq<char>>,
) -> ProxyGroupView {
    ProxyGroupView::Select(
        GroupCommonView {
            name: region.name,
            proxies: Some(seq![auto_name(region.name)]),
            use_provider: Some(providers),
            url: None,
            interval: None,
            lazy: None,
            timeout: None,
            max_failed_times: None,
            disable_udp: None,
            icon: region.icon,
            filter: Some(compose_filter(region.filter, global_filter)),
        },
    )
}

/// The automatic group of a region: every provider, probed at the fixed
/// address every 300 seconds, with the composed pattern.
pub open spec fn auto_group_spec(
    region: RegionTemplateView,
    providers: Seq<Seq<char>>,
    global_filter: Option<Seq<char>>,
) -> ProxyGroupView {
    ProxyGroupView::UrlTest(
        GroupCommonView {
            name: auto_name(region.name),
            proxies: None,
            use_provider: Some(providers),
            url: Some(PROBE_URL@),
            interval: Some(PROBE_INTERVAL),
            lazy: None,
            timeout: None,
            max_failed_times: None,
            disable_udp: None,
            icon: region.icon,
            filter: Some(compose_filter(region.filter, global_filter)),
        },
        None,
    )
}

/// The groups of one region: the manual one, then the automatic one if
/// automatic groups are on.
pub open spec fn groups_of_region(
    region: RegionTemplateView,
    providers: Seq<Seq<char>>,
    auto: bool,
    global_filter: Option<Seq<char>>,
) -> Seq<ProxyGroupView> {
    if auto {
        seq![
            select_group_spec(region, providers, global_filter),
            auto_group_spec(region, providers, global_filter),
        ]
    } else {
        seq![select_group_spec(region, providers, global_filter)]
    }
}

/// The groups of every region, region after region in the given order.
pub open spec fn groups_for_regions(
    regions: Seq<RegionTemplateView>,
    providers: Seq<Seq<char>>,
    auto: bool,
    global_filter: Option<Seq<char>>,
) -> Seq<ProxyGroupView>
    decreases regions.len(),
{
    if regions.len() == 0 {
        seq![]
    } else {
        groups_for_regions(regions.drop_last(), providers, auto, global_filter) + groups_of_region(
            regions.last(),
            providers,
            auto,
            global_filter,
        )
    }
}

/// The regions in effect: those given, or the built-in ones when none is.
pub open spec fn effective_regions(config: RegionGroupView) -> Seq<RegionTemplateView> {
    if config.regions.len() == 0 {
        default_templates()
    } else {
        config.regions
    }
}

/// The region groups generated for the given providers: none when region
/// groups are off.
pub open spec fn region_groups(providers: Seq<Seq<char>>, config: RegionGroupView) -> Seq<
    ProxyGroupView,
> {
    if !config.enabled {
        seq![]
    } else {
        groups_for_regions(
            effective_regions(config),
            providers,
            config.create_auto_groups,
            config.global_filter,
        )
    }
}

/// Each region yields two groups when automatic groups are on, one otherwise.
pub proof fn lemma_groups_for_regions_len(
    regions: Seq<RegionTemplateView>,
    providers: Seq<Seq<char>>,
    auto: bool,
    global_filter: Option<Seq<char>>,
)
    ensures
        groups_for_regions(regions, providers, auto, global_filter).len() == if auto {
            2 * regions.len()
        } else {
            regions.len()
        },
    decreases regions.len(),
{
    if regions.len() > 0 {
        lemma_groups_for_regions_len(regions.drop_last(), providers, auto, global_filter);
    }
}

/// With region groups on, N regions in effect give exactly 2N groups when
/// automatic groups are on, and exactly N groups when they are off.
pub proof fn lemma_region_group_count(providers: Seq<Seq<char>>, config: RegionGroupView)
    requires
        config.enabled,
    ensures
        region_groups(providers, config).len() == if config.create_auto_groups {
            2 * effective_regions(config).len()
        } else {
            effective_regions(config).len()
        },
{
    lemma_groups_for_regions_len(
        effective_regions(config),
        providers,
        config.create_auto_groups,
        config.global_filter,
    );
}

/// With region groups off, no group is generated, whatever the regions.
pub proof fn lemma_disabled_generates_nothing(providers: Seq<Seq<char>>, config: RegionGroupView)
    requires
        !config.enabled,
    ensures
        region_groups(providers, config) == Seq::<ProxyGroupView>::empty(),
{
}

/// Without a global pattern a region's pattern is used as it is.
pub proof fn lemma_compose_without_global(f: Seq<char>)
    ensures
        compose_filter(f, None) == f,
{
}

/// A copy of a region.
fn copy_region(t: &RegionTemplate) -> (r: RegionTemplate)
    ensures
        r.deep_view() == t.deep_view(),
{
    RegionTemplate {
        name: t.name.clone(),
        display_name: copy_opt(&t.display_name),
        filter: t.filter.clone(),
        icon: copy_opt(&t.icon),
    }
}

/// The global pattern as a string slice, if there is one.
fn global_of(config: &RegionGroupConfig) -> (r: Option<&str>)
    ensures
        r.deep_view() == config.global_filter.deep_view(),
{
    match &config.global_filter {
        Some(g) => Some(g.as_str()),
        None => None,
    }
}

/// Builds proxy groups from region templates.
pub struct ProxyGroupTemplateGenerator;

impl ProxyGroupTemplateGenerator {
    /// The region groups for the given providers: for each region in
    /// effect, in order, its manual group and, if automatic groups are on,
    /// its automatic group. None when region groups are off.
    pub fn generate_region_groups(providers: &[String], config: &RegionGroupConfig) -> (r: Vec<
        ProxyGroup,
    >)
        ensures
            r.deep_view() == region_groups(providers.deep_view(), config.deep_view()),
    {
        let mut groups: Vec<ProxyGroup> = Vec::new();
        if !config.enabled {
            assert(groups.deep_view() =~= Seq::<ProxyGroupView>::empty());
            return groups;
        }
        let regions = Self::get_merged_region_templates(config);
        let global_filter = global_of(config);
        let auto = config.create_auto_groups;
        let ghost pv = providers.deep_view();
        let ghost gv = config.global_filter.deep_view();
        assert(groups.deep_view() =~= groups_for_regions(
            regions.deep_view().subrange(0, 0),
            pv,
            auto,
            gv,
        ));
        let mut i: usize = 0;
        while i < regions.len()
            invariant
                i <= regions@.len(),
                pv == providers.deep_view(),
                gv == config.global_filter.deep_view(),
                global_filter.deep_view() == gv,
                groups.deep_view() == groups_for_regions(
                    regions.deep_view().subrange(0, i as int),
                    pv,
                    auto,
                    gv,
                ),
            decreases regions@.len() - i,
        {
            let ghost before = groups.deep_view();
            let ghost rv = regions.deep_view()[i as int];
            let select = Self::create_region_select_group_with_global_filter(
                &regions[i],
                providers,
                global_filter,
            );
            groups.push(select);
            if auto {
                let auto_group = Self::create_region_auto_group_with_global_filter(
                    &regions[i],
                    providers,
                    global_filter,
                );
                groups.push(auto_group);
            }
            assert(regions.deep_view().subrange(0, i + 1).drop_last() =~= regions.deep_view().subrange(
                0,
                i as int,
            ));
            assert(groups.deep_view() =~= before + groups_of_region(rv, pv, auto, gv));
            i += 1;
        }
        assert(regions.deep_view().subrange(0, regions@.len() as int) =~= regions.deep_view());
        groups
    }

    /// The regions in effect: a copy of those given, or the built-in ones
    /// when none is given.
    pub fn get_merged_region_templates(config: &RegionGroupConfig) -> (r: Vec<RegionTemplate>)
        ensures
            r.deep_view() == effective_regions(config.deep_view()),
    {
        if config.regions.len() == 0 {
            get_default_region_templates()
        } else {
            let mut r: Vec<RegionTemplate> = Vec::new();
            let mut i: usize = 0;
            while i < config.regions.len()
                invariant
                    i <= config.regions@.len(),
                    r.deep_view() =~= config.regions.deep_view().subrange(0, i as int),
                decreases config.regions@.len() - i,
            {
                let ghost before = r.deep_view();
                let t = copy_region(&config.regions[i]);
                r.push(t);
                assert(r.deep_view() =~= before.push(config.regions.deep_view()[i as int]));
                assert(config.regions.deep_view().subrange(0, i + 1) =~= config.regions.deep_view().subrange(
                    0,
                    i as int,
                ).push(config.regions.deep_view()[i as int]));
                i += 1;
            }
            assert(r.deep_view() =~= config.regions.deep_view());
            r
        }
    }

    /// The manual group of a region, without a global pattern.
    pub fn create_region_select_group(region: &RegionTemplate, providers: &[String]) -> (r:
        ProxyGroup)
        ensures
            r.deep_view() == select_group_spec(region.deep_view(), providers.deep_view(), None),
    {
        Self::create_region_select_group_with_global_filter(region, providers, None)
    }

    /// The manual group of a region: named after the region, with the
    /// region's automatic group as its one member, every provider, the
    /// region's icon, and the region's pattern narrowed by `global_filter`.
    pub fn create_region_select_group_with_global_filter(
        region: &RegionTemplate,
        providers: &[String],
        global_filter: Option<&str>,
    ) -> (r: ProxyGroup)
        ensures
            r.deep_view() == select_group_spec(
                region.deep_view(),
                providers.deep_view(),
                global_filter.deep_view(),
            ),
    {
        let mut proxies: Vec<String> = Vec::new();
        proxies.push(concat(region.name.as_str(), "-Auto"));
        let final_filter = Self::apply_global_filter(region.filter.as_str(), global_filter);
        let r = ProxyGroup::Select(
            SelectGroup {
                common: ProxyGroupCommon {
                    name: region.name.clone(),
                    proxies: Some(proxies),
                    use_provider: Some(copy_names(providers)),
                    url: None,
                    interval: None,
                    lazy: None,
                    timeout: None,
                    max_failed_times: None,
                    disable_udp: None,
                    icon: copy_opt(&region.icon),
                    filter: Some(final_filter),
                },
            },
        );
        assert(r.deep_view().common().proxies =~= Some(seq![auto_name(region.name@)]));
        r
    }

    /// The automatic group of a region, without a global pattern.
    pub fn create_region_auto_group(region: &RegionTemplate, providers: &[String]) -> (r:
        ProxyGroup)
        ensures
            r.deep_view() == auto_group_spec(region.deep_view(), providers.deep_view(), None),
    {
        Self::create_region_auto_group_with_global_filter(region, providers, None)
    }

    /// The automatic group of a region: named after the region with
    /// `-Auto` appended, every provider, probed at the fixed address every
    /// 300 seconds, the region's icon, and the region's pattern narrowed
    /// by `global_filter`.
    pub fn create_region_auto_group_with_global_filter(
        region: &RegionTemplate,
        providers: &[String],
        global_filter: Option<&str>,
    ) -> (r: ProxyGroup)
        ensures
            r.deep_view() == auto_group_spec(
                region.deep_view(),
                providers.deep_view(),
                global_filter.deep_view(),
            ),
    {
        let final_filter = Self::apply_global_filter(region.filter.as_str(), global_filter);
        ProxyGroup::UrlTest(
            UrlTestGroup {
                common: ProxyGroupCommon {
                    name: concat(region.name.as_str(), "-Auto"),
                    proxies: None,
                    use_provider: Some(copy_names(providers)),
                    url: Some(String::from_str(PROBE_URL)),
                    interval: Some(PROBE_INTERVAL),
                    lazy: None,
                    timeout: None,
                    max_failed_times: None,
                    disable_udp: None,
                    icon: copy_opt(&region.icon),
                    filter: Some(final_filter),
                },
                tolerance: None,
            },
        )
    }

    /// All groups: the generated ones first, then the user's, each in its
    /// own order, with nothing removed.
    pub fn merge_with_user_groups(generated: Vec<ProxyGroup>, user: Vec<ProxyGroup>) -> (r: Vec<
        ProxyGroup,
    >)
        ensures
            r@ == generated@ + user@,
            r.deep_view() == generated.deep_view() + user.deep_view(),
            r@.len() == generated@.len() + user@.len(),
    {
        let mut all_groups = generated;
        let mut rest = user;
        all_groups.append(&mut rest);
        assert(all_groups.deep_view() =~= generated.deep_view() + user.deep_view());
        all_groups
    }

    /// A region's pattern narrowed by the global pattern, if there is one.
    pub fn apply_global_filter(region_filter: &str, global_filter: Option<&str>) -> (r: String)
        ensures
            r@ == compose_filter(region_filter@, global_filter.deep_view()),
    {
        match global_filter {
            Some(global) => concat3("(", region_filter, ").*").concat(global),
            None => String::from_str(region_filter),
        }
    }

    /// Checks a pattern's structure only: it must not be empty, and must
    /// hold both `(` and `)`.
    pub fn validate_filter(filter: &str) -> (r: Result<(), String>)
        ensures
            r is Ok <==> filter_ok(filter@),
            r matches Err(m) ==> m@ == if filter@.len() == 0 {
                "Filter cannot be empty"@
            } else {
                "Filter should contain parentheses for grouping"@
            },
    {
        if filter.is_empty() {
            return Err(String::from_str("Filter cannot be empty"));
        }
        if !contains_char(filter, '(') || !contains_char(filter, ')') {
            return Err(String::from_str("Filter should contain parentheses for grouping"));
        }
        Ok(())
    }
}

} // verus!
