//! Checks on the description before generation and on the document after.
use vstd::prelude::*;
use crate::app_config::{AppConfig, AppConfigView, RegionGroupView, RegionTemplateView, RuleCfg, RuleCfgView, RuleSetCfg, RuleSetView};
use crate::config::{Config, ConfigView};
use crate::error::{ConfigError, ConfigErrorView};
use crate::generate::{assemble, generate_clash_config, value_or, DEFAULT_RULE_UPDATE_INTERVAL};
use crate::proxy_group::{ProxyGroup, ProxyGroupView};
use crate::proxy_group_generator::{
    auto_name, effective_regions, filter_ok, groups_for_regions, groups_of_region,
    ProxyGroupTemplateGenerator,
};
use crate::proxy_provider::{ProxyProvider, ProxyProviderView};
use crate::rule::RuleTag;
use crate::text::{concat, concat3, has_prefix, starts_with, text_eq};

verus! {

/// The address begins with `http://` or `https://`.
pub open spec fn is_http_url(s: Seq<char>) -> bool {
    has_prefix(s, "http://"@) || has_prefix(s, "https://"@)
}

/// The first error that `check` finds among the items of `s`, in order.
pub open spec fn first_error<T>(s: Seq<T>, check: spec_fn(T) -> Option<ConfigErrorView>) -> Option<
    ConfigErrorView,
>
    decreases s.len(),
{
    if s.len() == 0 {
        None
    } else {
        match check(s[0]) {
            Some(e) => Some(e),
            None => first_error(s.drop_first(), check),
        }
    }
}

/// The error of a check that returned `r`, if it failed.
pub open spec fn error_of(r: Result<(), ConfigError>) -> Option<ConfigErrorView> {
    match r {
        Ok(_) => None,
        Err(e) => Some(e.deep_view()),
    }
}

/// The names in order with `sep` between two neighbours.
pub open spec fn join(names: Seq<Seq<char>>, sep: Seq<char>) -> Seq<char>
    decreases names.len(),
{
    if names.len() == 0 {
        Seq::empty()
    } else if names.len() == 1 {
        names[0]
    } else {
        join(names.drop_last(), sep) + sep + names.last()
    }
}

/// A subscription whose address is not `http(s)`.
pub open spec fn url_error(e: (Seq<char>, Seq<char>)) -> Option<ConfigErrorView> {
    if is_http_url(e.1) {
        None
    } else {
        Some(ConfigErrorView::InvalidSubscriptionUrl(e.0 + ": "@ + e.1))
    }
}

/// What the structural check of a pattern says of a pattern that fails it.
pub open spec fn filter_message(f: Seq<char>) -> Seq<char> {
    if f.len() == 0 {
        "Filter cannot be empty"@
    } else {
        "Filter should contain parentheses for grouping"@
    }
}

/// A region whose pattern fails the structural check.
pub open spec fn region_filter_error(r: RegionTemplateView) -> Option<ConfigErrorView> {
    if filter_ok(r.filter) {
        None
    } else {
        Some(
            ConfigErrorView::ProxyGroupGenerationFailed(
                "Invalid filter for region "@ + r.name + ": "@ + filter_message(r.filter),
            ),
        )
    }
}

/// A rule target that is neither a built-in target nor an available group.
pub open spec fn target_error(t: Seq<char>, available: Seq<Seq<char>>) -> Option<ConfigErrorView> {
    if t == "DIRECT"@ || t == "REJECT"@ || available.contains(t) {
        None
    } else {
        Some(
            ConfigErrorView::RuleProcessingFailed(
                "Rule target '"@ + t + "' is not a valid proxy group. Available groups: "@ + join(
                    available,
                    ", "@,
                ),
            ),
        )
    }
}

/// What is wrong with a rule declaration, if anything: an empty target, a
/// rule list address that is not `http(s)`, or an unknown target.
pub open spec fn rule_error(d: RuleCfgView, available: Seq<Seq<char>>) -> Option<ConfigErrorView> {
    match d {
        RuleCfgView::Single(r) => if r.target.len() == 0 {
            Some(ConfigErrorView::RuleProcessingFailed("Rule target cannot be empty"@))
        } else {
            target_error(r.target, available)
        },
        RuleCfgView::RuleSet(s) => if !is_http_url(s.url) {
            Some(ConfigErrorView::RuleProcessingFailed("Invalid rule set URL: "@ + s.url))
        } else if s.target.len() == 0 {
            Some(ConfigErrorView::RuleProcessingFailed("Rule set target cannot be empty"@))
        } else {
            target_error(s.target, available)
        },
    }
}

/// The group names that the given regions produce, region after region:
/// the region's name, then its automatic group's name if those are on.
pub open spec fn region_names(regions: Seq<RegionTemplateView>, auto: bool) -> Seq<Seq<char>>
    decreases regions.len(),
{
    if regions.len() == 0 {
        seq![]
    } else {
        region_names(regions.drop_last(), auto) + if auto {
            seq![regions.last().name, auto_name(regions.last().name)]
        } else {
            seq![regions.last().name]
        }
    }
}

/// The names of the region groups that a description yields.
pub open spec fn region_targets(rg: Option<RegionGroupView>) -> Seq<Seq<char>> {
    match rg {
        Some(rc) => if rc.enabled {
            region_names(effective_regions(rc), rc.create_auto_groups)
        } else {
            seq![]
        },
        None => seq![],
    }
}

/// The names of the given groups, in order.
pub open spec fn group_names(groups: Seq<ProxyGroupView>) -> Seq<Seq<char>> {
    groups.map_values(|g: ProxyGroupView| g.common().name)
}

/// Every name a rule may target: the user's groups, the region groups, and
/// the built-in targets `DIRECT` and `REJECT`.
pub open spec fn available_targets(a: AppConfigView) -> Seq<Seq<char>> {
    group_names(a.groups) + region_targets(a.region_groups) + seq!["DIRECT"@, "REJECT"@]
}

/// The region pattern error of a description, if any.
pub open spec fn region_config_error(rg: Option<RegionGroupView>) -> Option<ConfigErrorView> {
    match rg {
        Some(rc) => if rc.enabled {
            first_error(rc.regions, filter_test())
        } else {
            None
        },
        None => None,
    }
}

/// The first thing wrong with a description, checked in this order: the
/// subscription addresses, the region patterns, then the rules.
pub open spec fn app_config_error(a: AppConfigView) -> Option<ConfigErrorView> {
    match first_error(a.proxies, url_test()) {
        Some(e) => Some(e),
        None => match region_config_error(a.region_groups) {
            Some(e) => Some(e),
            None => first_error(a.rules, rule_test(available_targets(a))),
        },
    }
}

/// A generated group without a name, or an automatic group without a
/// probe address.
pub open spec fn group_error(g: ProxyGroupView) -> Option<ConfigErrorView> {
    match g {
        ProxyGroupView::Select(c) => if c.name.len() == 0 {
            Some(ConfigErrorView::ConfigValidationFailed("Proxy group name cannot be empty"@))
        } else {
            None
        },
        ProxyGroupView::UrlTest(c, _) => if c.name.len() == 0 {
            Some(ConfigErrorView::ConfigValidationFailed("Proxy group name cannot be empty"@))
        } else if c.url is None {
            Some(
                ConfigErrorView::ConfigValidationFailed(
                    "URL test group "@ + c.name + " must have a test URL"@,
                ),
            )
        } else {
            None
        },
        _ => None,
    }
}

/// A remote provider whose address is not `http(s)`.
pub open spec fn provider_error(e: (Seq<char>, ProxyProviderView)) -> Option<ConfigErrorView> {
    match e.1 {
        ProxyProviderView::Http { url, .. } => if is_http_url(url) {
            None
        } else {
            Some(
                ConfigErrorView::ConfigValidationFailed(
                    "Invalid provider URL for "@ + e.0 + ": "@ + url,
                ),
            )
        },
        _ => None,
    }
}

/// The subscription address check, as a function.
pub open spec fn url_test() -> spec_fn((Seq<char>, Seq<char>)) -> Option<ConfigErrorView> {
    |e: (Seq<char>, Seq<char>)| url_error(e)
}

/// The region pattern check, as a function.
pub open spec fn filter_test() -> spec_fn(RegionTemplateView) -> Option<ConfigErrorView> {
    |r: RegionTemplateView| region_filter_error(r)
}

/// The rule declaration check against the given targets, as a function.
pub open spec fn rule_test(available: Seq<Seq<char>>) -> spec_fn(RuleCfgView) -> Option<
    ConfigErrorView,
> {
    |d: RuleCfgView| rule_error(d, available)
}

/// The generated group check, as a function.
pub open spec fn group_test() -> spec_fn(ProxyGroupView) -> Option<ConfigErrorView> {
    |g: ProxyGroupView| group_error(g)
}

/// The generated provider check, as a function.
pub open spec fn provider_test() -> spec_fn((Seq<char>, ProxyProviderView)) -> Option<
    ConfigErrorView,
> {
    |e: (Seq<char>, ProxyProviderView)| provider_error(e)
}

/// The first thing wrong with a generated document: the groups, then the
/// providers.
pub open spec fn generated_error(c: ConfigView) -> Option<ConfigErrorView> {
    let group_check = match c.proxy_groups {
        Some(gs) => first_error(gs, group_test()),
        None => None,
    };
    match group_check {
        Some(e) => Some(e),
        None => match c.proxy_providers {
            Some(ps) => first_error(ps, provider_test()),
            None => None,
        },
    }
}

/// The outcome of a checked generation: the first error of the
/// description, else the first error of the document, else the document.
pub open spec fn validated(a: AppConfigView) -> Result<ConfigView, ConfigErrorView> {
    match app_config_error(a) {
        Some(e) => Err(e),
        None => match generated_error(assemble(a)) {
            Some(e) => Err(e),
            None => Ok(assemble(a)),
        },
    }
}

/// What is wrong with a rule list declaration taken alone, if anything.
pub open spec fn rule_set_error(s: RuleSetView) -> Option<ConfigErrorView> {
    if !is_http_url(s.url) {
        Some(ConfigErrorView::RuleProcessingFailed("Invalid rule set URL: "@ + s.url))
    } else if s.name.len() == 0 {
        Some(ConfigErrorView::RuleProcessingFailed("Rule set name cannot be empty"@))
    } else if s.interval matches Some(v) && v < 60 {
        Some(
            ConfigErrorView::RuleProcessingFailed(
                "Rule set update interval should be at least 60 seconds"@,
            ),
        )
    } else {
        None
    }
}

/// One step of a scan for the first error: the item at `i` either fails,
/// or the scan goes on after it.
pub proof fn lemma_first_error_step<T>(
    s: Seq<T>,
    i: int,
    check: spec_fn(T) -> Option<ConfigErrorView>,
)
    requires
        0 <= i < s.len(),
    ensures
        first_error(s.subrange(i, s.len() as int), check) == match check(s[i]) {
            Some(e) => Some(e),
            None => first_error(s.subrange(i + 1, s.len() as int), check),
        },
{
    assert(s.subrange(i, s.len() as int).drop_first() =~= s.subrange(i + 1, s.len() as int));
}

/// `DIRECT` and `REJECT` are valid targets whatever groups are available,
/// none included; so is a single rule that targets one of them.
pub proof fn lemma_terminal_targets_valid(available: Seq<Seq<char>>, tag: RuleTag, value: Seq<char>)
    ensures
        target_error("DIRECT"@, available) is None,
        target_error("REJECT"@, available) is None,
        rule_error(
            RuleCfgView::Single(crate::rule::RuleView { tag, value, target: "DIRECT"@ }),
            available,
        ) is None,
        rule_error(
            RuleCfgView::Single(crate::rule::RuleView { tag, value, target: "REJECT"@ }),
            available,
        ) is None,
{
    reveal_strlit("DIRECT");
    reveal_strlit("REJECT");
}

/// A rule whose target is neither available nor `DIRECT` or `REJECT` is
/// rejected as a rule processing failure.
pub proof fn lemma_unknown_target_rejected(d: RuleCfgView, available: Seq<Seq<char>>)
    requires
        !available.contains(crate::generate::declared_target(d)),
        crate::generate::declared_target(d) != "DIRECT"@,
        crate::generate::declared_target(d) != "REJECT"@,
    ensures
        rule_error(d, available) matches Some(ConfigErrorView::RuleProcessingFailed(_)),
{
}

/// The region names a rule may target are exactly the names of the region
/// groups that generation produces, in the same order.
pub proof fn lemma_region_targets_are_generated_names(
    regions: Seq<RegionTemplateView>,
    providers: Seq<Seq<char>>,
    auto: bool,
    global_filter: Option<Seq<char>>,
)
    ensures
        region_names(regions, auto) == group_names(
            groups_for_regions(regions, providers, auto, global_filter),
        ),
    decreases regions.len(),
{
    if regions.len() > 0 {
        lemma_region_targets_are_generated_names(
            regions.drop_last(),
            providers,
            auto,
            global_filter,
        );
        let earlier = groups_for_regions(regions.drop_last(), providers, auto, global_filter);
        let last = groups_of_region(regions.last(), providers, auto, global_filter);
        assert(group_names(earlier + last) =~= group_names(earlier) + group_names(last));
        assert(group_names(last) =~= if auto {
            seq![regions.last().name, auto_name(regions.last().name)]
        } else {
            seq![regions.last().name]
        });
    }
}

/// Tells whether the address begins with `http://` or `https://`.
pub fn is_valid_url(url: &str) -> (r: bool)
    ensures
        r == is_http_url(url@),
{
    starts_with(url, "http://") || starts_with(url, "https://")
}

/// The names joined with `sep` between two neighbours.
fn join_names(names: &[String], sep: &str) -> (r: String)
    ensures
        r@ == join(names.deep_view(), sep@),
{
    let ghost nv = names.deep_view();
    let mut r = String::new();
    let mut i: usize = 0;
    while i < names.len()
        invariant
            nv == names.deep_view(),
            i <= nv.len(),
            r@ == join(nv.subrange(0, i as int), sep@),
        decreases nv.len() - i,
    {
        assert(nv.subrange(0, i + 1).drop_last() =~= nv.subrange(0, i as int));
        if i > 0 {
            r.append(sep);
        } else {
            assert(r@ =~= Seq::<char>::empty());
        }
        r.append(names[i].as_str());
        i += 1;
    }
    assert(nv.subrange(0, nv.len() as int) =~= nv);
    r
}

/// Tells whether `names` holds `t`.
fn holds_name(names: &[String], t: &str) -> (r: bool)
    ensures
        r == names.deep_view().contains(t@),
{
    let ghost nv = names.deep_view();
    let mut i: usize = 0;
    while i < names.len()
        invariant
            nv == names.deep_view(),
            i <= nv.len(),
            forall|j: int| 0 <= j < i ==> nv[j] != t@,
        decreases nv.len() - i,
    {
        if text_eq(names[i].as_str(), t) {
            assert(nv[i as int] == t@);
            return true;
        }
        i += 1;
    }
    false
}

/// Accepts `DIRECT`, `REJECT` and any available group name; rejects
/// anything else as a rule processing failure that lists the groups.
pub fn validate_rule_target(target: &str, available_groups: &[String]) -> (r: Result<(), ConfigError>)
    ensures
        error_of(r) == target_error(target@, available_groups.deep_view()),
{
    if text_eq(target, "DIRECT") || text_eq(target, "REJECT") {
        return Ok(());
    }
    if holds_name(available_groups, target) {
        return Ok(());
    }
    let head = concat3("Rule target '", target, "' is not a valid proxy group. Available groups: ");
    let listed = join_names(available_groups, ", ");
    Err(ConfigError::RuleProcessingFailed(head.concat(listed.as_str())))
}

/// Adds the names of the groups of the given regions.
fn push_region_names(names: &mut Vec<String>, regions: &Vec<crate::app_config::RegionTemplate>, auto: bool)
    ensures
        final(names).deep_view() == old(names).deep_view() + region_names(regions.deep_view(), auto),
{
    let ghost start = names.deep_view();
    let ghost rv = regions.deep_view();
    let mut i: usize = 0;
    while i < regions.len()
        invariant
            rv == regions.deep_view(),
            i <= rv.len(),
            names.deep_view() == start + region_names(rv.subrange(0, i as int), auto),
        decreases rv.len() - i,
    {
        let ghost before = names.deep_view();
        assert(rv.subrange(0, i + 1).drop_last() =~= rv.subrange(0, i as int));
        assert(rv.subrange(0, i + 1).last() == rv[i as int]);
        names.push(regions[i].name.clone());
        if auto {
            names.push(concat(regions[i].name.as_str(), "-Auto"));
        }
        let ghost added = if auto {
            seq![rv[i as int].name, auto_name(rv[i as int].name)]
        } else {
            seq![rv[i as int].name]
        };
        assert(names.deep_view() =~= before + added);
        assert(region_names(rv.subrange(0, i + 1), auto) == region_names(rv.subrange(0, i as int), auto) + added);
        assert(names.deep_view() =~= start + region_names(rv.subrange(0, i + 1), auto));
        i += 1;
    }
    assert(rv.subrange(0, rv.len() as int) =~= rv);
}

/// The names of the region groups that the description yields: for each
/// region in effect, its name, then its automatic group's name if those
/// are on. None when region groups are off.
pub fn get_available_region_groups(app_config: &AppConfig) -> (r: Vec<String>)
    ensures
        r.deep_view() == region_targets(app_config.deep_view().region_groups),
{
    let mut names: Vec<String> = Vec::new();
    if let Some(region_config) = &app_config.region_groups {
        if region_config.enabled {
            let regions = ProxyGroupTemplateGenerator::get_merged_region_templates(region_config);
            push_region_names(&mut names, &regions, region_config.create_auto_groups);
        }
    }
    assert(names.deep_view() =~= region_targets(app_config.deep_view().region_groups));
    names
}

/// Tells whether `target` names a region group of the description.
pub fn is_region_group_target(target: &str, app_config: &AppConfig) -> (r: bool)
    ensures
        r == region_targets(app_config.deep_view().region_groups).contains(target@),
{
    let names = get_available_region_groups(app_config);
    holds_name(names.as_slice(), target)
}

/// Every name a rule may target: the user's groups, the region groups,
/// then `DIRECT` and `REJECT`.
pub fn get_all_available_groups(app_config: &AppConfig) -> (r: Vec<String>)
    ensures
        r.deep_view() == available_targets(app_config.deep_view()),
{
    let ghost gv = app_config.groups.deep_view();
    let mut names: Vec<String> = Vec::new();
    let mut i: usize = 0;
    while i < app_config.groups.len()
        invariant
            gv == app_config.groups.deep_view(),
            i <= gv.len(),
            names.deep_view() =~= group_names(gv).subrange(0, i as int),
        decreases gv.len() - i,
    {
        let ghost before = names.deep_view();
        let name = app_config.groups[i].common().name.clone();
        names.push(name);
        assert(names.deep_view() =~= before.push(group_names(gv)[i as int]));
        i += 1;
    }
    assert(group_names(gv).subrange(0, gv.len() as int) =~= group_names(gv));
    let ghost user = names.deep_view();
    let mut region = get_available_region_groups(app_config);
    let ghost regional = region.deep_view();
    names.append(&mut region);
    assert(names.deep_view() =~= user + regional);
    names.push(String::from_str("DIRECT"));
    names.push(String::from_str("REJECT"));
    assert(names.deep_view() =~= user + regional + seq!["DIRECT"@, "REJECT"@]);
    names
}

/// The error of a rule declaration, if any.
fn check_rule(d: &RuleCfg, available: &[String]) -> (r: Result<(), ConfigError>)
    ensures
        error_of(r) == rule_error(d.deep_view(), available.deep_view()),
{
    match d {
        RuleCfg::Single(rule) => {
            if rule.target.as_str().is_empty() {
                return Err(
                    ConfigError::RuleProcessingFailed(
                        String::from_str("Rule target cannot be empty"),
                    ),
                );
            }
            validate_rule_target(rule.target.as_str(), available)
        },
        RuleCfg::RuleSet(rule_set) => {
            if !is_valid_url(rule_set.url.as_str()) {
                return Err(
                    ConfigError::RuleProcessingFailed(
                        concat("Invalid rule set URL: ", rule_set.url.as_str()),
                    ),
                );
            }
            if rule_set.target.as_str().is_empty() {
                return Err(
                    ConfigError::RuleProcessingFailed(
                        String::from_str("Rule set target cannot be empty"),
                    ),
                );
            }
            validate_rule_target(rule_set.target.as_str(), available)
        },
    }
}

/// Checks a description before generation, and returns the first error:
/// a subscription address that is not `http(s)`, then (with region groups
/// on) a region pattern that fails the structural check, then a rule with
/// an empty or unknown target or a rule list address that is not `http(s)`.
pub fn validate_app_config(app_config: &AppConfig) -> (r: Result<(), ConfigError>)
    ensures
        error_of(r) == app_config_error(app_config.deep_view()),
{
    let ghost av = app_config.deep_view();
    let n = app_config.proxies.len();
    let ghost pv = av.proxies;
    let ghost url_check = url_test();
    assert(pv.subrange(0, n as int) =~= pv);
    let mut i: usize = 0;
    while i < n
        invariant
            av == app_config.deep_view(),
            pv == av.proxies,
            n == pv.len(),
            i <= n,
            url_check == url_test(),
            first_error(pv.subrange(i as int, n as int), url_check) == first_error(pv, url_check),
        decreases n - i,
    {
        proof {
            lemma_first_error_step(pv, i as int, url_check);
        }
        let name = app_config.proxies.key_at(i);
        let url = app_config.proxies.value_at(i);
        if !is_valid_url(url.as_str()) {
            let detail = concat3(name.as_str(), ": ", url.as_str());
            return Err(ConfigError::InvalidSubscriptionUrl(detail));
        }
        i += 1;
    }
    assert(pv.subrange(n as int, n as int) =~= Seq::<(Seq<char>, Seq<char>)>::empty());
    if let Some(region_config) = &app_config.region_groups {
        if region_config.enabled {
            let ghost rv = region_config.regions.deep_view();
            let ghost filter_check = filter_test();
            assert(rv.subrange(0, rv.len() as int) =~= rv);
            let mut k: usize = 0;
            while k < region_config.regions.len()
                invariant
                    av == app_config.deep_view(),
                    av.region_groups == Some(region_config.deep_view()),
                    region_config.enabled,
                    first_error(av.proxies, url_test()) is None,
                    rv == region_config.regions.deep_view(),
                    k <= rv.len(),
                    filter_check == filter_test(),
                    first_error(rv.subrange(k as int, rv.len() as int), filter_check)
                        == first_error(rv, filter_check),
                decreases rv.len() - k,
            {
                proof {
                    lemma_first_error_step(rv, k as int, filter_check);
                }
                let region = &region_config.regions[k];
                match ProxyGroupTemplateGenerator::validate_filter(region.filter.as_str()) {
                    Err(e) => {
                        let detail = concat3("Invalid filter for region ", region.name.as_str(), ": ")
                            .concat(e.as_str());
                        assert(detail@ =~= "Invalid filter for region "@ + region.name@ + ": "@
                            + filter_message(region.filter@));
                        return Err(ConfigError::ProxyGroupGenerationFailed(detail));
                    },
                    Ok(()) => {},
                }
                k += 1;
            }
            assert(rv.subrange(rv.len() as int, rv.len() as int) =~= Seq::<RegionTemplateView>::empty());
        }
    }
    let available = get_all_available_groups(app_config);
    let ghost dv = av.rules;
    let ghost rule_check = rule_test(available_targets(av));
    assert(dv.subrange(0, dv.len() as int) =~= dv);
    let mut j: usize = 0;
    while j < app_config.rules.len()
        invariant
            av == app_config.deep_view(),
            dv == av.rules,
            dv == app_config.rules.deep_view(),
            first_error(av.proxies, url_test()) is None,
            region_config_error(av.region_groups) is None,
            j <= dv.len(),
            available.deep_view() == available_targets(av),
            rule_check == rule_test(available_targets(av)),
            first_error(dv.subrange(j as int, dv.len() as int), rule_check) == first_error(
                dv,
                rule_check,
            ),
        decreases dv.len() - j,
    {
        proof {
            lemma_first_error_step(dv, j as int, rule_check);
        }
        let checked = check_rule(&app_config.rules[j], available.as_slice());
        if checked.is_err() {
            return checked;
        }
        j += 1;
    }
    assert(dv.subrange(dv.len() as int, dv.len() as int) =~= Seq::<RuleCfgView>::empty());
    Ok(())
}

/// The error of one generated group, if any.
fn check_group(g: &ProxyGroup) -> (r: Result<(), ConfigError>)
    ensures
        error_of(r) == group_error(g.deep_view()),
{
    match g {
        ProxyGroup::Select(select) => {
            if select.common.name.as_str().is_empty() {
                return Err(
                    ConfigError::ConfigValidationFailed(
                        String::from_str("Proxy group name cannot be empty"),
                    ),
                );
            }
            Ok(())
        },
        ProxyGroup::UrlTest(url_test) => {
            if url_test.common.name.as_str().is_empty() {
                return Err(
                    ConfigError::ConfigValidationFailed(
                        String::from_str("Proxy group name cannot be empty"),
                    ),
                );
            }
            if url_test.common.url.is_none() {
                return Err(
                    ConfigError::ConfigValidationFailed(
                        concat3("URL test group ", url_test.common.name.as_str(), " must have a test URL"),
                    ),
                );
            }
            Ok(())
        },
        _ => Ok(()),
    }
}

/// The error of one generated provider, if any.
fn check_provider(name: &String, provider: &ProxyProvider) -> (r: Result<(), ConfigError>)
    ensures
        error_of(r) == provider_error((name@, provider.deep_view())),
{
    match provider {
        ProxyProvider::Http(http_provider) => {
            if !is_valid_url(http_provider.url.as_str()) {
                let detail = concat3("Invalid provider URL for ", name.as_str(), ": ").concat(
                    http_provider.url.as_str(),
                );
                return Err(ConfigError::ConfigValidationFailed(detail));
            }
            Ok(())
        },
        _ => Ok(()),
    }
}

/// Checks a generated document, and returns the first error: a manual or
/// automatic group without a name, an automatic group without a probe
/// address, then a remote provider whose address is not `http(s)`.
pub fn validate_generated_config(config: &Config) -> (r: Result<(), ConfigError>)
    ensures
        error_of(r) == generated_error(config.deep_view()),
{
    if let Some(groups) = &config.proxy_groups {
        let ghost gv = groups.deep_view();
        let ghost group_check = group_test();
        assert(gv.subrange(0, gv.len() as int) =~= gv);
        let mut i: usize = 0;
        while i < groups.len()
            invariant
                config.deep_view().proxy_groups == Some(gv),
                gv == groups.deep_view(),
                i <= gv.len(),
                group_check == group_test(),
                first_error(gv.subrange(i as int, gv.len() as int), group_check) == first_error(
                    gv,
                    group_check,
                ),
            decreases gv.len() - i,
        {
            proof {
                lemma_first_error_step(gv, i as int, group_check);
            }
            let checked = check_group(&groups[i]);
            if checked.is_err() {
                return checked;
            }
            i += 1;
        }
        assert(gv.subrange(gv.len() as int, gv.len() as int) =~= Seq::<ProxyGroupView>::empty());
    }
    if let Some(providers) = &config.proxy_providers {
        let ghost pv = providers.deep_view();
        let ghost provider_check = provider_test();
        let n = providers.len();
        assert(pv.subrange(0, pv.len() as int) =~= pv);
        let mut k: usize = 0;
        while k < n
            invariant
                config.deep_view().proxy_providers == Some(pv),
                match config.deep_view().proxy_groups {
                    Some(gs) => first_error(gs, group_test()),
                    None => None,
                } is None,
                pv == providers.deep_view(),
                n == pv.len(),
                k <= n,
                provider_check == provider_test(),
                first_error(pv.subrange(k as int, n as int), provider_check) == first_error(
                    pv,
                    provider_check,
                ),
            decreases n - k,
        {
            proof {
                lemma_first_error_step(pv, k as int, provider_check);
            }
            let checked = check_provider(providers.key_at(k), providers.value_at(k));
            if checked.is_err() {
                return checked;
            }
            k += 1;
        }
        assert(pv.subrange(n as int, n as int) =~= Seq::<(Seq<char>, ProxyProviderView)>::empty());
    }
    Ok(())
}

/// Checks the description, generates the document, and checks it: either
/// the first error found, or the document.
pub fn generate_clash_config_with_validation(app_config: AppConfig) -> (r: Result<
    Config,
    ConfigError,
>)
    ensures
        match r {
            Ok(c) => validated(app_config.deep_view()) == Ok::<ConfigView, ConfigErrorView>(
                c.deep_view(),
            ),
            Err(e) => validated(app_config.deep_view()) == Err::<ConfigView, ConfigErrorView>(
                e.deep_view(),
            ),
        },
{
    let checked = validate_app_config(&app_config);
    if let Err(e) = checked {
        return Err(e);
    }
    let config = generate_clash_config(app_config);
    let checked_config = validate_generated_config(&config);
    if let Err(e) = checked_config {
        return Err(e);
    }
    Ok(config)
}

/// Checks a rule list declaration alone: its address must be `http(s)`,
/// its name not empty, and its refresh interval, if set, at least 60
/// seconds.
pub fn validate_rule_set_config(rule_set: &RuleSetCfg) -> (r: Result<(), ConfigError>)
    ensures
        error_of(r) == rule_set_error(rule_set.deep_view()),
{
    if !is_valid_url(rule_set.url.as_str()) {
        return Err(
            ConfigError::RuleProcessingFailed(concat("Invalid rule set URL: ", rule_set.url.as_str())),
        );
    }
    if rule_set.name.as_str().is_empty() {
        return Err(
            ConfigError::RuleProcessingFailed(String::from_str("Rule set name cannot be empty")),
        );
    }
    if let Some(interval) = rule_set.interval {
        if interval < 60 {
            return Err(
                ConfigError::RuleProcessingFailed(
                    String::from_str("Rule set update interval should be at least 60 seconds"),
                ),
            );
        }
    }
    Ok(())
}

/// The refresh interval of a rule list: the one set, else the default.
pub fn get_rule_set_update_interval(rule_set: &RuleSetCfg) -> (r: u64)
    ensures
        r == value_or(rule_set.interval, DEFAULT_RULE_UPDATE_INTERVAL),
{
    match rule_set.interval {
        Some(v) => v,
        None => DEFAULT_RULE_UPDATE_INTERVAL,
    }
}

} // verus!
