//! Routing: which providers serve a request, in which order.

pub mod static_router;

use vstd::prelude::*;

use crate::text::str_eq;
use static_router::{match_pattern, pattern_matches, ProviderRegistry};

verus! {

/// A routing rule of an API key: requests it matches go to the target provider.
/// Rules reach the router already sorted by priority, highest first.
pub struct RoutingRule {
    pub model_pattern: String,
    pub target_provider_id: String,
}

/// What the router reads of an API key.
pub struct KeyRouting {
    /// `"content"` selects content mode; anything else is failover mode.
    pub routing_mode: String,
    /// Provider used when no rule yields one.
    pub default_provider_id: Option<String>,
}

/// A single routing target (provider + model to use).
#[derive(Clone)]
pub struct RouteTarget<P> {
    pub provider: P,
    pub model: String,
}

/// Why no target could be chosen.
pub enum RouteError {
    /// No rule and no default provider yields a registered provider.
    NoRoute(String),
}

/// Keeps the rule patterns equal to `e`.
pub open spec fn pattern_is(e: Seq<char>) -> spec_fn(Seq<char>) -> bool {
    |p: Seq<char>| p == e
}

/// Keeps the rule patterns that match `model`.
pub open spec fn pattern_accepts(model: Seq<char>) -> spec_fn(Seq<char>) -> bool {
    |p: Seq<char>| pattern_matches(p, model)
}

/// Which rule patterns a pass over the rules keeps: those equal to `exact`
/// when it is given, else those that match `model` as a pattern.
pub open spec fn rule_wanted(exact: Option<Seq<char>>, model: Seq<char>) -> spec_fn(Seq<char>) -> bool {
    match exact {
        Some(e) => pattern_is(e),
        None => pattern_accepts(model),
    }
}

/// Provider ids of the rules, in rule order, whose pattern is wanted and whose
/// provider is registered.
pub open spec fn selected_ids(
    rules: Seq<RoutingRule>,
    registered: Set<Seq<char>>,
    wanted: spec_fn(Seq<char>) -> bool,
) -> Seq<Seq<char>>
    decreases rules.len(),
{
    if rules.len() == 0 {
        Seq::empty()
    } else {
        let earlier = selected_ids(rules.drop_last(), registered, wanted);
        let r = rules.last();
        if wanted(r.model_pattern@) && registered.contains(r.target_provider_id@) {
            earlier.push(r.target_provider_id@)
        } else {
            earlier
        }
    }
}

/// The key's default provider id, as characters.
pub open spec fn default_id(key: KeyRouting) -> Option<Seq<char>> {
    match key.default_provider_id {
        Some(d) => Some(d@),
        None => None,
    }
}

/// The ids chosen by rules if there are any; else the default provider alone
/// if it is registered; else no route.
pub open spec fn or_default(
    ids: Seq<Seq<char>>,
    default: Option<Seq<char>>,
    registered: Set<Seq<char>>,
) -> Option<Seq<Seq<char>>> {
    if ids.len() > 0 {
        Some(ids)
    } else if default is Some && registered.contains(default->0) {
        Some(seq![default->0])
    } else {
        None
    }
}

/// Failover mode: the providers of the rules whose pattern matches the model,
/// by priority, else the default provider.
pub open spec fn failover_route(
    rules: Seq<RoutingRule>,
    registered: Set<Seq<char>>,
    key: KeyRouting,
    model: Seq<char>,
) -> Option<Seq<Seq<char>>> {
    or_default(selected_ids(rules, registered, pattern_accepts(model)), default_id(key), registered)
}

/// Content mode, before the default: the providers of the `@category` rules,
/// else, for another category than `general`, those of the `@general` rules.
pub open spec fn content_ids(
    rules: Seq<RoutingRule>,
    registered: Set<Seq<char>>,
    category: Seq<char>,
) -> Seq<Seq<char>> {
    let own = selected_ids(rules, registered, pattern_is("@"@ + category));
    if own.len() == 0 && category != "general"@ {
        selected_ids(rules, registered, pattern_is("@general"@))
    } else {
        own
    }
}

/// Content mode: the category's providers, else the default provider.
pub open spec fn content_route(
    rules: Seq<RoutingRule>,
    registered: Set<Seq<char>>,
    key: KeyRouting,
    category: Seq<char>,
) -> Option<Seq<Seq<char>>> {
    or_default(content_ids(rules, registered, category), default_id(key), registered)
}

/// The targets are, in order, clones of the registry's providers under `ids`,
/// each with `model` as the model to request.
pub open spec fn targets_follow<P: Clone>(
    targets: Seq<RouteTarget<P>>,
    ids: Seq<Seq<char>>,
    registry: Map<Seq<char>, P>,
    model: Seq<char>,
) -> bool {
    &&& targets.len() == ids.len()
    &&& forall|i: int|
        0 <= i < targets.len() ==> cloned::<P>(registry[ids[i]], (#[trigger] targets[i]).provider)
            && targets[i].model@ == model
}

/// The message of the failover-mode error.
pub open spec fn no_model_route_message(model: Seq<char>) -> Seq<char> {
    "No provider found for model '"@ + model + "'"@
}

/// The message of the content-mode error.
pub open spec fn no_content_route_message(category: Seq<char>) -> Seq<char> {
    "No provider found for content type '@"@ + category + "'"@
}

/// What a resolution returns when the chosen ids are `route`.
pub open spec fn resolution_follows<P: Clone>(
    r: Result<Vec<RouteTarget<P>>, RouteError>,
    route: Option<Seq<Seq<char>>>,
    registry: Map<Seq<char>, P>,
    model: Seq<char>,
    message: Seq<char>,
) -> bool {
    match r {
        Ok(targets) => route is Some && targets_follow(targets@, route->0, registry, model),
        Err(RouteError::NoRoute(msg)) => route is None && msg@ == message,
    }
}

/// Targets for the rules kept by `exact` (or by matching `model` when it is
/// absent), in rule order, each with `model` to request.
fn collect_targets<P: Clone>(
    registry: &ProviderRegistry<P>,
    rules: &Vec<RoutingRule>,
    exact: Option<&String>,
    model: &str,
) -> (targets: Vec<RouteTarget<P>>)
    requires
        registry.well_formed(),
    ensures
        targets_follow(
            targets@,
            selected_ids(
                rules@,
                registry@.dom(),
                rule_wanted(
                    match exact {
                        Some(e) => Some(e@),
                        None => None,
                    },
                    model@,
                ),
            ),
            registry@,
            model@,
        ),
{
    let ghost wanted = rule_wanted(
        match exact {
            Some(e) => Some(e@),
            None => None,
        },
        model@,
    );
    let mut targets: Vec<RouteTarget<P>> = Vec::new();
    let n = rules.len();
    let mut i: usize = 0;
    while i < n
        invariant
            registry.well_formed(),
            n == rules@.len(),
            i <= n,
            wanted == rule_wanted(
                match exact {
                    Some(e) => Some(e@),
                    None => None,
                },
                model@,
            ),
            targets_follow(
                targets@,
                selected_ids(rules@.take(i as int), registry@.dom(), wanted),
                registry@,
                model@,
            ),
        decreases n - i,
    {
        let rule = &rules[i];
        let hit = match exact {
            Some(e) => rule.model_pattern == *e,
            None => match_pattern(rule.model_pattern.as_str(), model),
        };
        assert(rules@.take(i + 1).drop_last() =~= rules@.take(i as int));
        assert(rules@.take(i + 1).last() == rules@[i as int]);
        if hit {
            match registry.get(rule.target_provider_id.as_str()) {
                Some(p) => {
                    targets.push(RouteTarget { provider: p, model: String::from_str(model) });
                },
                None => {},
            }
        }
        i = i + 1;
    }
    assert(rules@.take(n as int) =~= rules@);
    targets
}

/// The key's default provider alone, if it is registered.
fn default_target<P: Clone>(registry: &ProviderRegistry<P>, key: &KeyRouting, model: &str) -> (r:
    Option<Vec<RouteTarget<P>>>)
    requires
        registry.well_formed(),
    ensures
        r is Some <==> (default_id(*key) is Some && registry@.contains_key(default_id(*key)->0)),
        r matches Some(t) ==> targets_follow(t@, seq![default_id(*key)->0], registry@, model@),
{
    match &key.default_provider_id {
        Some(dp) => match registry.get(dp.as_str()) {
            Some(p) => {
                let mut t: Vec<RouteTarget<P>> = Vec::new();
                t.push(RouteTarget { provider: p, model: String::from_str(model) });
                Some(t)
            },
            None => None,
        },
        None => None,
    }
}

/// Failover mode: match model pattern → collect providers by priority DESC → default provider.
pub fn resolve_failover_targets<P: Clone>(
    registry: &ProviderRegistry<P>,
    rules: &Vec<RoutingRule>,
    key: &KeyRouting,
    model: &str,
) -> (r: Result<Vec<RouteTarget<P>>, RouteError>)
    requires
        registry.well_formed(),
    ensures
        resolution_follows(
            r,
            failover_route(rules@, registry@.dom(), *key, model@),
            registry@,
            model@,
            no_model_route_message(model@),
        ),
        r matches Ok(t) ==> t@.len() > 0,
{
    let targets = collect_targets(registry, rules, None, model);
    if targets.len() > 0 {
        return Ok(targets);
    }
    match default_target(registry, key, model) {
        Some(t) => Ok(t),
        None => {
            let mut msg = String::from_str("No provider found for model '");
            msg.append(model);
            msg.append("'");
            Err(RouteError::NoRoute(msg))
        },
    }
}

/// Content mode: given the request's category, match `@category` rules →
/// else `@general` rules → else the default provider.
pub fn resolve_content_targets<P: Clone>(
    registry: &ProviderRegistry<P>,
    rules: &Vec<RoutingRule>,
    key: &KeyRouting,
    category: &str,
    model: &str,
) -> (r: Result<Vec<RouteTarget<P>>, RouteError>)
    requires
        registry.well_formed(),
    ensures
        resolution_follows(
            r,
            content_route(rules@, registry@.dom(), *key, category@),
            registry@,
            model@,
            no_content_route_message(category@),
        ),
        r matches Ok(t) ==> t@.len() > 0,
{
    let pattern = String::from_str("@").concat(category);
    let mut targets = collect_targets(registry, rules, Some(&pattern), model);
    if targets.len() == 0 && !str_eq(category, "general") {
        let general = String::from_str("@general");
        targets = collect_targets(registry, rules, Some(&general), model);
    }
    if targets.len() > 0 {
        return Ok(targets);
    }
    match default_target(registry, key, model) {
        Some(t) => Ok(t),
        None => {
            let mut msg = String::from_str("No provider found for content type '@");
            msg.append(category);
            msg.append("'");
            Err(RouteError::NoRoute(msg))
        },
    }
}

/// Whether the key routes by request content rather than by model name.
pub open spec fn content_mode(key: KeyRouting) -> bool {
    key.routing_mode@ == "content"@
}

/// Resolve an ordered list of routing targets for a request.
///
/// - `failover` mode: match model name against routing rules, return providers by priority.
/// - `content` mode: match `@category` rules for the request's category, return providers by priority.
///
/// The caller should try each target in order (failover on error).
pub fn resolve_targets<P: Clone>(
    registry: &ProviderRegistry<P>,
    rules: &Vec<RoutingRule>,
    key: &KeyRouting,
    category: &str,
    model: &str,
) -> (r: Result<Vec<RouteTarget<P>>, RouteError>)
    requires
        registry.well_formed(),
    ensures
        content_mode(*key) ==> resolution_follows(
            r,
            content_route(rules@, registry@.dom(), *key, category@),
            registry@,
            model@,
            no_content_route_message(category@),
        ),
        !content_mode(*key) ==> resolution_follows(
            r,
            failover_route(rules@, registry@.dom(), *key, model@),
            registry@,
            model@,
            no_model_route_message(model@),
        ),
        r matches Ok(t) ==> t@.len() > 0,
{
    if str_eq(key.routing_mode.as_str(), "content") {
        resolve_content_targets(registry, rules, key, category, model)
    } else {
        resolve_failover_targets(registry, rules, key, model)
    }
}

/// The rule at `i` is wanted and names a registered provider.
pub open spec fn rule_selected(
    rules: Seq<RoutingRule>,
    registered: Set<Seq<char>>,
    wanted: spec_fn(Seq<char>) -> bool,
    i: int,
) -> bool {
    &&& 0 <= i < rules.len()
    &&& wanted(rules[i].model_pattern@)
    &&& registered.contains(rules[i].target_provider_id@)
}

/// A provider id is chosen exactly when some wanted rule with a registered
/// provider names it; every chosen id is registered.
pub proof fn lemma_selected_ids_are_the_selected_rules(
    rules: Seq<RoutingRule>,
    registered: Set<Seq<char>>,
    wanted: spec_fn(Seq<char>) -> bool,
    id: Seq<char>,
)
    ensures
        selected_ids(rules, registered, wanted).contains(id) <==> exists|i: int|
            #[trigger] rule_selected(rules, registered, wanted, i) && rules[i].target_provider_id@ == id,
        forall|k: int|
            0 <= k < selected_ids(rules, registered, wanted).len() ==> registered.contains(
                #[trigger] selected_ids(rules, registered, wanted)[k],
            ),
    decreases rules.len(),
{
    if rules.len() > 0 {
        let init = rules.drop_last();
        lemma_selected_ids_are_the_selected_rules(init, registered, wanted, id);
        let earlier = selected_ids(init, registered, wanted);
        let n = rules.len() - 1;
        assert forall|i: int| #[trigger] rule_selected(init, registered, wanted, i) implies rule_selected(
            rules,
            registered,
            wanted,
            i,
        ) by {
            assert(init[i] == rules[i]);
        }
        if selected_ids(rules, registered, wanted).contains(id) {
            if earlier.contains(id) {
                let i = choose|i: int|
                    #[trigger] rule_selected(init, registered, wanted, i) && init[i].target_provider_id@ == id;
                assert(rule_selected(rules, registered, wanted, i) && rules[i].target_provider_id@ == id);
            } else {
                let k = choose|k: int|
                    0 <= k < selected_ids(rules, registered, wanted).len()
                        && selected_ids(rules, registered, wanted)[k] == id;
                if k < earlier.len() {
                    assert(earlier[k] == id);
                    assert(earlier.contains(id));
                }
                assert(rule_selected(rules, registered, wanted, n) && rules[n].target_provider_id@ == id);
            }
        }
        if exists|i: int|
            #[trigger] rule_selected(rules, registered, wanted, i) && rules[i].target_provider_id@ == id {
            let i = choose|i: int|
                #[trigger] rule_selected(rules, registered, wanted, i) && rules[i].target_provider_id@ == id;
            if i < n {
                assert(rule_selected(init, registered, wanted, i) && init[i].target_provider_id@ == id);
                assert(earlier.contains(id));
                let k = choose|k: int| 0 <= k < earlier.len() && earlier[k] == id;
                assert(selected_ids(rules, registered, wanted)[k] == id);
            } else {
                let all = selected_ids(rules, registered, wanted);
                assert(all[all.len() - 1] == id);
            }
        }
    }
}

/// The first chosen provider is the one of the first (highest-priority) rule
/// that is wanted and names a registered provider.
pub proof fn lemma_highest_priority_first(
    rules: Seq<RoutingRule>,
    registered: Set<Seq<char>>,
    wanted: spec_fn(Seq<char>) -> bool,
    i: int,
)
    requires
        rule_selected(rules, registered, wanted, i),
        forall|j: int| 0 <= j < i ==> !#[trigger] rule_selected(rules, registered, wanted, j),
    ensures
        selected_ids(rules, registered, wanted).len() > 0,
        selected_ids(rules, registered, wanted)[0] == rules[i].target_provider_id@,
    decreases rules.len(),
{
    let init = rules.drop_last();
    let n = rules.len() - 1;
    if i < n {
        assert forall|j: int| 0 <= j < i implies !#[trigger] rule_selected(init, registered, wanted, j) by {
            assert(init[j] == rules[j]);
            assert(!rule_selected(rules, registered, wanted, j));
        }
        assert(init[i] == rules[i]);
        lemma_highest_priority_first(init, registered, wanted, i);
    } else {
        assert forall|j: int| 0 <= j < init.len() implies !#[trigger] rule_selected(init, registered, wanted, j) by {
            assert(init[j] == rules[j]);
            assert(!rule_selected(rules, registered, wanted, j));
        }
        lemma_none_selected(init, registered, wanted);
    }
}

/// No rule is selected, so nothing is chosen.
proof fn lemma_none_selected(rules: Seq<RoutingRule>, registered: Set<Seq<char>>, wanted: spec_fn(Seq<char>) -> bool)
    requires
        forall|j: int| 0 <= j < rules.len() ==> !#[trigger] rule_selected(rules, registered, wanted, j),
    ensures
        selected_ids(rules, registered, wanted).len() == 0,
    decreases rules.len(),
{
    if rules.len() > 0 {
        let init = rules.drop_last();
        assert forall|j: int| 0 <= j < init.len() implies !#[trigger] rule_selected(init, registered, wanted, j) by {
            assert(init[j] == rules[j]);
            assert(!rule_selected(rules, registered, wanted, j));
        }
        lemma_none_selected(init, registered, wanted);
        assert(!rule_selected(rules, registered, wanted, rules.len() - 1));
    }
}

/// A resolved route is never empty and names registered providers only.
pub proof fn lemma_routes_name_registered_providers(
    rules: Seq<RoutingRule>,
    registered: Set<Seq<char>>,
    key: KeyRouting,
    model: Seq<char>,
    category: Seq<char>,
)
    ensures
        failover_route(rules, registered, key, model) matches Some(ids) ==> ids.len() > 0 && forall|k: int|
            0 <= k < ids.len() ==> registered.contains(#[trigger] ids[k]),
        content_route(rules, registered, key, category) matches Some(ids) ==> ids.len() > 0 && forall|k: int|
            0 <= k < ids.len() ==> registered.contains(#[trigger] ids[k]),
{
    lemma_selected_ids_are_the_selected_rules(rules, registered, pattern_accepts(model), Seq::empty());
    lemma_selected_ids_are_the_selected_rules(rules, registered, pattern_is("@"@ + category), Seq::empty());
    lemma_selected_ids_are_the_selected_rules(rules, registered, pattern_is("@general"@), Seq::empty());
}

/// The default provider is used only when no rule yields a registered
/// provider; then it is the only target.
pub proof fn lemma_default_only_as_last_resort(
    rules: Seq<RoutingRule>,
    registered: Set<Seq<char>>,
    key: KeyRouting,
    model: Seq<char>,
)
    ensures
        selected_ids(rules, registered, pattern_accepts(model)).len() > 0 ==> failover_route(
            rules,
            registered,
            key,
            model,
        ) == Some(selected_ids(rules, registered, pattern_accepts(model))),
        selected_ids(rules, registered, pattern_accepts(model)).len() == 0 ==> failover_route(
            rules,
            registered,
            key,
            model,
        ) == (if default_id(key) is Some && registered.contains(default_id(key)->0) {
            Some(seq![default_id(key)->0])
        } else {
            None::<Seq<Seq<char>>>
        }),
{
}

/// A catch-all rule `*` with a registered provider means failover mode always
/// finds a route.
pub proof fn lemma_catch_all_always_routes(
    rules: Seq<RoutingRule>,
    registered: Set<Seq<char>>,
    key: KeyRouting,
    model: Seq<char>,
    i: int,
)
    requires
        0 <= i < rules.len(),
        rules[i].model_pattern@ == seq!['*'],
        registered.contains(rules[i].target_provider_id@),
    ensures
        failover_route(rules, registered, key, model) is Some,
{
    assert(rule_selected(rules, registered, pattern_accepts(model), i));
    lemma_selected_ids_are_the_selected_rules(
        rules,
        registered,
        pattern_accepts(model),
        rules[i].target_provider_id@,
    );
}

/// Content mode falls back to the `@general` rules exactly when the category
/// is not `general` and no `@category` rule names a registered provider.
pub proof fn lemma_general_fallback(rules: Seq<RoutingRule>, registered: Set<Seq<char>>, category: Seq<char>)
    ensures
        (forall|i: int| !#[trigger] rule_selected(rules, registered, pattern_is("@"@ + category), i))
            && category != "general"@ ==> content_ids(rules, registered, category) == selected_ids(
            rules,
            registered,
            pattern_is("@general"@),
        ),
        (exists|i: int| #[trigger] rule_selected(rules, registered, pattern_is("@"@ + category), i))
            ==> content_ids(rules, registered, category) == selected_ids(
            rules,
            registered,
            pattern_is("@"@ + category),
        ),
{
    let own = pattern_is("@"@ + category);
    if forall|i: int| !#[trigger] rule_selected(rules, registered, own, i) {
        lemma_none_selected(rules, registered, own);
    }
    if exists|i: int| #[trigger] rule_selected(rules, registered, own, i) {
        let i = choose|i: int| #[trigger] rule_selected(rules, registered, own, i);
        lemma_selected_ids_are_the_selected_rules(rules, registered, own, rules[i].target_provider_id@);
    }
}

/// The provider id of a rule when `keep` holds of it.
pub open spec fn id_if(keep: bool, r: RoutingRule) -> Option<Seq<char>> {
    if keep {
        Some(r.target_provider_id@)
    } else {
        None
    }
}

/// The chosen ids are, one per rule and in rule order, the providers of the
/// rules that are wanted and name a registered provider.
pub proof fn lemma_selected_ids_keep_every_rule_in_order(
    rules: Seq<RoutingRule>,
    registered: Set<Seq<char>>,
    wanted: spec_fn(Seq<char>) -> bool,
)
    ensures
        selected_ids(rules, registered, wanted) == rules.filter_map(
            |r: RoutingRule| id_if(wanted(r.model_pattern@) && registered.contains(r.target_provider_id@), r),
        ),
    decreases rules.len(),
{
    let f = |r: RoutingRule| id_if(wanted(r.model_pattern@) && registered.contains(r.target_provider_id@), r);
    if rules.len() > 0 {
        lemma_selected_ids_keep_every_rule_in_order(rules.drop_last(), registered, wanted);
        let rest = rules.drop_last().filter_map(f);
        if f(rules.last()) is Some {
            assert(rest + seq![rules.last().target_provider_id@] =~= rest.push(rules.last().target_provider_id@));
        }
    } else {
        assert(rules.filter_map(f) =~= Seq::<Seq<char>>::empty());
    }
}

/// Content mode: when some `@category` rule names a registered provider, the
/// route is the providers of all such rules, one per rule, in priority order.
pub proof fn lemma_content_mode_keeps_every_category_rule(
    rules: Seq<RoutingRule>,
    registered: Set<Seq<char>>,
    key: KeyRouting,
    category: Seq<char>,
    i: int,
)
    requires
        0 <= i < rules.len(),
        rules[i].model_pattern@ == "@"@ + category,
        registered.contains(rules[i].target_provider_id@),
    ensures
        content_route(rules, registered, key, category) == Some(
            rules.filter_map(
                |r: RoutingRule|
                    id_if(r.model_pattern@ == "@"@ + category && registered.contains(r.target_provider_id@), r),
            ),
        ),
{
    let own = pattern_is("@"@ + category);
    assert(rule_selected(rules, registered, own, i));
    lemma_selected_ids_are_the_selected_rules(rules, registered, own, rules[i].target_provider_id@);
    lemma_selected_ids_keep_every_rule_in_order(rules, registered, own);
    let f1 = |r: RoutingRule| id_if(own(r.model_pattern@) && registered.contains(r.target_provider_id@), r);
    let f2 = |r: RoutingRule|
        id_if(r.model_pattern@ == "@"@ + category && registered.contains(r.target_provider_id@), r);
    assert(f1 =~= f2);
}

/// Failover mode: when some rule's pattern matches the model and names a
/// registered provider, the route is the providers of all such rules, one per
/// rule, in priority order.
pub proof fn lemma_failover_keeps_every_matching_rule(
    rules: Seq<RoutingRule>,
    registered: Set<Seq<char>>,
    key: KeyRouting,
    model: Seq<char>,
    i: int,
)
    requires
        0 <= i < rules.len(),
        pattern_matches(rules[i].model_pattern@, model),
        registered.contains(rules[i].target_provider_id@),
    ensures
        failover_route(rules, registered, key, model) == Some(
            rules.filter_map(
                |r: RoutingRule|
                    id_if(
                        pattern_matches(r.model_pattern@, model) && registered.contains(r.target_provider_id@),
                        r,
                    ),
            ),
        ),
{
    let w = pattern_accepts(model);
    assert(rule_selected(rules, registered, w, i));
    lemma_selected_ids_are_the_selected_rules(rules, registered, w, rules[i].target_provider_id@);
    lemma_selected_ids_keep_every_rule_in_order(rules, registered, w);
    let f1 = |r: RoutingRule| id_if(w(r.model_pattern@) && registered.contains(r.target_provider_id@), r);
    let f2 = |r: RoutingRule|
        id_if(pattern_matches(r.model_pattern@, model) && registered.contains(r.target_provider_id@), r);
    assert(f1 =~= f2);
}

} // verus!
