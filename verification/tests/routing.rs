use louter::router::static_router::{match_pattern, ProviderRegistry};
use louter::router::{
    resolve_content_targets, resolve_failover_targets, resolve_targets, KeyRouting, RouteError,
    RoutingRule,
};

fn rule(pattern: &str, provider: &str) -> RoutingRule {
    RoutingRule { model_pattern: pattern.to_string(), target_provider_id: provider.to_string() }
}

fn key(mode: &str, default: Option<&str>) -> KeyRouting {
    KeyRouting { routing_mode: mode.to_string(), default_provider_id: default.map(|d| d.to_string()) }
}

fn registry(ids: &[&str]) -> ProviderRegistry<String> {
    let mut r = ProviderRegistry::new();
    for id in ids {
        r.register(id.to_string(), format!("provider:{id}"));
    }
    r
}

fn providers(r: Result<Vec<louter::router::RouteTarget<String>>, RouteError>) -> Vec<String> {
    match r {
        Ok(t) => t.into_iter().map(|t| t.provider).collect(),
        Err(RouteError::NoRoute(m)) => panic!("unexpected error {m}"),
    }
}

fn error_message<P>(r: Result<Vec<louter::router::RouteTarget<P>>, RouteError>) -> String {
    match r {
        Ok(_) => panic!("expected an error"),
        Err(RouteError::NoRoute(m)) => m,
    }
}

#[test]
fn wildcard_matches_everything() {
    assert!(match_pattern("*", "sonnet-4-20250514"));
    assert!(match_pattern("*", ""));
}

#[test]
fn prefix_patterns_from_the_readme() {
    assert!(match_pattern("sonnet-*", "sonnet-4-20250514"));
    assert!(match_pattern("gpt-*", "gpt-4o"));
    assert!(match_pattern("o1-*", "o1-mini"));
    assert!(match_pattern("deepseek-*", "deepseek-chat"));
    assert!(match_pattern("llama*", "llama3.1:8b"));
    assert!(match_pattern("mistral*", "mistral"));
    assert!(!match_pattern("sonnet-*", "gpt-4o"));
    assert!(!match_pattern("gpt-*", "gpt"));
}

#[test]
fn suffix_and_exact_patterns() {
    assert!(match_pattern("*-mini", "o1-mini"));
    assert!(!match_pattern("*-mini", "o1-preview"));
    assert!(match_pattern("gpt-4o", "gpt-4o"));
    assert!(!match_pattern("gpt-4o", "gpt-4o-mini"));
    assert!(!match_pattern("", "gpt"));
    assert!(match_pattern("", ""));
}

#[test]
fn trailing_star_wins_over_leading_star() {
    // "*a*" is a prefix pattern for "*a"
    assert!(match_pattern("*a*", "*abc"));
    assert!(!match_pattern("*a*", "xa"));
}

#[test]
fn non_ascii_patterns() {
    assert!(match_pattern("模型-*", "模型-大"));
    assert!(match_pattern("*翻译", "中文翻译"));
    assert!(!match_pattern("*翻译", "翻"));
}

#[test]
fn registry_register_get_remove() {
    let mut r: ProviderRegistry<String> = ProviderRegistry::new();
    assert_eq!(r.get("openai"), None);
    r.register("openai".to_string(), "a".to_string());
    r.register("anthropic".to_string(), "b".to_string());
    assert_eq!(r.get("openai"), Some("a".to_string()));
    r.register("openai".to_string(), "c".to_string());
    assert_eq!(r.get("openai"), Some("c".to_string()));
    assert_eq!(r.get("anthropic"), Some("b".to_string()));
    r.remove("openai");
    assert_eq!(r.get("openai"), None);
    assert_eq!(r.get("anthropic"), Some("b".to_string()));
    r.remove("missing");
    let mut all = r.all();
    all.sort();
    assert_eq!(all, vec![("anthropic".to_string(), "b".to_string())]);
}

#[test]
fn registry_all_lists_each_id_once() {
    let mut r: ProviderRegistry<u32> = ProviderRegistry::new();
    r.register("x".to_string(), 1);
    r.register("y".to_string(), 2);
    r.register("x".to_string(), 3);
    let mut all = r.all();
    all.sort();
    assert_eq!(all, vec![("x".to_string(), 3), ("y".to_string(), 2)]);
}

#[test]
fn failover_follows_priority_order_from_the_readme() {
    let reg = registry(&["anthropic", "openai", "ollama"]);
    let rules = vec![rule("sonnet-*", "anthropic"), rule("sonnet-*", "openai"), rule("*", "ollama")];
    let k = key("failover", None);
    let r = resolve_failover_targets(&reg, &rules, &k, "sonnet-4-20250514");
    assert_eq!(
        providers(r),
        vec!["provider:anthropic", "provider:openai", "provider:ollama"]
    );
    let r = resolve_failover_targets(&reg, &rules, &k, "gpt-4o");
    assert_eq!(providers(r), vec!["provider:ollama"]);
}

#[test]
fn failover_targets_carry_the_requested_model() {
    let reg = registry(&["openai"]);
    let rules = vec![rule("gpt-*", "openai")];
    let targets = resolve_failover_targets(&reg, &rules, &key("failover", None), "gpt-4o").ok().unwrap();
    assert_eq!(targets.len(), 1);
    assert_eq!(targets[0].model, "gpt-4o");
}

#[test]
fn failover_skips_unregistered_providers() {
    let reg = registry(&["ollama"]);
    let rules = vec![rule("sonnet-*", "anthropic"), rule("sonnet-*", "ollama")];
    let r = resolve_failover_targets(&reg, &rules, &key("failover", None), "sonnet-3");
    assert_eq!(providers(r), vec!["provider:ollama"]);
}

#[test]
fn failover_falls_back_to_default_provider() {
    let reg = registry(&["openai", "ollama"]);
    let rules = vec![rule("sonnet-*", "anthropic")];
    let r = resolve_failover_targets(&reg, &rules, &key("failover", Some("ollama")), "mistral");
    assert_eq!(providers(r), vec!["provider:ollama"]);
}

#[test]
fn failover_without_route_reports_the_model() {
    let reg = registry(&["openai"]);
    let rules = vec![rule("sonnet-*", "openai")];
    let r = resolve_failover_targets(&reg, &rules, &key("failover", Some("gone")), "mistral");
    assert_eq!(error_message(r), "No provider found for model 'mistral'");
    let r = resolve_failover_targets(&reg, &Vec::new(), &key("failover", None), "x");
    assert_eq!(error_message(r), "No provider found for model 'x'");
}

#[test]
fn content_mode_routes_by_category() {
    let reg = registry(&["anthropic", "deepseek", "ollama"]);
    let rules = vec![
        rule("@code", "anthropic"),
        rule("@math", "deepseek"),
        rule("@general", "ollama"),
    ];
    let k = key("content", None);
    let r = resolve_content_targets(&reg, &rules, &k, "code", "gpt-4o");
    assert_eq!(providers(r), vec!["provider:anthropic"]);
    let r = resolve_content_targets(&reg, &rules, &k, "math", "gpt-4o");
    assert_eq!(providers(r), vec!["provider:deepseek"]);
}

#[test]
fn content_mode_falls_back_to_general_then_default() {
    let reg = registry(&["ollama", "openai"]);
    let rules = vec![rule("@general", "ollama"), rule("@code", "anthropic")];
    let k = key("content", Some("openai"));
    // no registered @code provider: @general
    let r = resolve_content_targets(&reg, &rules, &k, "code", "m");
    assert_eq!(providers(r), vec!["provider:ollama"]);
    // no @general rule at all: default
    let rules = vec![rule("@code", "anthropic")];
    let r = resolve_content_targets(&reg, &rules, &k, "translation", "m");
    assert_eq!(providers(r), vec!["provider:openai"]);
}

#[test]
fn content_mode_error_names_the_category() {
    let reg = registry(&[]);
    let r = resolve_content_targets(&reg, &Vec::new(), &key("content", None), "tool_call", "m");
    assert_eq!(error_message(r), "No provider found for content type '@tool_call'");
}

#[test]
fn content_rules_compare_whole_pattern() {
    let reg = registry(&["a"]);
    let rules = vec![rule("@code*", "a"), rule("code", "a")];
    let r = resolve_content_targets(&reg, &rules, &key("content", None), "code", "m");
    assert_eq!(error_message(r), "No provider found for content type '@code'");
}

#[test]
fn resolve_targets_dispatches_on_routing_mode() {
    let reg = registry(&["anthropic", "ollama"]);
    let rules = vec![rule("@code", "anthropic"), rule("sonnet-*", "ollama")];
    let r = resolve_targets(&reg, &rules, &key("content", None), "code", "sonnet-3");
    assert_eq!(providers(r), vec!["provider:anthropic"]);
    let r = resolve_targets(&reg, &rules, &key("failover", None), "code", "sonnet-3");
    assert_eq!(providers(r), vec!["provider:ollama"]);
    let r = resolve_targets(&reg, &rules, &key("Content", None), "code", "sonnet-3");
    assert_eq!(providers(r), vec!["provider:ollama"]);
}
