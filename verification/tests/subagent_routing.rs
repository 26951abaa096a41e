use atomcode_coding::config::{CodingAgentConfig, ResolvedModel};
use atomcode_coding::goal_evaluator::build_goal_evaluator_provider;
use atomcode_coding::owner::reconfigure::{route_subagents, RoutingStep};
use atomcode_coding::subagent_tiers::{resolve_tier_keys, CatalogModel};

fn pc(id: &str, model: &str, capable: Option<i64>) -> CatalogModel {
    CatalogModel { id: id.into(), model: model.into(), capable_model: capable }
}

#[test]
fn routes_by_capable_rank_when_host_participates() {
    let models = vec![
        pc("p-ds", "deepseek-v4-flash", Some(0)),
        pc("p-glm", "GLM-5.2", Some(1)),
    ];
    assert_eq!(
        resolve_tier_keys(&models, "GLM-5.2"),
        Some(("p-ds".to_string(), "p-glm".to_string()))
    );
}

#[test]
fn self_config_host_does_not_route() {
    let models = vec![
        pc("mine", "my-local-model", None),
        pc("p-ds", "deepseek-v4-flash", Some(0)),
        pc("p-glm", "GLM-5.2", Some(1)),
    ];
    assert_eq!(resolve_tier_keys(&models, "my-local-model"), None);
}

#[test]
fn single_participant_does_not_route() {
    let models = vec![pc("p-glm", "GLM-5.2", Some(1))];
    assert_eq!(resolve_tier_keys(&models, "GLM-5.2"), None);
}

#[test]
fn three_participants_use_rank_extremes() {
    let models = vec![
        pc("a", "m-a", Some(0)),
        pc("b", "m-b", Some(5)),
        pc("c", "m-c", Some(2)),
    ];
    assert_eq!(
        resolve_tier_keys(&models, "m-b"),
        Some(("a".to_string(), "b".to_string()))
    );
}

#[test]
fn no_participants_does_not_route() {
    let models = vec![pc("mine", "x", None)];
    assert_eq!(resolve_tier_keys(&models, "x"), None);
}

#[test]
fn new_schema_routes_by_per_model_capable_rank_on_one_account() {
    let models = vec![
        pc("acc/cap", "deepseek-max", Some(5)),
        pc("acc/fast", "deepseek-flash", Some(0)),
    ];
    assert_eq!(
        resolve_tier_keys(&models, "deepseek-max"),
        Some(("acc/fast".to_string(), "acc/cap".to_string()))
    );
}

#[test]
fn equal_ranks_are_told_apart_by_id() {
    let models = vec![
        pc("b", "m", Some(3)),
        pc("é", "n", Some(3)),
        pc("a", "o", Some(3)),
        pc("ab", "p", Some(3)),
    ];
    assert_eq!(
        resolve_tier_keys(&models, "m"),
        Some(("a".to_string(), "é".to_string()))
    );
}

fn tier_provider(model: &str) -> ResolvedModel {
    ResolvedModel {
        model: model.into(),
        provider_type: "openai".into(),
        context_window: 64_000,
        max_tokens: None,
        thinking_type: None,
        thinking_keep: None,
        reasoning_history: None,
        thinking_enabled: None,
        user_agent: None,
        skip_tls_verify: false,
        api_key: Some("key".into()),
        base_url: Some("https://example.test/v1".into()),
    }
}

fn host(model: &str) -> CodingAgentConfig {
    CodingAgentConfig::new("key", "https://example.test/v1", model, ".")
}

fn tried(candidates: &[CodingAgentConfig], failing: Option<&str>) -> Vec<String> {
    let mut models = Vec::new();
    for candidate in candidates {
        models.push(candidate.model.clone());
        if failing != Some(candidate.model.as_str()) {
            break;
        }
    }
    models
}

#[test]
fn goal_evaluator_uses_configured_provider() {
    let candidates = build_goal_evaluator_provider(
        &host("host-model"),
        &Some("judge".into()),
        &Some(tier_provider("judge-model")),
    );
    assert_eq!(tried(&candidates, None), ["judge-model"]);
}

#[test]
fn goal_evaluator_falls_back_to_host_when_configured_provider_fails() {
    let candidates = build_goal_evaluator_provider(
        &host("host-model"),
        &Some("judge".into()),
        &Some(tier_provider("judge-model")),
    );
    assert_eq!(tried(&candidates, Some("judge-model")), ["judge-model", "host-model"]);
}

#[test]
fn goal_evaluator_never_inherits_host_endpoint_or_credentials() {
    let mut judge = tier_provider("judge-model");
    judge.base_url = Some("https://judge.example/v1".into());
    judge.api_key = None;
    let mut owner = host("host-model");
    owner.base_url = "https://host.example/v1".into();
    owner.api_key = "host-secret".into();
    owner.subagent_fast_provider = Some(5);
    let candidates = build_goal_evaluator_provider(&owner, &Some("judge".into()), &Some(judge));
    let first = &candidates[0];
    assert_eq!(
        (first.provider_name.as_str(), first.base_url.as_str(), first.api_key.as_str()),
        ("judge", "https://judge.example/v1", "")
    );
    assert_eq!(first.subagent_fast_provider, None);
    assert_eq!(first.working_dir, ".");
}

#[test]
fn an_unresolved_evaluator_leaves_only_the_host() {
    let owner = host("host-model");
    assert_eq!(
        build_goal_evaluator_provider(&owner, &Some("judge".into()), &None),
        vec![owner.clone()]
    );
    assert_eq!(
        build_goal_evaluator_provider(&owner, &None, &Some(tier_provider("judge-model"))),
        vec![owner]
    );
}

#[test]
fn evaluator_windows_are_cut_to_words() {
    let mut judge = tier_provider("judge-model");
    judge.context_window = (1 << 32) + 5;
    judge.max_tokens = Some(1 << 33);
    let candidates = build_goal_evaluator_provider(&host("h"), &Some("j".into()), &Some(judge));
    assert_eq!(candidates[0].context_window, 5);
    assert_eq!(candidates[0].max_tokens, Some(0));
}

#[test]
fn a_new_provider_keeps_the_subagent_providers() {
    let mut current = host("old");
    current.subagent_config = Some(1);
    current.subagent_fast_provider = Some(7);
    let (next, step) = route_subagents(host("new"), &current);
    assert_eq!(step, RoutingStep::Refresh);
    assert_eq!((next.model.as_str(), next.subagent_config), ("new", Some(1)));
    assert_eq!((next.subagent_fast_provider, next.subagent_capable_provider), (Some(7), None));
    let mut own = host("new");
    own.subagent_config = Some(2);
    own.subagent_capable_provider = Some(9);
    let (next, _) = route_subagents(own, &current);
    assert_eq!(next.subagent_config, Some(2), "its own table goes first");
    assert_eq!(next.subagent_capable_provider, None, "the providers are the current ones");
    current.subagent_fast_provider = None;
    assert_eq!(route_subagents(host("new"), &current).1, RoutingStep::Install);
    current.subagent_config = None;
    assert_eq!(route_subagents(host("new"), &current).1, RoutingStep::Nothing);
}
