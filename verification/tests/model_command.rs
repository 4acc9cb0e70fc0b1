use grok_pager::commands::{Action, CommandResult, ReasoningEffort};
use grok_pager::models::{
    model_completion_search_text, model_completion_token, model_detail_title, resolve_by_name_or_id,
    uses_pi_model_picker_search, AppCtx, CommandExecCtx, ModelCommand, ModelInfo, ModelState,
};

fn catalog(id: &str) -> (String, String, String) {
    let catalog_id = if id.contains("::") { id.to_string() } else { format!("test::{id}") };
    let (provider, bare) = catalog_id.split_once("::").map(|(p, m)| (p.to_string(), m.to_string())).unwrap();
    (catalog_id, provider, bare)
}

fn model_with_reasoning(id: &str, name: &str) -> ModelInfo {
    let (catalog_id, provider, bare) = catalog(id);
    ModelInfo {
        id: catalog_id,
        name: name.to_string(),
        provider: Some(provider),
        model_id: Some(bare),
        supports_reasoning_effort: true,
        effort_options: vec![ReasoningEffort::Low, ReasoningEffort::Medium, ReasoningEffort::High, ReasoningEffort::Xhigh],
    }
}

fn plain_model(id: &str, name: &str) -> ModelInfo {
    let (catalog_id, provider, bare) = catalog(id);
    ModelInfo {
        id: catalog_id,
        name: name.to_string(),
        provider: Some(provider),
        model_id: Some(bare),
        supports_reasoning_effort: false,
        effort_options: Vec::new(),
    }
}

fn state_with(models: Vec<ModelInfo>) -> ModelState {
    let mut state = ModelState::default();
    state.available = models;
    state
}

#[test]
fn trailing_space_after_reasoning_model_enters_effort_phase() {
    let state = state_with(vec![model_with_reasoning("reasoning-x", "Reasoning X")]);
    let ctx = AppCtx { models: &state };
    let items = ModelCommand.suggest_args(&ctx, "test/reasoning-x ").unwrap();
    assert_eq!(items.len(), 4);
    assert_eq!(items[0].insert_text, "test/reasoning-x xhigh");
    assert_eq!(items[1].insert_text, "test/reasoning-x high");
    assert_eq!(items[2].insert_text, "test/reasoning-x medium");
    assert_eq!(items[3].insert_text, "test/reasoning-x low");
    assert_eq!(items[0].display, "xhigh");
    assert!(items[0].match_text.starts_with("a "));
    assert!(items[3].match_text.starts_with("d "));
}

#[test]
fn partial_effort_query_still_in_effort_phase() {
    let state = state_with(vec![model_with_reasoning("reasoning-x", "Reasoning X")]);
    let ctx = AppCtx { models: &state };
    let items = ModelCommand.suggest_args(&ctx, "test/reasoning-x h").unwrap();
    assert_eq!(items.len(), 4);
}

#[test]
fn partial_model_query_stays_in_model_phase() {
    let state = state_with(vec![model_with_reasoning("reasoning-x", "Reasoning X")]);
    let ctx = AppCtx { models: &state };
    let items = ModelCommand.suggest_args(&ctx, "reason").unwrap();
    assert_eq!(items.len(), 1);
    assert_eq!(items[0].insert_text, "test/reasoning-x ");
    assert!(uses_pi_model_picker_search(&state, "reason"));
    assert!(!uses_pi_model_picker_search(&state, "test/reasoning-x h"));
}

#[test]
fn model_completion_search_text_matches_pi_get_model_search_text() {
    let info = ModelInfo {
        id: "openai-codex::gpt-5.5".to_string(),
        name: "GPT 5.5".to_string(),
        provider: None,
        model_id: None,
        supports_reasoning_effort: false,
        effort_options: Vec::new(),
    };
    assert_eq!(
        model_completion_search_text(&info),
        "gpt-5.5 openai-codex openai-codex/gpt-5.5 openai-codex gpt-5.5 GPT 5.5"
    );
    assert_eq!(model_completion_token(&info), "openai-codex/gpt-5.5");
}

#[test]
fn run_parses_model_plus_effort_when_supported() {
    let state = state_with(vec![model_with_reasoning("reasoning-x", "Reasoning X")]);
    let ctx = CommandExecCtx { models: &state, plan_mode_active: false };
    match ModelCommand.run(&ctx, "test/reasoning-x xhigh") {
        CommandResult::Action(Action::SwitchModel { model_id, effort }) => {
            assert_eq!(model_id, "test::reasoning-x");
            assert_eq!(effort, Some(ReasoningEffort::Xhigh));
        }
        other => panic!("expected SwitchModel with effort, got {other:?}"),
    }
}

#[test]
fn run_rejects_unoffered_effort_with_effort_error_not_unknown_model() {
    let state = state_with(vec![model_with_reasoning("reasoning-x", "Reasoning X")]);
    let ctx = CommandExecCtx { models: &state, plan_mode_active: false };
    match ModelCommand.run(&ctx, "test/reasoning-x none") {
        CommandResult::Error(msg) => {
            assert!(msg.contains("unknown effort level 'none'"), "expected effort error, got {msg}");
            assert!(msg.contains("use one of:"), "expected offered levels in message, got {msg}");
            assert!(!msg.to_lowercase().contains("unknown model"), "must not misreport as unknown model: {msg}");
            let offered = msg.split_once("; ").map(|(_, r)| r).unwrap_or("");
            assert!(!offered.contains("none"), "must not list none as offered: {msg}");
        }
        other => panic!("expected Error, got {other:?}"),
    }
}

#[test]
fn run_prefers_full_multi_word_model_name_over_prefix_plus_effort() {
    let state = state_with(vec![model_with_reasoning("grok", "Grok"), model_with_reasoning("grok-4.5", "Grok 4.5")]);
    let ctx = CommandExecCtx { models: &state, plan_mode_active: false };
    match ModelCommand.run(&ctx, "Grok 4.5") {
        CommandResult::Action(Action::SetDefaultModel(resolved_id)) => {
            assert_eq!(resolved_id, "test::grok-4.5");
        }
        other => panic!("expected SetDefaultModel(Grok 4.5), got {other:?}"),
    }
}

#[test]
fn run_rejects_effort_for_non_reasoning_model() {
    let state = state_with(vec![plain_model("grok-4.5", "Grok 4.5")]);
    let ctx = CommandExecCtx { models: &state, plan_mode_active: false };
    assert!(matches!(ModelCommand.run(&ctx, "Grok 4.5 high"), CommandResult::Error(_)));
}

#[test]
fn run_bare_model_name_dispatches_set_default_model() {
    let state = state_with(vec![plain_model("grok-4.5", "Grok 4.5")]);
    let ctx = CommandExecCtx { models: &state, plan_mode_active: false };
    match ModelCommand.run(&ctx, "Grok 4.5") {
        CommandResult::Action(Action::SetDefaultModel(resolved_id)) => assert_eq!(resolved_id, "test::grok-4.5"),
        other => panic!("expected Action::SetDefaultModel(<id>), got {other:?}"),
    }
}

#[test]
fn run_set_default_model_resolves_case_insensitively() {
    let state = state_with(vec![plain_model("grok-4.5", "Grok 4.5")]);
    let ctx = CommandExecCtx { models: &state, plan_mode_active: false };
    match ModelCommand.run(&ctx, "grok 4.5") {
        CommandResult::Action(Action::SetDefaultModel(resolved_id)) => assert_eq!(resolved_id, "test::grok-4.5"),
        other => panic!("expected Action::SetDefaultModel(<id>), got {other:?}"),
    }
}

#[test]
fn unknown_model_is_reported_with_the_typed_text() {
    let state = state_with(vec![plain_model("grok-4.5", "Grok 4.5")]);
    let ctx = CommandExecCtx { models: &state, plan_mode_active: false };
    match ModelCommand.run(&ctx, "  nothing-here ") {
        CommandResult::Error(msg) => assert_eq!(msg, "Unknown model: nothing-here"),
        other => panic!("expected Error, got {other:?}"),
    }
}

#[test]
fn no_catalog_means_no_suggestions() {
    let state = ModelState::default();
    let ctx = AppCtx { models: &state };
    assert!(ModelCommand.suggest_args(&ctx, "").is_none());
}

#[test]
fn model_rows_show_provider_and_disambiguate_duplicate_names() {
    let acme = plain_model("acme::nova-lite-2", "Nova Lite 2");
    let relay = plain_model("relay::nova-lite-2", "Nova Lite 2");
    let state = state_with(vec![acme, relay]);
    let ctx = AppCtx { models: &state };
    let items = ModelCommand.suggest_args(&ctx, "").unwrap();
    assert_eq!(items.len(), 2);
    let a = items.iter().find(|i| i.description == "acme").unwrap();
    assert_eq!(a.display, "Nova Lite 2 · acme");
    assert_eq!(a.insert_text, "acme/nova-lite-2");
    let o = items.iter().find(|i| i.description == "relay").unwrap();
    assert_eq!(o.display, "Nova Lite 2 · relay");
    assert_eq!(o.insert_text, "relay/nova-lite-2");
}

#[test]
fn detail_title_names_the_provider_and_a_differing_id() {
    let m = plain_model("acme::nova-lite-2", "Nova Lite 2");
    assert_eq!(model_detail_title(&m), "Nova Lite 2  [acme]  ·  nova-lite-2");
    let same = ModelInfo {
        id: "grok-4".to_string(),
        name: "grok-4".to_string(),
        provider: None,
        model_id: None,
        supports_reasoning_effort: false,
        effort_options: Vec::new(),
    };
    assert_eq!(model_detail_title(&same), "grok-4");
}

#[test]
fn a_model_is_resolved_by_id_name_or_token() {
    let state = state_with(vec![plain_model("acme::nova-lite-2", "Nova Lite 2"), plain_model("grok-4.5", "Grok 4.5")]);
    assert_eq!(resolve_by_name_or_id(&state, "acme::nova-lite-2").as_deref(), Some("acme::nova-lite-2"));
    assert_eq!(resolve_by_name_or_id(&state, "nova lite 2").as_deref(), Some("acme::nova-lite-2"));
    assert_eq!(resolve_by_name_or_id(&state, "TEST/grok-4.5").as_deref(), Some("test::grok-4.5"));
    assert_eq!(resolve_by_name_or_id(&state, "nova"), None);
    assert!(ModelCommand.offered_when_session_less());
}

#[test]
fn empty_query_returns_one_row_per_logical_model() {
    let mut state = state_with(vec![
        model_with_reasoning("reasoning-x", "Reasoning X"),
        plain_model("grok-4.5", "Grok 4.5"),
    ]);
    state.current = Some("test::grok-4.5".to_string());
    let ctx = AppCtx { models: &state };
    let items = ModelCommand.suggest_args(&ctx, "").unwrap();
    assert_eq!(items.len(), 2, "model phase: one row per logical model");
    assert!(items[0].display.contains("(current)"));

    let reasoning = items.iter().find(|i| i.insert_text.starts_with("test/reasoning-x")).unwrap();
    assert_eq!(reasoning.insert_text, "test/reasoning-x ");
    assert_eq!(reasoning.display, "Reasoning X · test");
    assert_eq!(reasoning.description, "test");

    let plain = items.iter().find(|i| i.insert_text == "test/grok-4.5").unwrap();
    assert_eq!(plain.insert_text, "test/grok-4.5");
    assert!(plain.display.contains("grok-4.5"));
    assert!(plain.display.contains("(current)"));
    assert_eq!(plain.description, "test");
}

