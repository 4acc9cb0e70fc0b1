use grok_pager::interactions::{
    decide_ask_user_question, displaced_question_notice, plan_approval_prompt, AskPlan, AskRouting, Json,
    LocalQuestionTag,
};
use grok_pager::model_details::{format_input_short, format_protocol_short, model_picker_detail_lines, DetailFacts};
use grok_pager::pi_settings::display::value_text;
use grok_pager::pi_settings::rows::RuntimeGates;
use grok_pager::pi_settings::state::{live_defaults, CodingDataSharingLock, PagerSnapshot, PiSettingsState};
use grok_pager::settings::catalog::CatalogDefaults;
use grok_pager::settings::registry::{SettingValue, SettingsRegistry};

fn obj(members: Vec<(&str, Json)>) -> Json {
    Json::Object(members.into_iter().map(|(k, v)| (k.to_string(), v)).collect())
}

fn registry() -> SettingsRegistry {
    SettingsRegistry::defaults(&CatalogDefaults {
        on_windows: false,
        remember_tool_approvals: true,
        respect_manual_folds: true,
        side_by_side_edit: false,
        display_refresh_auto_cadence: true,
        ask_user_question_timeout_enabled: true,
    })
}

fn state() -> PiSettingsState {
    let registry = registry();
    let values = live_defaults(&registry);
    let gates = RuntimeGates { kitty_releases: false, minimal: false, voice_mode: false, external_agent: false };
    PiSettingsState::new(registry, values, PagerSnapshot::empty(), gates)
}

#[test]
fn protocol_and_input_labels_are_short() {
    assert_eq!(format_protocol_short("anthropic-messages"), Some("anth"));
    assert_eq!(format_protocol_short("openai-codex-responses"), Some("resp"));
    assert_eq!(format_protocol_short("smoke-signals"), None);
    let listed = obj(vec![(
        "inputModalities",
        Json::Array(vec![Json::Str("IMAGE".into()), Json::Str("text".into()), Json::Null]),
    )]);
    assert_eq!(format_input_short(Some(&listed)), "txt+img");
    let accepts = obj(vec![("acceptsImages", Json::Bool(false))]);
    assert_eq!(format_input_short(Some(&accepts)), "txt");
    assert_eq!(format_input_short(None), "");
}

#[test]
fn value_texts_follow_the_kind_and_the_lock() {
    let registry = registry();
    let theme = registry.find("theme").unwrap();
    assert_eq!(value_text(theme, &SettingValue::Enum("grokday".into()), None), "Grok Day");
    assert_eq!(value_text(theme, &SettingValue::Enum("custom".into()), None), "custom");
    let model = registry.find("default_model").unwrap();
    assert_eq!(value_text(model, &SettingValue::String(String::new()), None), "(no override)");
    let sharing = registry.find("coding_data_sharing").unwrap();
    assert_eq!(value_text(sharing, &SettingValue::Enum("opt-in".into()), Some(CodingDataSharingLock::Zdr)), "ZDR");
    assert_eq!(
        value_text(sharing, &SettingValue::Enum("opt-in".into()), Some(CodingDataSharingLock::TeamManaged)),
        "Opt in · Admin Managed"
    );
    let width = registry.find("max_thoughts_width").unwrap();
    assert_eq!(value_text(width, &SettingValue::Int(-7), None), "-7");
    let compact = registry.find("compact_mode").unwrap();
    assert_eq!(value_text(compact, &SettingValue::Bool(false), None), "off");
}

#[test]
fn footer_hints_follow_the_mode_and_the_focused_row() {
    let mut state = state();
    assert!(state.focus_key("compact_mode"));
    assert!(state.footer_hints().contains(&"Enter toggle"));
    assert!(state.focus_key("theme"));
    assert!(state.footer_hints().contains(&"Enter edit"));
    state.to_search();
    assert_eq!(state.footer_hints(), vec!["type to filter", "↑/↓ nav", "Enter commit", "Esc clear"]);
}

#[test]
fn the_label_column_fits_the_widest_label_and_the_caps() {
    let state = state();
    let widest = state
        .visible
        .iter()
        .filter_map(|&r| match state.rows[r] {
            grok_pager::pi_settings::rows::Row::Setting { meta, .. } => Some(state.registry.all()[meta].label.chars().count()),
            _ => None,
        })
        .max()
        .unwrap() as u16;
    assert_eq!(state.label_column_width(200), widest.min(30));
    assert_eq!(state.label_column_width(20), widest.min(10));
    assert_eq!(state.label_column_width(0), 0);
}

#[test]
fn ask_user_question_decisions() {
    let routed = Ok(AskRouting { routed: true, question_count: 2, first_option_count: 3 });
    let params = obj(vec![("initialText", Json::Str("draft".into()))]);
    match decide_ask_user_question(&params, &routed, true, false) {
        AskPlan::OpenQuestion { seed, no_freeform, notify } => {
            assert_eq!(seed, Some(("draft".to_string(), 3)));
            assert!(!no_freeform);
            assert!(notify);
        }
        other => panic!("expected OpenQuestion, got {other:?}"),
    }
    let no_free = obj(vec![("initialText", Json::Str("draft".into())), ("noFreeform", Json::Bool(true))]);
    assert!(matches!(
        decide_ask_user_question(&no_free, &routed, true, true),
        AskPlan::OpenQuestion { seed: None, no_freeform: true, notify: false }
    ));
    let unrouted = Ok(AskRouting { routed: false, question_count: 1, first_option_count: 0 });
    assert!(matches!(decide_ask_user_question(&params, &unrouted, false, false), AskPlan::Park));
    assert!(matches!(
        decide_ask_user_question(&params, &Err("missing field".into()), false, false),
        AskPlan::RespondError(m) if m == "Invalid params: missing field"
    ));
    let bad_picker = obj(vec![("piGrokResourcePicker", Json::Null)]);
    assert!(matches!(
        decide_ask_user_question(&bad_picker, &routed, false, false),
        AskPlan::RespondError(m) if m == "piGrokResourcePicker must be an object"
    ));
}

#[test]
fn displaced_questions_explain_themselves() {
    assert_eq!(displaced_question_notice(LocalQuestionTag::Fork), "/fork cancelled because another question opened.");
    assert_eq!(
        displaced_question_notice(LocalQuestionTag::DoctorFix),
        "/doctor fix was cancelled because another question opened."
    );
}

#[test]
fn plan_approval_never_prefills_under_a_permission_prompt() {
    let p = plan_approval_prompt(true, true, false);
    assert!(!p.prefill_now && p.prefill_deferred && !p.focus_prompt);
    let p = plan_approval_prompt(true, false, true);
    assert!(p.prefill_now && !p.prefill_deferred && p.focus_prompt);
    let p = plan_approval_prompt(false, false, true);
    assert!(!p.prefill_now && !p.prefill_deferred && !p.focus_prompt);
}

#[test]
fn detail_pane_joins_capabilities_then_cost_and_base_url() {
    let info = grok_pager::models::ModelInfo {
        id: "acme::nova-lite-2".to_string(),
        name: "Nova Lite 2".to_string(),
        provider: Some("acme".to_string()),
        model_id: Some("nova-lite-2".to_string()),
        supports_reasoning_effort: false,
        effort_options: Vec::new(),
    };
    let facts = DetailFacts {
        context: Some("200k".to_string()),
        max_out: Some("64k".to_string()),
        api: Some("openai-completions".to_string()),
        input: "txt+img".to_string(),
        reasoning: true,
        cost: Some("Cost $1 / $5".to_string()),
        base_url: Some("https://example.test".to_string()),
    };
    let lines = model_picker_detail_lines(&info, &facts, Some("ignored"));
    assert_eq!(lines.len(), 4);
    assert!(lines[0].contains("Nova Lite 2"));
    assert!(lines[0].contains("[acme]"));
    assert_eq!(lines[1], "Context 200k  ·  MaxOut 64k  ·  API comp  ·  Input txt+img  ·  ⚡ reasoning");
    assert_eq!(lines[2], "Cost $1 / $5");
    assert_eq!(lines[3], "BaseURL https://example.test");
}

#[test]
fn detail_pane_falls_back_to_the_trimmed_description() {
    let info = grok_pager::models::ModelInfo {
        id: "grok-4".to_string(),
        name: "grok-4".to_string(),
        provider: None,
        model_id: None,
        supports_reasoning_effort: false,
        effort_options: Vec::new(),
    };
    let facts = DetailFacts {
        context: None,
        max_out: None,
        api: Some("unknown-api".to_string()),
        input: String::new(),
        reasoning: false,
        cost: None,
        base_url: Some(String::new()),
    };
    let lines = model_picker_detail_lines(&info, &facts, Some("  fast model \n"));
    assert_eq!(lines, vec!["grok-4".to_string(), "fast model".to_string()]);
}
