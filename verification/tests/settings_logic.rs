use grok_pager::commands::{Action, PermissionModeKind, ScrollMode};
use grok_pager::decimal::{i64_text, parse_i64};
use grok_pager::interactions::{
    pi_grok_resource_picker_request, plan_review_source_for_title, Json, PiResourceType, PlanReviewSource,
};
use grok_pager::pi_settings::actions::{
    action_for_bool, action_for_enum_commit, action_for_enum_preview, action_for_int, action_for_string,
    side_model_picker_action, validate_string,
};
use grok_pager::pi_settings::editor::{LineEditOutcome, LineEditor};
use grok_pager::pi_settings::keys::{KeyCode, KeyPress};
use grok_pager::pi_settings::state::{HostFeature, ModelEntry, PagerSnapshot};
use grok_pager::settings::catalog::{default_settings, CatalogDefaults};
use grok_pager::settings::registry::{SettingKind, SettingsRegistry, StringValidator};

fn env(on_windows: bool) -> CatalogDefaults {
    CatalogDefaults {
        on_windows,
        remember_tool_approvals: true,
        respect_manual_folds: true,
        side_by_side_edit: false,
        display_refresh_auto_cadence: true,
        ask_user_question_timeout_enabled: true,
    }
}

fn obj(members: Vec<(&str, Json)>) -> Json {
    Json::Object(members.into_iter().map(|(k, v)| (k.to_string(), v)).collect())
}

fn st(s: &str) -> Json {
    Json::Str(s.to_string())
}

// -- Catalog ----------------------------------------------------------------

#[test]
fn the_catalog_holds_powershell_only_on_windows() {
    let unix = default_settings(&env(false));
    let windows = default_settings(&env(true));
    assert_eq!(windows.len(), unix.len() + 1);
    assert!(windows.iter().any(|m| m.key == "pi_builtin_tools.powershell"));
    assert!(!unix.iter().any(|m| m.key == "pi_builtin_tools.powershell"));
}

#[test]
fn int_defaults_sit_inside_their_bounds_and_enum_defaults_are_choices() {
    for meta in default_settings(&env(false)) {
        match &meta.kind {
            SettingKind::Int { default, min, max } => assert!(min <= default && default <= max, "{}", meta.key),
            SettingKind::Enum { default, choices, .. } => {
                assert!(choices.iter().any(|c| c.canonical == *default), "{}", meta.key)
            }
            _ => {}
        }
    }
}

#[test]
fn registry_finds_and_searches() {
    let registry = SettingsRegistry::defaults(&env(false));
    assert_eq!(registry.find("theme").map(|m| m.label), Some("Theme"));
    assert!(registry.find("no_such_setting").is_none());
    let hits = registry.search("CODING DATA");
    assert_eq!(hits.len(), 1);
    assert_eq!(registry.all()[hits[0]].key, "coding_data_sharing");
}

// -- Actions ----------------------------------------------------------------

#[test]
fn bool_actions_map_keys_and_defer_to_host_features() {
    assert!(matches!(action_for_bool("vim_mode", true, &vec![]), Some(Action::SetVimMode(true))));
    assert!(action_for_bool("theme", true, &vec![]).is_none());
    let host = vec![HostFeature { setting_key: "vim_mode".into(), key: "vim".into() }];
    match action_for_bool("vim_mode", false, &host) {
        Some(Action::SetHostFeatureBool { key, enabled }) => {
            assert_eq!(key, "vim");
            assert!(!enabled);
        }
        other => panic!("expected a host feature toggle, got {other:?}"),
    }
}

#[test]
fn enum_actions_fold_junk_choices_to_none() {
    assert!(matches!(
        action_for_enum_commit("permission_mode", "auto"),
        Some(Action::SetPermissionMode(PermissionModeKind::Auto))
    ));
    assert!(action_for_enum_commit("permission_mode", "sometimes").is_none());
    assert!(matches!(action_for_enum_commit("scroll_mode", "wheel"), Some(Action::SetScrollMode(ScrollMode::Wheel))));
    assert!(matches!(action_for_enum_preview("theme", "grokday"), Some(Action::PreviewTheme(t)) if t == "grokday"));
    assert!(action_for_enum_preview("screen_mode", "minimal").is_none());
    assert!(matches!(action_for_int("scroll_lines", 4), Some(Action::SetScrollLines(4))));
    assert!(action_for_int("theme", 4).is_none());
}

#[test]
fn string_actions_resolve_model_names_and_clear_when_empty() {
    let mut snapshot = PagerSnapshot::empty();
    snapshot.available_models.push(ModelEntry { name: "Grok 4.5".into(), id: "test::grok-4.5".into() });
    assert!(matches!(
        action_for_string("default_model", "grok 4.5".into(), &snapshot),
        Some(Action::SetDefaultModel(id)) if id == "test::grok-4.5"
    ));
    assert!(action_for_string("default_model", "unknown".into(), &snapshot).is_none());
    assert!(matches!(action_for_string("default_model", String::new(), &snapshot), Some(Action::ClearDefaultModel)));
    assert!(matches!(action_for_string("btw_model_2", "x".into(), &snapshot), Some(Action::SetBtwModel2(v)) if v == "x"));
    assert!(matches!(
        side_model_picker_action("recap_model_3"),
        Some(Action::OpenSideModelPicker { slot_key }) if slot_key == "recap_model_3"
    ));
    assert!(side_model_picker_action("default_model").is_none());
}

#[test]
fn validators_report_each_failure() {
    let models = vec![ModelEntry { name: "Grok 4.5".into(), id: "test::grok-4.5".into() }];
    assert_eq!(validate_string(StringValidator::NonEmptyToken, "", &models).as_deref(), Some("Value cannot be empty"));
    assert_eq!(
        validate_string(StringValidator::NonEmptyToken, "a b", &models).as_deref(),
        Some("Value cannot contain whitespace")
    );
    assert_eq!(validate_string(StringValidator::NonEmptyToken, "ab", &models), None);
    assert_eq!(validate_string(StringValidator::KnownModel, "", &models), None);
    assert_eq!(validate_string(StringValidator::KnownModel, "GROK 4.5", &models), None);
    assert_eq!(
        validate_string(StringValidator::KnownModel, "nope", &models).as_deref(),
        Some("Unknown model: \"nope\"")
    );
    assert_eq!(
        validate_string(StringValidator::KnownModel, "nope", &vec![]).as_deref(),
        Some("Model catalog still loading — try again")
    );
    assert_eq!(validate_string(StringValidator::PromptCursor, "bar", &models), None);
    assert_eq!(validate_string(StringValidator::PromptCursor, "|", &models), None);
    assert!(validate_string(StringValidator::PromptCursor, "ab", &models).is_some());
    assert!(validate_string(StringValidator::PromptCursor, "中", &models).is_some(), "wide characters are refused");
    assert_eq!(validate_string(StringValidator::Any, "", &models), None);
}

// -- Text fields and numbers ------------------------------------------------

#[test]
fn decimal_text_round_trips() {
    for v in [0i64, 7, -7, 120, i64::MAX, i64::MIN] {
        let text: String = i64_text(v).into_iter().collect();
        assert_eq!(text, v.to_string());
        assert_eq!(parse_i64(&text.chars().collect()), Some(v));
    }
    assert_eq!(parse_i64(&"+42".chars().collect()), Some(42));
    assert_eq!(parse_i64(&"".chars().collect()), None);
    assert_eq!(parse_i64(&"-".chars().collect()), None);
    assert_eq!(parse_i64(&"4x".chars().collect()), None);
    assert_eq!(parse_i64(&"9223372036854775808".chars().collect()), None);
}

#[test]
fn the_line_editor_inserts_deletes_and_refuses_control_characters() {
    let mut e = LineEditor::new();
    assert_eq!(e.handle_key(&KeyPress::plain(KeyCode::Char('a'))), LineEditOutcome::TextChanged);
    assert_eq!(e.handle_key(&KeyPress::plain(KeyCode::Char('c'))), LineEditOutcome::TextChanged);
    assert_eq!(e.handle_key(&KeyPress::plain(KeyCode::Left)), LineEditOutcome::CursorChanged);
    assert_eq!(e.handle_key(&KeyPress::plain(KeyCode::Char('b'))), LineEditOutcome::TextChanged);
    assert_eq!(e.text_string(), "abc");
    assert_eq!(e.handle_key(&KeyPress::plain(KeyCode::Char('\u{7}'))), LineEditOutcome::HandledNoChange);
    assert_eq!(e.handle_key(&KeyPress::plain(KeyCode::Backspace)), LineEditOutcome::TextChanged);
    assert_eq!(e.text_string(), "ac");
    assert_eq!(e.handle_key(&KeyPress::plain(KeyCode::Enter)), LineEditOutcome::Unhandled);
    assert_eq!(e.insert_paste("x\ny"), LineEditOutcome::TextChanged);
    assert_eq!(e.text_string(), "axyc");
}

// -- Agent requests ---------------------------------------------------------

#[test]
fn picker_envelope_absent_is_no_request() {
    assert_eq!(pi_grok_resource_picker_request(&obj(vec![("other", Json::Null)])), Ok(None));
    assert_eq!(pi_grok_resource_picker_request(&Json::Null), Ok(None));
}

#[test]
fn picker_envelope_errors_name_the_first_problem() {
    let wrap = |v: Json| obj(vec![("piGrokResourcePicker", v)]);
    assert_eq!(
        pi_grok_resource_picker_request(&wrap(st("x"))),
        Err("piGrokResourcePicker must be an object".to_string())
    );
    assert_eq!(
        pi_grok_resource_picker_request(&wrap(obj(vec![("title", st("  "))]))),
        Err("piGrokResourcePicker.title is required".to_string())
    );
    assert_eq!(
        pi_grok_resource_picker_request(&wrap(obj(vec![("title", st("Pick"))]))),
        Err("piGrokResourcePicker.resourceTypes is required".to_string())
    );
    assert_eq!(
        pi_grok_resource_picker_request(&wrap(obj(vec![
            ("title", st("Pick")),
            ("resourceTypes", Json::Array(vec![st("skills"), Json::Bool(true)])),
        ]))),
        Err("piGrokResourcePicker.resourceTypes must contain strings".to_string())
    );
    assert_eq!(
        pi_grok_resource_picker_request(&wrap(obj(vec![
            ("title", st("Pick")),
            ("resourceTypes", Json::Array(vec![st("Themes")])),
        ]))),
        Err("unsupported Pi resource type: Themes".to_string())
    );
    assert_eq!(
        pi_grok_resource_picker_request(&wrap(obj(vec![("title", st("Pick")), ("resourceTypes", Json::Array(vec![]))]))),
        Err("piGrokResourcePicker.resourceTypes must not be empty".to_string())
    );
}

#[test]
fn picker_envelope_decodes_types_paths_and_extras() {
    let params = obj(vec![(
        "piGrokResourcePicker",
        obj(vec![
            ("title", st("  Choose resources ")),
            ("resourceTypes", Json::Array(vec![st("Skill"), st("extensions")])),
            ("initialPaths", Json::Array(vec![st("/a"), st("   "), Json::Number("3".into()), st(" /b ")])),
            (
                "extraResources",
                Json::Array(vec![
                    obj(vec![("path", st(" /x ")), ("label", st(" X ")), ("type", st("SKILLS"))]),
                    obj(vec![("path", st("/y")), ("label", st("")), ("type", st("skills"))]),
                    obj(vec![("path", st("/z")), ("label", st("Z")), ("type", st("themes"))]),
                    st("not an object"),
                ]),
            ),
        ]),
    )]);
    let request = pi_grok_resource_picker_request(&params).unwrap().unwrap();
    assert_eq!(request.title, "Choose resources");
    assert_eq!(request.resource_types, vec![PiResourceType::Skills, PiResourceType::Extensions]);
    assert_eq!(request.initial_paths, vec!["/a".to_string(), " /b ".to_string()]);
    assert_eq!(request.extra_resources.len(), 1);
    assert_eq!(request.extra_resources[0].path, "/x");
    assert_eq!(request.extra_resources[0].label, "X");
    assert_eq!(request.extra_resources[0].resource_type, PiResourceType::Skills);
}

#[test]
fn plan_reviews_of_plan_tools_are_inline() {
    assert_eq!(plan_review_source_for_title(Some("CreatePlan")), PlanReviewSource::Inline);
    assert_eq!(plan_review_source_for_title(Some("Plan: Submit for approval")), PlanReviewSource::Inline);
    assert_eq!(plan_review_source_for_title(Some("Edit")), PlanReviewSource::FileBacked);
    assert_eq!(plan_review_source_for_title(None), PlanReviewSource::FileBacked);
}
