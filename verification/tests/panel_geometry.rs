use grok_pager::pi_settings::actions::{
    action_for_bool, action_for_enum_commit, action_for_int, action_for_string, side_model_picker_action,
};
use grok_pager::pi_settings::geometry::{setting_row_layout, RowLayout};
use grok_pager::pi_settings::keys::Rect;
use grok_pager::pi_settings::rows::{build_rows, Row, RuntimeGates};
use grok_pager::pi_settings::state::{live_defaults, Mode, PagerSnapshot, PiSettingsState};
use grok_pager::settings::catalog::CatalogDefaults;
use grok_pager::settings::registry::{SettingKind, SettingValue, SettingsRegistry};

fn env() -> CatalogDefaults {
    CatalogDefaults {
        on_windows: false,
        remember_tool_approvals: true,
        respect_manual_folds: true,
        side_by_side_edit: false,
        display_refresh_auto_cadence: true,
        ask_user_question_timeout_enabled: true,
    }
}

fn gates() -> RuntimeGates {
    RuntimeGates { kitty_releases: false, minimal: false, voice_mode: false, external_agent: false }
}

fn state() -> PiSettingsState {
    let registry = SettingsRegistry::defaults(&env());
    let values = live_defaults(&registry);
    PiSettingsState::new(registry, values, PagerSnapshot::empty(), gates())
}

#[test]
fn title_is_plain_while_browsing_and_a_breadcrumb_in_a_chooser() {
    let mut s = state();
    assert_eq!(s.panel_title(), "Settings");
    assert!(s.focus_key("follow_up_behavior"));
    assert!(s.open_chooser());
    assert_eq!(s.panel_title(), "Settings \u{203A} Follow-up behavior");
}

#[test]
fn bool_row_value_sits_against_the_right_edge() {
    let registry = SettingsRegistry::defaults(&env());
    let meta = registry.all().iter().find(|m| m.key == "compact_mode").unwrap().clone();
    let area = Rect { x: 0, y: 5, width: 40, height: 1 };
    let layout = setting_row_layout(area, &meta, Some(&SettingValue::Bool(true)), 10, None);
    // chevron column starts at 40 - 1 - 2 = 37; "on" is two columns wide.
    assert_eq!(layout, RowLayout { value: Rect { x: 35, y: 5, width: 4, height: 1 }, chevron: false });
}

#[test]
fn enum_row_gets_a_chevron_and_a_missing_value_a_zero_wide_target() {
    let registry = SettingsRegistry::defaults(&env());
    let meta = registry.all().iter().find(|m| m.key == "follow_up_behavior").unwrap().clone();
    let area = Rect { x: 3, y: 7, width: 60, height: 1 };
    let missing = setting_row_layout(area, &meta, None, 12, None);
    assert_eq!(missing, RowLayout { value: Rect { x: 3, y: 7, width: 0, height: 1 }, chevron: true });
    let shown = setting_row_layout(area, &meta, Some(&SettingValue::Enum("queue".to_string())), 12, None);
    assert!(shown.chevron);
    assert_eq!(shown.value.x + shown.value.width, 3 + 60 - 1);
    assert!(shown.value.width > 2);
}

#[test]
fn chooser_choices_span_their_label_and_wrapped_description() {
    let mut s = state();
    assert!(s.focus_key("follow_up_behavior"));
    assert!(s.open_chooser());
    let body = Rect { x: 4, y: 10, width: 50, height: 20 };
    s.layout_choices(body, &vec![1, 2]);
    assert_eq!(s.choice_rects.len(), 2);
    assert_eq!(s.choice_rects[0], Rect { x: 4, y: 10, width: 50, height: 2 });
    assert_eq!(s.choice_rects[1], Rect { x: 4, y: 12, width: 50, height: 3 });
}

#[test]
fn choices_past_the_body_get_no_target() {
    let mut s = state();
    assert!(s.focus_key("follow_up_behavior"));
    assert!(s.open_chooser());
    let body = Rect { x: 0, y: 0, width: 30, height: 2 };
    s.layout_choices(body, &vec![3, 3]);
    assert_eq!(s.choice_rects[0], Rect { x: 0, y: 0, width: 30, height: 2 });
    assert_eq!(s.choice_rects[1], Rect::zero());
}

#[test]
fn stepper_targets_flank_the_number_being_edited() {
    let mut s = state();
    let field = Rect { x: 10, y: 4, width: 30, height: 1 };
    assert_eq!(s.editor_stepper_rects(field), (Rect::zero(), Rect::zero()));
    assert!(s.focus_key("max_thoughts_width"));
    assert!(s.open_editor());
    assert!(matches!(s.mode, Mode::EditingInt { .. }));
    let buffer = s.mode_int_buffer().unwrap();
    s.layout_editor(field);
    let (left, right) = s.stepper_rects;
    assert_eq!(left, Rect { x: 10, y: 4, width: 1, height: 1 });
    assert_eq!(right, Rect { x: 10 + 1 + 2 + buffer.len() as u16 + 2, y: 4, width: 1, height: 1 });
}

#[test]
fn one_row_viewport_keeps_the_focus_on_screen() {
    let s = state();
    let pos = s.visible.iter().position(|&r| r == s.selected).unwrap();
    assert!(pos > 0);
    assert!(!s.rows[s.visible[pos - 1]].is_setting());
    assert_eq!(s.clamp_scroll(1), pos);
}

#[test]
fn default_catalog_shows_timestamps_when_unset() {
    let registry = SettingsRegistry::defaults(&env());
    let meta = registry.all().iter().find(|m| m.key == "show_timestamps").unwrap();
    assert!(matches!(meta.kind, SettingKind::Bool { default: true }));
}

#[test]
fn default_page_lists_each_entry_once_with_a_section_under_every_category() {
    let registry = SettingsRegistry::defaults(&env());
    let rows = build_rows(&registry, &gates());
    let mut seen = Vec::new();
    for (i, row) in rows.iter().enumerate() {
        match row {
            Row::Setting { meta, .. } => {
                assert!(!seen.contains(meta));
                seen.push(*meta);
            }
            Row::Category { .. } => {
                assert!(matches!(rows[i + 1], Row::Section { .. }));
            }
            Row::Section { .. } => {}
        }
    }
    assert!(!seen.is_empty());
}

#[test]
fn every_setting_has_a_dispatch_arm() {
    for on_windows in [false, true] {
        let registry = SettingsRegistry::defaults(&CatalogDefaults { on_windows, ..env() });
        let snapshot = PagerSnapshot::empty();
        let mut missing = Vec::new();
        for meta in registry.all() {
            let mapped = match &meta.kind {
                SettingKind::Bool { .. } => action_for_bool(meta.key, true, &Vec::new()).is_some(),
                SettingKind::Enum { choices, .. } => {
                    choices.iter().all(|c| action_for_enum_commit(meta.key, c.canonical).is_some())
                }
                SettingKind::Int { .. } => action_for_int(meta.key, 1).is_some(),
                SettingKind::String { .. } => {
                    action_for_string(meta.key, "x".into(), &snapshot).is_some()
                        || side_model_picker_action(meta.key).is_some()
                }
                SettingKind::DynamicEnum { .. } => {
                    action_for_string(meta.key, String::new(), &snapshot).is_some()
                        || side_model_picker_action(meta.key).is_some()
                }
                SettingKind::Group { .. } => true,
            };
            if !mapped {
                missing.push(meta.key);
            }
        }
        assert!(missing.is_empty(), "settings with no dispatch arm: {missing:?}");
    }
}

#[test]
fn plan_mode_hint_names_the_host_shortcut() {
    for (on_windows, shortcut) in [(false, "Ctrl+Shift+T"), (true, "Ctrl+Alt+T")] {
        let registry = SettingsRegistry::defaults(&CatalogDefaults { on_windows, ..env() });
        let meta = registry.all().iter().find(|m| m.key == "contextual_hints.plan_mode").unwrap();
        assert!(meta.description.contains(shortcut));
    }
}

#[test]
fn a_panel_too_small_to_paint_has_no_click_targets() {
    let mut s = state();
    s.layout_panel(Some(Rect { x: 0, y: 0, width: 120, height: 40 }));
    assert_eq!(s.row_rects.len(), s.rows.len());
    assert!(s.row_rects.iter().any(|r| *r != Rect::zero()));
    s.layout_panel(Some(Rect { x: 0, y: 0, width: 20, height: 40 }));
    assert!(s.row_rects.is_empty());
    assert!(s.value_rects.is_empty());
    assert_eq!(s.list_area, Rect::zero());
    s.layout_panel(Some(Rect { x: 0, y: 0, width: 120, height: 40 }));
    s.layout_panel(None);
    assert!(s.row_rects.is_empty());
}

#[test]
fn committing_the_follow_up_behavior_sets_it() {
    assert!(matches!(
        action_for_enum_commit("follow_up_behavior", "steer"),
        Some(grok_pager::commands::Action::SetFollowUpBehavior(ref c)) if c == "steer"
    ));
    assert!(action_for_enum_commit("follow_up_behavior", "later").is_none());
}
