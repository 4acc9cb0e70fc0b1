use grok_pager::commands::Action;
use grok_pager::pi_settings::input::{handle_key, handle_mouse, handle_paste};
use grok_pager::pi_settings::keys::{KeyCode, KeyPress, MouseButton, MouseKind, Rect};
use grok_pager::pi_settings::rows::{is_group_child, row_visible, RuntimeGates};
use grok_pager::pi_settings::state::{live_defaults, Mode, ModeKind, Outcome, PagerSnapshot, PiSettingsState};
use grok_pager::settings::catalog::CatalogDefaults;
use grok_pager::settings::registry::SettingsRegistry;

fn env() -> CatalogDefaults {
    CatalogDefaults {
        on_windows: false,
        remember_tool_approvals: true,
        respect_manual_folds: true,
        side_by_side_edit: false,
        display_refresh_auto_cadence: true,
        ask_user_question_timeout_enabled: true,
    }
}

fn gates() -> RuntimeGates {
    RuntimeGates { kitty_releases: false, minimal: false, voice_mode: false, external_agent: false }
}

fn state() -> PiSettingsState {
    let registry = SettingsRegistry::defaults(&env());
    let values = live_defaults(&registry);
    PiSettingsState::new(registry, values, PagerSnapshot::empty(), gates())
}

fn press(state: &mut PiSettingsState, code: KeyCode) -> Outcome {
    handle_key(state, &KeyPress::plain(code))
}

fn focused_key(state: &PiSettingsState) -> Option<&'static str> {
    state.focused().map(|(key, _)| key)
}

fn click(state: &mut PiSettingsState, rect: Rect) -> Outcome {
    handle_mouse(state, MouseKind::Down(MouseButton::Left), rect.x, rect.y)
}

fn editor_text(state: &PiSettingsState) -> String {
    match &state.mode {
        Mode::EditingString { editor, .. } => editor.text.iter().collect(),
        other => panic!("expected the text editor, got {:?}", other.kind()),
    }
}

fn clear_editor(state: &mut PiSettingsState) {
    while !editor_text(state).is_empty() {
        press(state, KeyCode::Backspace);
    }
}

#[test]
fn pasting_into_the_text_editor_revalidates_and_enter_commits() {
    let mut state = state();
    assert!(state.focus_key("prompt_cursor"));
    press(&mut state, KeyCode::Enter);
    assert_eq!(editor_text(&state), "native");
    clear_editor(&mut state);
    assert!(matches!(handle_paste(&mut state, "ba\u{7}r"), Outcome::Changed));
    assert_eq!(editor_text(&state), "bar", "control characters are dropped from a paste");
    let Outcome::Action(action) = press(&mut state, KeyCode::Enter) else {
        panic!("Enter on a valid value must commit")
    };
    assert!(matches!(action, Action::SetPromptCursor(ref v) if v == "bar"));
    assert_eq!(state.mode.kind(), ModeKind::Browse);
}

#[test]
fn an_invalid_text_value_is_not_committed() {
    let mut state = state();
    state.focus_key("prompt_cursor");
    press(&mut state, KeyCode::Enter);
    clear_editor(&mut state);
    handle_paste(&mut state, "xyz");
    let Mode::EditingString { error, .. } = &state.mode else { panic!("editor must stay open") };
    assert!(error.is_some(), "xyz is not a prompt cursor");
    assert!(matches!(press(&mut state, KeyCode::Enter), Outcome::Unchanged));
    assert_eq!(state.mode.kind(), ModeKind::EditingString);
}

#[test]
fn pasting_into_search_filters_the_page() {
    let mut state = state();
    press(&mut state, KeyCode::Char('/'));
    assert!(matches!(handle_paste(&mut state, "compact"), Outcome::Changed));
    assert_eq!(state.query(), "compact");
    assert_eq!(state.query_cursor(), 7);
    assert!(!state.visible.is_empty());
    assert!(state.visible.iter().any(|&r| state.rows[r].is_setting()));
    assert!(state.visible.len() < state.rows.len());
}

#[test]
fn paste_outside_an_editor_does_nothing() {
    let mut state = state();
    let before = state.selected;
    assert!(matches!(handle_paste(&mut state, "text"), Outcome::Unchanged));
    assert_eq!(state.selected, before);
    assert_eq!(state.query(), "");
}

#[test]
fn the_number_editor_takes_digits_up_to_its_maximum() {
    let mut state = state();
    state.focus_key("max_thoughts_width");
    press(&mut state, KeyCode::Enter);
    press(&mut state, KeyCode::Home);
    assert_eq!(state.mode_int_buffer().as_deref(), Some("40"));
    press(&mut state, KeyCode::End);
    assert_eq!(state.mode_int_buffer().as_deref(), Some("500"));
    assert!(matches!(press(&mut state, KeyCode::Backspace), Outcome::Changed));
    assert_eq!(state.mode_int_buffer().as_deref(), Some("50"));
    assert!(matches!(press(&mut state, KeyCode::Char('0')), Outcome::Changed));
    assert_eq!(state.mode_int_buffer().as_deref(), Some("500"));
    assert!(matches!(press(&mut state, KeyCode::Char('0')), Outcome::Unchanged), "5000 is past the maximum");
    assert!(matches!(press(&mut state, KeyCode::Char('x')), Outcome::Unchanged));
    let Outcome::Action(action) = press(&mut state, KeyCode::Enter) else { panic!("Enter must commit") };
    assert!(matches!(action, Action::SetMaxThoughtsWidth(500)));
}

#[test]
fn stepper_arrows_step_by_the_small_step() {
    let mut state = state();
    state.focus_key("max_thoughts_width");
    press(&mut state, KeyCode::Enter);
    press(&mut state, KeyCode::Home);
    let left = Rect { x: 10, y: 5, width: 1, height: 1 };
    let right = Rect { x: 20, y: 5, width: 1, height: 1 };
    state.stepper_rects = (left, right);
    assert!(matches!(click(&mut state, right), Outcome::Changed));
    assert_eq!(state.mode_int_buffer().as_deref(), Some("45"));
    assert!(matches!(click(&mut state, left), Outcome::Changed));
    assert_eq!(state.mode_int_buffer().as_deref(), Some("40"));
    assert!(matches!(click(&mut state, left), Outcome::Unchanged), "already at the minimum");
    assert!(matches!(click(&mut state, Rect { x: 15, y: 5, width: 1, height: 1 }), Outcome::Unchanged));
}

#[test]
fn page_keys_move_like_ten_single_steps() {
    let mut paged = state();
    let mut stepped = state();
    press(&mut paged, KeyCode::PageDown);
    for _ in 0..10 {
        press(&mut stepped, KeyCode::Down);
    }
    assert_eq!(paged.selected, stepped.selected);
    press(&mut paged, KeyCode::Char('G'));
    let last = paged.selected;
    assert!(matches!(press(&mut paged, KeyCode::Down), Outcome::Unchanged), "the focus stops at the end");
    assert_eq!(paged.selected, last);
    press(&mut paged, KeyCode::Char('g'));
    assert_eq!(paged.selected, state().selected);
}

#[test]
fn a_click_selects_first_and_activates_second() {
    let mut state = state();
    state.layout_browse(Rect { x: 0, y: 0, width: 120, height: 60 });
    let row = state.row_of_key("compact_mode").expect("compact_mode has a row");
    assert_ne!(state.selected, row);
    let rect = state.row_rects[row];
    assert!(rect.height > 0, "compact_mode must be on screen");
    assert!(matches!(click(&mut state, rect), Outcome::Changed));
    assert_eq!(focused_key(&state), Some("compact_mode"));
    let Outcome::Action(action) = click(&mut state, rect) else { panic!("a second click must activate") };
    assert!(matches!(action, Action::SetCompactMode(true)));
}

#[test]
fn hover_follows_the_pointer_over_setting_rows() {
    let mut state = state();
    state.layout_browse(Rect { x: 0, y: 0, width: 120, height: 60 });
    let row = state.row_of_key("compact_mode").unwrap();
    let rect = state.row_rects[row];
    assert!(matches!(handle_mouse(&mut state, MouseKind::Moved, rect.x, rect.y), Outcome::Changed));
    assert_eq!(state.hover, Some(row));
    assert!(matches!(handle_mouse(&mut state, MouseKind::Moved, rect.x, rect.y), Outcome::Unchanged));
    let heading = state.row_rects[0];
    assert!(matches!(handle_mouse(&mut state, MouseKind::Moved, heading.x, heading.y), Outcome::Changed));
    assert_eq!(state.hover, None, "headings are not hover targets");
}

#[test]
fn the_wheel_moves_the_focus_three_settings() {
    let mut wheeled = state();
    wheeled.layout_browse(Rect { x: 0, y: 0, width: 120, height: 40 });
    let mut stepped = state();
    let inside = wheeled.list_area;
    assert!(matches!(handle_mouse(&mut wheeled, MouseKind::ScrollDown, inside.x, inside.y), Outcome::Changed));
    for _ in 0..3 {
        press(&mut stepped, KeyCode::Down);
    }
    assert_eq!(wheeled.selected, stepped.selected);
    let before = wheeled.selected;
    assert!(matches!(handle_mouse(&mut wheeled, MouseKind::ScrollDown, 500, 500), Outcome::Unchanged));
    assert_eq!(wheeled.selected, before, "the wheel outside the list does nothing");
}

#[test]
fn a_click_on_a_choice_moves_the_cursor_and_previews() {
    let mut state = state();
    state.focus_key("theme");
    press(&mut state, KeyCode::Enter);
    let n = state.choices_for("theme").len();
    assert!(n > 2);
    state.choice_rects = (0..n).map(|i| Rect { x: 0, y: i as u16, width: 30, height: 1 }).collect();
    let Mode::Picking { index, .. } = state.mode else { panic!("chooser must be open") };
    let target = if index == 2 { 1 } else { 2 };
    let rect = state.choice_rects[target];
    let Outcome::Action(action) = click(&mut state, rect) else { panic!("a click on a theme must preview it") };
    assert!(matches!(action, Action::PreviewTheme(_)));
    let Mode::Picking { index, .. } = state.mode else { panic!("chooser must stay open") };
    assert_eq!(index, target);
    assert!(matches!(click(&mut state, rect), Outcome::Unchanged), "a click on the current choice does nothing");
}

#[test]
fn rebuilding_the_rows_keeps_the_focused_setting() {
    let mut state = state();
    state.focus_key("compact_mode");
    let voice_rows_before = state.row_of_key("voice_keybind_enabled");
    state.rebuild_rows(RuntimeGates { kitty_releases: false, minimal: false, voice_mode: true, external_agent: false });
    assert_eq!(focused_key(&state), Some("compact_mode"));
    assert!(voice_rows_before.is_none());
    assert!(state.row_of_key("voice_keybind_enabled").is_some(), "voice settings appear with voice mode");
}

#[test]
fn resetting_hit_rects_forgets_every_target() {
    let mut state = state();
    state.layout_browse(Rect { x: 0, y: 0, width: 120, height: 40 });
    state.reset_hit_rects();
    assert!(state.row_rects.is_empty());
    assert!(state.choice_rects.is_empty());
    assert_eq!(state.list_area, Rect::zero());
    let before = state.selected;
    assert!(matches!(click(&mut state, Rect { x: 5, y: 5, width: 1, height: 1 }), Outcome::Unchanged));
    assert_eq!(state.selected, before);
}

#[test]
fn every_listed_setting_has_a_row_on_the_page() {
    let state = state();
    let entries = state.registry.all();
    let mut listed = 0;
    for meta in entries.iter() {
        if row_visible(meta, &gates()) && !is_group_child(entries, meta.key) {
            listed += 1;
            assert!(state.row_of_key(meta.key).is_some(), "{} has no row", meta.key);
        } else {
            assert!(state.row_of_key(meta.key).is_none(), "{} is not listed but has a row", meta.key);
        }
    }
    let settings = state.rows.iter().filter(|r| r.is_setting()).count();
    assert_eq!(settings, listed, "each listed setting has exactly one row");
}
