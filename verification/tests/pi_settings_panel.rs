use grok_pager::commands::Action;
use grok_pager::pi_settings::input::handle_key;
use grok_pager::pi_settings::keys::{KeyCode, KeyPress, Rect};
use grok_pager::pi_settings::rows::{Row, RuntimeGates};
use grok_pager::pi_settings::state::{live_defaults, Mode, ModeKind, Outcome, PagerSnapshot, PiSettingsState};
use grok_pager::settings::catalog::CatalogDefaults;
use grok_pager::settings::registry::{SettingValue, SettingsRegistry};

fn env() -> CatalogDefaults {
    CatalogDefaults {
        on_windows: false,
        remember_tool_approvals: true,
        respect_manual_folds: true,
        side_by_side_edit: false,
        display_refresh_auto_cadence: true,
        ask_user_question_timeout_enabled: true,
    }
}

fn gates() -> RuntimeGates {
    RuntimeGates { kitty_releases: false, minimal: false, voice_mode: false, external_agent: false }
}

fn state() -> PiSettingsState {
    let registry = SettingsRegistry::defaults(&env());
    let values = live_defaults(&registry);
    PiSettingsState::new(registry, values, PagerSnapshot::empty(), gates())
}

fn press(state: &mut PiSettingsState, code: KeyCode) -> Outcome {
    handle_key(state, &KeyPress::plain(code))
}

fn focused_key(state: &PiSettingsState) -> Option<&'static str> {
    state.focused().map(|(key, _)| key)
}

fn all_rows(state: &PiSettingsState) -> Vec<usize> {
    (0..state.rows.len()).collect()
}

// -- Row table --------------------------------------------------------------

#[test]
fn rows_open_with_category_headings_then_sections() {
    let state = state();
    let Some(first) = state.rows.first() else {
        panic!("registry must produce rows")
    };
    assert!(
        matches!(first, Row::Category { .. }),
        "the page must open with a category heading, got {first:?}",
    );
    assert_eq!(state.visible, all_rows(&state), "browse mode must expose the complete settings page");
    for (i, row) in state.rows.iter().enumerate() {
        if matches!(row, Row::Section { .. }) {
            assert!(
                state.rows.get(i + 1).is_some_and(Row::is_setting),
                "section heading at {i} is not followed by a setting",
            );
        }
    }
}

#[test]
fn browsing_includes_all_categories_on_one_page() {
    let state = state();
    let categories = state
        .visible
        .iter()
        .filter_map(|&row| match state.rows[row] {
            Row::Category { category } => Some(category),
            _ => None,
        })
        .collect::<Vec<_>>();
    assert!(categories.len() > 1, "the page must contain multiple categories");
}

#[test]
fn opening_focuses_the_first_setting_not_a_heading() {
    let state = state();
    assert!(state.rows[state.selected].is_setting(), "the cursor must open on a selectable row");
}

// -- Navigation -------------------------------------------------------------

#[test]
fn stepping_skips_headings_and_stops_at_the_ends() {
    let mut state = state();
    let first = state.selected;
    assert!(!state.step(-1), "already at the top; must not wrap");
    assert_eq!(state.selected, first);

    let mut steps = 0;
    while state.step(1) {
        assert!(state.rows[state.selected].is_setting(), "stepping must never land on a heading");
        steps += 1;
        assert!(steps < 500, "step(1) failed to terminate");
    }
    assert!(steps > 0, "the settings page must have more than one row");
    assert!(!state.step(1), "already at the bottom; must not wrap");
}

#[test]
fn horizontal_keys_do_not_switch_pages() {
    let mut state = state();
    let selected = state.selected;
    assert!(matches!(press(&mut state, KeyCode::Right), Outcome::Unchanged));
    assert!(matches!(press(&mut state, KeyCode::Left), Outcome::Unchanged));
    assert_eq!(state.selected, selected, "horizontal keys must not change pages");
}

#[test]
fn focus_key_selects_any_setting_on_the_single_page() {
    let mut state = state();
    assert!(state.focus_key("coding_data_sharing"));
    assert_eq!(focused_key(&state), Some("coding_data_sharing"));
    assert!(state.visible.contains(&state.selected), "a deep-linked row must be visible, not filtered out");
}

// -- Search -----------------------------------------------------------------

#[test]
fn search_spans_every_category_and_groups_results_by_category_heading() {
    let mut state = state();
    press(&mut state, KeyCode::Char('/'));
    assert_eq!(state.mode.kind(), ModeKind::Search);
    state.set_query("model");

    let headings = state.visible.iter().filter(|&&r| matches!(state.rows[r], Row::Category { .. })).count();
    assert!(headings >= 1, "results must be grouped under category headings");
    assert!(
        state.visible.iter().all(|&r| !matches!(state.rows[r], Row::Section { .. })),
        "section headings are suppressed in search results",
    );
    let matches = state.visible.iter().filter(|&&r| state.rows[r].is_setting()).count();
    assert!(matches > 0, "`model` must match something");
}

#[test]
fn a_category_heading_is_emitted_once_and_only_when_it_matches() {
    let mut state = state();
    state.set_query("theme");
    let mut seen = Vec::new();
    for &row in &state.visible {
        if let Row::Category { category } = state.rows[row] {
            assert!(!seen.contains(&category), "{category:?} heading emitted twice");
            seen.push(category);
        }
    }
    for (position, &row) in state.visible.iter().enumerate() {
        if matches!(state.rows[row], Row::Category { .. }) {
            let next = state.visible.get(position + 1).map(|&r| &state.rows[r]);
            assert!(next.is_some_and(|r| r.is_setting()), "a category heading with no matches must not be emitted");
        }
    }
}

#[test]
fn escaping_search_returns_to_the_single_page() {
    let mut state = state();
    press(&mut state, KeyCode::Char('/'));
    state.set_query("coding data");
    state.select_first_visible();
    let landed = state.rows.get(state.selected).and_then(|_| focused_key(&state));
    assert_eq!(landed, Some("coding_data_sharing"));

    press(&mut state, KeyCode::Esc);
    assert_eq!(state.mode.kind(), ModeKind::Browse);
    assert!(!state.searching(), "Esc must clear the query");
    assert_eq!(state.visible, all_rows(&state), "Esc must restore the complete settings page");
}

#[test]
fn escape_belongs_to_the_panel_while_searching_or_in_a_subpane() {
    let mut state = state();
    assert!(!state.owns_escape(), "plain browse lets the chrome close");

    press(&mut state, KeyCode::Char('/'));
    assert!(state.owns_escape(), "search mode owns Esc");
    press(&mut state, KeyCode::Esc);

    state.set_query("theme");
    assert!(state.owns_escape(), "a committed query still owns Esc");
    press(&mut state, KeyCode::Esc);
    assert!(!state.searching(), "Esc must clear a committed query");
    assert!(!state.owns_escape(), "and hand Esc back to the chrome");

    state.focus_key("theme");
    press(&mut state, KeyCode::Enter);
    assert!(state.owns_escape(), "an open chooser owns Esc");
}

// -- Activation -------------------------------------------------------------

#[test]
fn space_toggles_the_focused_bool() {
    let mut state = state();
    assert!(state.focus_key("compact_mode"));
    let Outcome::Action(action) = press(&mut state, KeyCode::Char(' ')) else {
        panic!("Space on a Bool row must dispatch an action")
    };
    assert!(matches!(action, Action::SetCompactMode(true)), "expected SetCompactMode(true), got {action:?}");
}

#[test]
fn enter_on_an_enum_row_opens_the_chooser_on_the_current_value() {
    let mut state = state();
    assert!(state.focus_key("theme"));
    assert!(matches!(press(&mut state, KeyCode::Enter), Outcome::Changed));
    let Mode::Picking { key, index, .. } = state.mode else {
        panic!("Enter on an Enum row must open the chooser")
    };
    assert_eq!(key, "theme");
    let choices = state.choices_for("theme");
    let current = state.value_of("theme");
    let expected = match current {
        Some(SettingValue::Enum(canonical)) => choices.iter().position(|c| c.canonical == canonical).unwrap_or(0),
        _ => 0,
    };
    assert_eq!(index, expected, "the chooser must open on the live value");
}

#[test]
fn chooser_enter_commits_and_escape_returns_to_browse() {
    let mut state = state();
    state.focus_key("theme");
    press(&mut state, KeyCode::Enter);
    press(&mut state, KeyCode::Down);
    let Outcome::Action(action) = press(&mut state, KeyCode::Enter) else {
        panic!("Enter in the chooser must commit")
    };
    assert!(matches!(action, Action::SetTheme(_)));
    assert_eq!(state.mode.kind(), ModeKind::Browse);

    state.focus_key("theme");
    press(&mut state, KeyCode::Enter);
    press(&mut state, KeyCode::Esc);
    assert_eq!(state.mode.kind(), ModeKind::Browse, "Esc must back out");
}

#[test]
fn stepping_a_preview_enum_dispatches_a_preview_not_a_commit() {
    let mut state = state();
    state.focus_key("theme");
    press(&mut state, KeyCode::Enter);
    let Outcome::Action(action) = press(&mut state, KeyCode::Down) else {
        panic!("a preview-capable chooser must preview on Down")
    };
    assert!(matches!(action, Action::PreviewTheme(_)), "expected PreviewTheme, got {action:?}");
}

#[test]
fn side_model_slots_defer_to_the_native_model_picker() {
    let mut state = state();
    assert!(state.focus_key("recap_models"));
    assert!(matches!(press(&mut state, KeyCode::Enter), Outcome::Changed));
    assert_eq!(state.mode.kind(), ModeKind::PickingGroup);
}

#[test]
fn enter_on_an_int_row_opens_the_stepper_seeded_with_the_live_value() {
    let mut state = state();
    assert!(state.focus_key("max_thoughts_width"));
    assert!(matches!(press(&mut state, KeyCode::Enter), Outcome::Changed));
    let Mode::EditingInt { buffer, min, max, .. } = &state.mode else {
        panic!("Enter on an Int row must open the stepper")
    };
    assert!(min < max);
    assert!(
        buffer.parse::<i64>().is_ok_and(|v| v >= *min && v <= *max),
        "the stepper must open inside its own bounds, got {buffer:?}",
    );
}

#[test]
fn the_int_stepper_clamps_at_both_bounds() {
    let mut state = state();
    state.focus_key("max_thoughts_width");
    press(&mut state, KeyCode::Enter);
    let Mode::EditingInt { min, max, .. } = state.mode else {
        panic!("stepper must be open")
    };
    for _ in 0..500 {
        press(&mut state, KeyCode::Left);
    }
    assert_eq!(state.mode_int_buffer(), Some(min.to_string()));
    for _ in 0..500 {
        press(&mut state, KeyCode::Right);
    }
    assert_eq!(state.mode_int_buffer(), Some(max.to_string()));
}

#[test]
fn d_asks_before_resetting_and_n_backs_out() {
    let mut state = state();
    state.focus_key("compact_mode");
    assert!(matches!(press(&mut state, KeyCode::Char('d')), Outcome::Changed));
    assert_eq!(state.mode.kind(), ModeKind::ConfirmReset);

    assert!(matches!(press(&mut state, KeyCode::Char('n')), Outcome::Changed));
    assert_eq!(state.mode.kind(), ModeKind::Browse);

    press(&mut state, KeyCode::Char('d'));
    let Outcome::Action(action) = press(&mut state, KeyCode::Char('y')) else {
        panic!("y must dispatch the reset")
    };
    assert!(matches!(action, Action::SetCompactMode(_)));
    assert_eq!(state.mode.kind(), ModeKind::Browse);
}

#[test]
fn f2_closes_from_every_mode() {
    for open in [KeyCode::Char('/'), KeyCode::Enter, KeyCode::Char('d')] {
        let mut state = state();
        state.focus_key("theme");
        press(&mut state, open);
        assert!(matches!(press(&mut state, KeyCode::F(2)), Outcome::Close), "F2 must close from {:?}", state.mode.kind());
    }
}

// -- Geometry ---------------------------------------------------------------

#[test]
fn every_visible_row_gets_a_hit_rect() {
    let mut state = state();
    state.layout_browse(Rect { x: 2, y: 2, width: 136, height: 34 });
    let painted = state
        .visible
        .iter()
        .filter(|&&r| state.rows[r].is_setting())
        .filter(|&&r| state.row_rects[r].height > 0)
        .count();
    assert!(painted > 0, "rows must record hit rects for the mouse");
}
