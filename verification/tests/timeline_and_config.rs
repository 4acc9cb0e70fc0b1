use grok_pager::timeline::{prompt_preview, RenderBlock, ScrollbackState, TimelineMarkerKind, ViewMode};
use grok_pager::ui_config::{ContextualHints, PiBuiltinTools, UiConfig};

fn ui() -> UiConfig {
    UiConfig::new_default("grok-4", false)
}

#[test]
fn timeline_markers_include_compaction_in_scrollback_order() {
    let mut state = ScrollbackState::new();
    state.push_block(RenderBlock::user_prompt("first prompt"), None);
    state.push_block(RenderBlock::Other, None);
    state.push_block(RenderBlock::compaction_summary("preserved context and latest tool results"), None);
    state.push_block(RenderBlock::user_prompt("second prompt"), None);
    state.push_block(RenderBlock::Other, None);

    let markers = state.timeline_markers();
    assert_eq!(markers.len(), 3);
    assert_eq!(markers[0].kind, TimelineMarkerKind::Prompt);
    assert_eq!(markers[0].entry_index, 0);
    assert_eq!(markers[1].kind, TimelineMarkerKind::Compaction);
    assert_eq!(markers[1].entry_index, 2);
    assert_eq!(markers[1].turn_idx, Some(0));
    assert!(markers[1].preview.starts_with("Compaction summary — "));
    assert!(markers[1].preview.contains("preserved context"));
    assert_eq!(markers[2].kind, TimelineMarkerKind::Prompt);
    assert_eq!(markers[2].entry_index, 3);
}

#[test]
fn timeline_marker_jump_targets_compaction_block() {
    let mut state = ScrollbackState::new();
    state.push_block(RenderBlock::user_prompt("first prompt"), None);
    state.push_block(RenderBlock::Other, None);
    state.push_block(RenderBlock::compaction_summary("preserved context"), None);
    state.push_block(RenderBlock::user_prompt("second prompt"), None);
    assert!(state.set_layout(vec![0, 2, 5, 8]));

    assert!(state.jump_to_timeline_marker(1));
    assert_eq!(state.selected(), Some(2));
    assert_eq!(state.current_turn(), Some(0));
}

#[test]
fn jumping_to_a_turn_selects_its_prompt() {
    let mut state = ScrollbackState::new();
    state.push_block(RenderBlock::user_prompt("one"), Some(10));
    state.push_block(RenderBlock::Other, None);
    state.push_block(RenderBlock::user_prompt("two\nsecond line"), Some(20));
    assert!(state.set_layout(vec![0, 3, 9]));
    assert!(state.jump_to_turn(1));
    assert_eq!(state.selected(), Some(2));
    assert_eq!(state.turn_preview(1).as_deref(), Some("two"));
    assert_eq!(state.turn_created_at(0), Some(10));
    assert!(!state.jump_to_turn(2));
    assert!(!state.jump_to_timeline_marker(9));
}

#[test]
fn page_flip_on_send_defaults_on() {
    assert!(ui().page_flip_on_send_enabled());
    let mut off = ui();
    off.page_flip_on_send = Some(false);
    assert!(!off.page_flip_on_send_enabled());
}

#[test]
fn confirm_before_rewind_defaults_on() {
    assert!(ui().confirm_before_rewind_enabled());
    let mut off = ui();
    off.confirm_before_rewind = Some(false);
    assert!(!off.confirm_before_rewind_enabled());
}

#[test]
fn cancel_turn_key_defaults_to_esc_and_accepts_ctrl_c() {
    assert_eq!(ui().cancel_turn_key(), "esc");
    let mut ctrl_c = ui();
    ctrl_c.cancel_turn_key = Some("ctrl_c".into());
    assert_eq!(ctrl_c.cancel_turn_key(), "ctrl_c");
    let mut unknown = ui();
    unknown.cancel_turn_key = Some("other".into());
    assert_eq!(unknown.cancel_turn_key(), "esc");
}

#[test]
fn keep_text_selection_enabled_precedence() {
    let mut ui = ui();
    assert!(!ui.keep_text_selection_enabled());

    ui.selection_highlight_duration_ms = Some(0);
    assert!(ui.keep_text_selection_enabled());

    ui.selection_highlight_duration_ms = Some(150);
    assert!(!ui.keep_text_selection_enabled());

    ui.selection_highlight_duration_ms = Some(0);
    ui.keep_text_selection = Some("flash".into());
    assert!(!ui.keep_text_selection_enabled());

    ui.keep_text_selection = Some("hold".into());
    ui.selection_highlight_duration_ms = Some(999);
    assert!(ui.keep_text_selection_enabled());

    ui.keep_text_selection = Some("hold".into());
    ui.selection_highlight_duration_ms = None;
    assert!(ui.keep_text_selection_enabled());

    ui.keep_text_selection = Some("word_select".into());
    ui.selection_highlight_duration_ms = None;
    assert!(ui.keep_text_selection_enabled());
}

#[test]
fn follow_up_behavior_is_steer_or_queue() {
    let mut ui = ui();
    assert_eq!(ui.follow_up_behavior(), "queue");
    assert!(!ui.follow_up_steer_enabled());
    ui.follow_up_behavior = Some("steer".into());
    assert_eq!(ui.follow_up_behavior(), "steer");
    assert!(ui.follow_up_steer_enabled());
    ui.follow_up_behavior = Some("sideways".into());
    assert_eq!(ui.follow_up_behavior(), "queue");
}

#[test]
fn timeline_sidebar_is_opt_in() {
    let mut ui = ui();
    assert!(!ui.show_timeline_enabled());
    ui.show_timeline = Some(true);
    assert!(ui.show_timeline_enabled());
}

#[test]
fn defaults_are_recognised_as_defaults() {
    assert!(ContextualHints::default().is_default());
    let tools = PiBuiltinTools::default_for(false);
    assert!(tools.is_default(false));
    assert!(!tools.powershell);
    assert!(PiBuiltinTools::default_for(true).powershell);
    assert!(!tools.is_default(true));
}

fn three_turns() -> ScrollbackState {
    let mut state = ScrollbackState::new();
    state.push_block(RenderBlock::user_prompt("one"), Some(1));
    state.push_block(RenderBlock::Other, None);
    state.push_block(RenderBlock::user_prompt("two"), Some(2));
    state.push_block(RenderBlock::Other, None);
    state.push_block(RenderBlock::user_prompt("three"), Some(3));
    assert!(state.set_layout(vec![0, 5, 10, 15, 20]));
    state
}

#[test]
fn viewport_turns_follow_the_prompts_above_the_top() {
    let mut state = three_turns();
    state.visible_start = 2;
    state.scroll_offset = 3;
    assert_eq!(state.active_turn_for_viewport(), Some(1));
    assert_eq!(state.turn_above_viewport_top(), Some(1));
    assert_eq!(state.turn_below_viewport_top(), Some(2));
    state.scroll_offset = 0;
    assert_eq!(state.active_turn_for_viewport(), Some(1));
    assert_eq!(state.turn_above_viewport_top(), Some(0));
    assert_eq!(state.turn_below_viewport_top(), Some(2));
}

#[test]
fn single_turn_view_steps_between_neighbouring_turns() {
    let mut state = three_turns();
    state.view_mode = ViewMode::SingleTurn;
    state.current_turn = Some(0);
    assert_eq!(state.active_turn_for_viewport(), Some(0));
    assert_eq!(state.turn_above_viewport_top(), None);
    assert_eq!(state.turn_below_viewport_top(), Some(1));
}

#[test]
fn timeline_entries_list_one_row_per_turn() {
    let state = three_turns();
    let entries = state.timeline_entries();
    assert_eq!(entries.len(), 3);
    assert_eq!(entries[1].turn_idx, 1);
    assert_eq!(entries[1].created_at, Some(2));
    assert_eq!(entries[1].preview, "two");
    assert_eq!(entries[2].prompt_entry_id, state.entries[4].id);
}

#[test]
fn marker_viewport_brackets_the_top_line() {
    let mut state = three_turns();
    let markers = state.timeline_markers();
    state.visible_start = 2;
    state.scroll_offset = 3;
    assert_eq!(state.timeline_marker_viewport(&markers), (Some(1), Some(1), Some(2)));
    state.scroll_offset = 0;
    assert_eq!(state.timeline_marker_viewport(&markers), (Some(1), Some(0), Some(2)));
    assert_eq!(state.timeline_marker_viewport(&Vec::new()), (None, None, None));
}

#[test]
fn prompt_preview_takes_the_first_non_blank_line() {
    assert_eq!(prompt_preview("  \n  hello world  \nmore"), "hello world");
    assert_eq!(prompt_preview(""), "");
}

#[test]
fn fresh_scrollback_starts_empty_following_and_numbers_entries_from_zero() {
    let mut state = ScrollbackState::new();
    assert!(state.entries.is_empty());
    assert!(state.turns.is_empty());
    assert_eq!(state.view_mode, ViewMode::AllTurns);
    assert_eq!(state.current_turn, None);
    assert_eq!(state.selected, None);
    assert_eq!(state.visible_start, 0);
    assert_eq!(state.scroll_offset, 0);
    assert!(state.follow_mode);
    assert_eq!(state.generation, 0);
    assert_eq!(state.next_id, 0);
    state.push_block(RenderBlock::user_prompt("hello"), None);
    state.push_block(RenderBlock::Other, None);
    assert_eq!(state.next_id, 2);
    assert_eq!(state.entries[0].id, 0);
    assert_eq!(state.entries[1].id, 1);
    assert_eq!(state.turns.len(), 1);
}
