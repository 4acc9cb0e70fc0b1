//! Section taxonomy of the settings page: which section each setting sits
//! in, and the order of the sections inside each category.
use vstd::prelude::*;
use crate::settings::registry::SettingCategory;
use crate::text::str_eq;

verus! {

/// Section of a key that no section declares.
pub const OTHER_SECTION: &'static str = "Other";

/// Section of the setting with `key`.
#[verifier::opaque]
pub open spec fn spec_section_for(key: Seq<char>) -> Seq<char> {
    if key == "theme"@ || key == "auto_dark_theme"@ || key == "auto_light_theme"@ {
        "Theme"@
    } else if key == "compact_mode"@ || key == "screen_mode"@ || key == "simple_mode"@ || key == "vim_mode"@ || key == "show_timestamps"@ || key == "show_timeline"@ || key == "page_flip_on_send"@ || key == "prompt_cursor"@ || key == "render_mermaid"@ || key == "display_refresh_auto_cadence"@ || key == "progress_bar"@ || key == "remote_tui_footer"@ {
        "Display"@
    } else if key == "max_thoughts_width"@ || key == "show_thinking_blocks"@ || key == "thinking_border_colors"@ {
        "Thinking"@
    } else if key == "respect_manual_folds"@ || key == "group_tool_verbs"@ || key == "collapsed_edit_blocks"@ || key == "side_by_side_edit"@ || key == "ctrl_o_tool_expansion"@ || key == "pi_bash_run_display"@ || key == "pi_bash_command_format"@ || key == "show_other_tool_args"@ {
        "Tool output"@
    } else if key == "multiline_mode"@ || key == "prompt_suggestions"@ || key == "pi_at_search_hidden"@ {
        "Prompt"@
    } else if key == "combine_queued_prompts"@ || key == "follow_up_behavior"@ || key == "cancel_turn_key"@ || key == "confirm_before_rewind"@ {
        "Turns"@
    } else if key == "voice_keybind_enabled"@ || key == "voice_capture_mode"@ || key == "voice_stt_language"@ {
        "Voice"@
    } else if key == "permission_mode"@ || key == "plan_mode"@ || key == "remember_tool_approvals"@ || key == "default_selected_permission"@ || key == "toolset.ask_user_question.timeout_enabled"@ {
        "Permissions"@
    } else if key == "pi_bash"@ || key == "pi_eval"@ || key == "pi_eval_v2_language"@ || key == "pi_eval_v2_display_mode"@ || key == "pi_eval_v2_only"@ || key == "pi_builtin_tools"@ || key == "pi_builtin_tools.read"@ || key == "pi_builtin_tools.bash"@ || key == "pi_builtin_tools.powershell"@ || key == "pi_builtin_tools.edit"@ || key == "pi_builtin_tools.write"@ || key == "pi_builtin_tools.grep"@ || key == "pi_builtin_tools.find"@ || key == "pi_builtin_tools.ls"@ || key == "pi_builtin_tools.eval"@ || key == "pi_config"@ {
        "Tools"@
    } else if key == "psm_resume_index"@ || key == "pi_tree_file_rollback"@ || key == "pi_tree_skip_summary_prompt"@ || key == "pi_ask_user_question_notifications"@ || key == "pi_cache_graph"@ || key == "pi_config_skill"@ || key == "pi_user_markdown"@ || key == "pi_keep_multi_agent"@ || key == "session_recap"@ || key == "recap_mermaid"@ {
        "Sessions"@
    } else if key == "review_file_tree"@ || key == "review_include_reads"@ {
        "Review"@
    } else if key == "default_model"@ || key == "fork_secondary_model"@ {
        "Session models"@
    } else if key == "recap_models"@ || key == "btw_models"@ || key == "recap_model"@ || key == "recap_model_2"@ || key == "recap_model_3"@ || key == "btw_model"@ || key == "btw_model_2"@ || key == "btw_model_3"@ {
        "Side models"@
    } else if key == "write_edit_hover_popups"@ {
        "Tool details"@
    } else if key == "scroll_speed"@ || key == "scroll_mode"@ || key == "scroll_lines"@ || key == "invert_scroll"@ {
        "Scrolling"@
    } else if key == "keep_text_selection"@ {
        "Selection"@
    } else if key == "coding_data_sharing"@ {
        "Data sharing"@
    } else if key == "show_tips"@ || key == "contextual_hints"@ || key == "contextual_hints.undo"@ || key == "contextual_hints.plan_mode"@ || key == "contextual_hints.image_input"@ || key == "contextual_hints.send_now"@ || key == "contextual_hints.small_screen"@ || key == "contextual_hints.word_select"@ || key == "contextual_hints.ssh_wrap"@ {
        "Hints"@
    } else if key == "auto_update"@ {
        "Updates"@
    } else if key == "hunk_tracker_mode"@ {
        "Tracking"@
    } else {
        OTHER_SECTION@
    }
}

/// Section of the setting with `key`; `OTHER_SECTION` when none declares it.
pub fn section_for(key: &str) -> (r: &'static str)
    ensures
        r@ == spec_section_for(key@),
{
    proof {
        reveal(spec_section_for);
    }
    if str_eq(key, "theme") || str_eq(key, "auto_dark_theme") || str_eq(key, "auto_light_theme") {
        "Theme"
    } else if str_eq(key, "compact_mode") || str_eq(key, "screen_mode") || str_eq(key, "simple_mode") || str_eq(key, "vim_mode") || str_eq(key, "show_timestamps") || str_eq(key, "show_timeline") || str_eq(key, "page_flip_on_send") || str_eq(key, "prompt_cursor") || str_eq(key, "render_mermaid") || str_eq(key, "display_refresh_auto_cadence") || str_eq(key, "progress_bar") || str_eq(key, "remote_tui_footer") {
        "Display"
    } else if str_eq(key, "max_thoughts_width") || str_eq(key, "show_thinking_blocks") || str_eq(key, "thinking_border_colors") {
        "Thinking"
    } else if str_eq(key, "respect_manual_folds") || str_eq(key, "group_tool_verbs") || str_eq(key, "collapsed_edit_blocks") || str_eq(key, "side_by_side_edit") || str_eq(key, "ctrl_o_tool_expansion") || str_eq(key, "pi_bash_run_display") || str_eq(key, "pi_bash_command_format") || str_eq(key, "show_other_tool_args") {
        "Tool output"
    } else if str_eq(key, "multiline_mode") || str_eq(key, "prompt_suggestions") || str_eq(key, "pi_at_search_hidden") {
        "Prompt"
    } else if str_eq(key, "combine_queued_prompts") || str_eq(key, "follow_up_behavior") || str_eq(key, "cancel_turn_key") || str_eq(key, "confirm_before_rewind") {
        "Turns"
    } else if str_eq(key, "voice_keybind_enabled") || str_eq(key, "voice_capture_mode") || str_eq(key, "voice_stt_language") {
        "Voice"
    } else if str_eq(key, "permission_mode") || str_eq(key, "plan_mode") || str_eq(key, "remember_tool_approvals") || str_eq(key, "default_selected_permission") || str_eq(key, "toolset.ask_user_question.timeout_enabled") {
        "Permissions"
    } else if str_eq(key, "pi_bash") || str_eq(key, "pi_eval") || str_eq(key, "pi_eval_v2_language") || str_eq(key, "pi_eval_v2_display_mode") || str_eq(key, "pi_eval_v2_only") || str_eq(key, "pi_builtin_tools") || str_eq(key, "pi_builtin_tools.read") || str_eq(key, "pi_builtin_tools.bash") || str_eq(key, "pi_builtin_tools.powershell") || str_eq(key, "pi_builtin_tools.edit") || str_eq(key, "pi_builtin_tools.write") || str_eq(key, "pi_builtin_tools.grep") || str_eq(key, "pi_builtin_tools.find") || str_eq(key, "pi_builtin_tools.ls") || str_eq(key, "pi_builtin_tools.eval") || str_eq(key, "pi_config") {
        "Tools"
    } else if str_eq(key, "psm_resume_index") || str_eq(key, "pi_tree_file_rollback") || str_eq(key, "pi_tree_skip_summary_prompt") || str_eq(key, "pi_ask_user_question_notifications") || str_eq(key, "pi_cache_graph") || str_eq(key, "pi_config_skill") || str_eq(key, "pi_user_markdown") || str_eq(key, "pi_keep_multi_agent") || str_eq(key, "session_recap") || str_eq(key, "recap_mermaid") {
        "Sessions"
    } else if str_eq(key, "review_file_tree") || str_eq(key, "review_include_reads") {
        "Review"
    } else if str_eq(key, "default_model") || str_eq(key, "fork_secondary_model") {
        "Session models"
    } else if str_eq(key, "recap_models") || str_eq(key, "btw_models") || str_eq(key, "recap_model") || str_eq(key, "recap_model_2") || str_eq(key, "recap_model_3") || str_eq(key, "btw_model") || str_eq(key, "btw_model_2") || str_eq(key, "btw_model_3") {
        "Side models"
    } else if str_eq(key, "write_edit_hover_popups") {
        "Tool details"
    } else if str_eq(key, "scroll_speed") || str_eq(key, "scroll_mode") || str_eq(key, "scroll_lines") || str_eq(key, "invert_scroll") {
        "Scrolling"
    } else if str_eq(key, "keep_text_selection") {
        "Selection"
    } else if str_eq(key, "coding_data_sharing") {
        "Data sharing"
    } else if str_eq(key, "show_tips") || str_eq(key, "contextual_hints") || str_eq(key, "contextual_hints.undo") || str_eq(key, "contextual_hints.plan_mode") || str_eq(key, "contextual_hints.image_input") || str_eq(key, "contextual_hints.send_now") || str_eq(key, "contextual_hints.small_screen") || str_eq(key, "contextual_hints.word_select") || str_eq(key, "contextual_hints.ssh_wrap") {
        "Hints"
    } else if str_eq(key, "auto_update") {
        "Updates"
    } else if str_eq(key, "hunk_tracker_mode") {
        "Tracking"
    } else {
        OTHER_SECTION
    }
}

/// Sections of `category`, in page order.
pub open spec fn spec_sections_for(category: SettingCategory) -> Seq<Seq<char>> {
    match category {
        SettingCategory::Appearance => seq!["Theme"@, "Display"@, "Thinking"@, "Tool output"@],
        SettingCategory::Editor => seq!["Prompt"@, "Turns"@, "Voice"@],
        SettingCategory::Agent => seq!["Permissions"@, "Tools"@, "Sessions"@, "Review"@],
        SettingCategory::Models => seq!["Session models"@, "Side models"@],
        SettingCategory::Popups => seq!["Tool details"@],
        SettingCategory::Mouse => seq!["Scrolling"@, "Selection"@],
        SettingCategory::Privacy => seq!["Data sharing"@],
        SettingCategory::Advanced => seq!["Hints"@, "Updates"@, "Tracking"@],
    }
}

/// No category lists a section twice.
pub proof fn lemma_sections_distinct(category: SettingCategory)
    ensures
        forall|i: int, j: int|
            0 <= i < j < spec_sections_for(category).len() ==> spec_sections_for(category)[i]
                != spec_sections_for(category)[j],
{
    reveal_strlit("Theme");
    reveal_strlit("Display");
    reveal_strlit("Thinking");
    reveal_strlit("Tool output");
    reveal_strlit("Prompt");
    reveal_strlit("Turns");
    reveal_strlit("Voice");
    reveal_strlit("Permissions");
    reveal_strlit("Tools");
    reveal_strlit("Sessions");
    reveal_strlit("Review");
    reveal_strlit("Session models");
    reveal_strlit("Side models");
    reveal_strlit("Tool details");
    reveal_strlit("Scrolling");
    reveal_strlit("Selection");
    reveal_strlit("Data sharing");
    reveal_strlit("Hints");
    reveal_strlit("Updates");
    reveal_strlit("Tracking");
    let s = spec_sections_for(category);
    assert forall|i: int, j: int| 0 <= i < j < s.len() implies s[i] != s[j] by {
        if s[i] == s[j] {
            assert(s[i].len() == s[j].len());
            assert(s[i][0] == s[j][0]);
            assert(s[i][s[i].len() - 1] == s[j][s[j].len() - 1]);
        }
    }
}

/// Sections of `category`, in page order.
pub fn sections_for(category: SettingCategory) -> (r: Vec<&'static str>)
    ensures
        r@.len() == spec_sections_for(category).len(),
        forall|i: int| 0 <= i < r@.len() ==> (#[trigger] r@[i])@ == spec_sections_for(category)[i],
{
    match category {
        SettingCategory::Appearance => {
            let r = vec!["Theme", "Display", "Thinking", "Tool output"];
            assert(r@[0]@ == spec_sections_for(category)[0]);
            assert(r@[1]@ == spec_sections_for(category)[1]);
            assert(r@[2]@ == spec_sections_for(category)[2]);
            assert(r@[3]@ == spec_sections_for(category)[3]);
            r
        },
        SettingCategory::Editor => {
            let r = vec!["Prompt", "Turns", "Voice"];
            assert(r@[0]@ == spec_sections_for(category)[0]);
            assert(r@[1]@ == spec_sections_for(category)[1]);
            assert(r@[2]@ == spec_sections_for(category)[2]);
            r
        },
        SettingCategory::Agent => {
            let r = vec!["Permissions", "Tools", "Sessions", "Review"];
            assert(r@[0]@ == spec_sections_for(category)[0]);
            assert(r@[1]@ == spec_sections_for(category)[1]);
            assert(r@[2]@ == spec_sections_for(category)[2]);
            assert(r@[3]@ == spec_sections_for(category)[3]);
            r
        },
        SettingCategory::Models => {
            let r = vec!["Session models", "Side models"];
            assert(r@[0]@ == spec_sections_for(category)[0]);
            assert(r@[1]@ == spec_sections_for(category)[1]);
            r
        },
        SettingCategory::Popups => {
            let r = vec!["Tool details"];
            assert(r@[0]@ == spec_sections_for(category)[0]);
            r
        },
        SettingCategory::Mouse => {
            let r = vec!["Scrolling", "Selection"];
            assert(r@[0]@ == spec_sections_for(category)[0]);
            assert(r@[1]@ == spec_sections_for(category)[1]);
            r
        },
        SettingCategory::Privacy => {
            let r = vec!["Data sharing"];
            assert(r@[0]@ == spec_sections_for(category)[0]);
            r
        },
        SettingCategory::Advanced => {
            let r = vec!["Hints", "Updates", "Tracking"];
            assert(r@[0]@ == spec_sections_for(category)[0]);
            assert(r@[1]@ == spec_sections_for(category)[1]);
            assert(r@[2]@ == spec_sections_for(category)[2]);
            r
        },
    }
}

} // verus!
