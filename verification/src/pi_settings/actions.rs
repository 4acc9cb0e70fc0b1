//! Registry key to typed `Action` mapping for the settings panel.
use vstd::prelude::*;
use crate::commands::{
    opt_action_view, Action, ActionView, ExecuteHeaderContent, PermissionModeKind, PiBuiltinTool,
    PlanModeKind, RenderMermaid, ScrollMode, TextSelection,
};
use crate::pi_settings::state::{HostFeature, ModelEntry, PagerSnapshot};
use crate::settings::registry::StringValidator;
use crate::text::{
    chars_of, concat, eq_ignore_ascii_case, eq_ignore_case, is_whitespace, is_ws, lower_seq, str_eq,
    string_of,
};

verus! {

/// The `Set*` action of a Bool setting.
pub open spec fn spec_bool_action(key: Seq<char>, new: bool) -> Option<ActionView> {
    if key == "compact_mode"@ {
        Some(ActionView::SetCompactMode(new))
    } else if key == "show_timestamps"@ {
        Some(ActionView::SetTimestamps(new))
    } else if key == "show_timeline"@ {
        Some(ActionView::SetTimeline(new))
    } else if key == "pi_builtin_tools.read"@ {
        Some(ActionView::SetPiBuiltinTool { tool: PiBuiltinTool::Read, enabled: new })
    } else if key == "pi_builtin_tools.bash"@ {
        Some(ActionView::SetPiBuiltinTool { tool: PiBuiltinTool::Bash, enabled: new })
    } else if key == "pi_builtin_tools.powershell"@ {
        Some(ActionView::SetPiBuiltinTool { tool: PiBuiltinTool::PowerShell, enabled: new })
    } else if key == "pi_builtin_tools.edit"@ {
        Some(ActionView::SetPiBuiltinTool { tool: PiBuiltinTool::Edit, enabled: new })
    } else if key == "pi_builtin_tools.write"@ {
        Some(ActionView::SetPiBuiltinTool { tool: PiBuiltinTool::Write, enabled: new })
    } else if key == "pi_builtin_tools.grep"@ {
        Some(ActionView::SetPiBuiltinTool { tool: PiBuiltinTool::Grep, enabled: new })
    } else if key == "pi_builtin_tools.find"@ {
        Some(ActionView::SetPiBuiltinTool { tool: PiBuiltinTool::Find, enabled: new })
    } else if key == "pi_builtin_tools.ls"@ {
        Some(ActionView::SetPiBuiltinTool { tool: PiBuiltinTool::Ls, enabled: new })
    } else if key == "pi_builtin_tools.eval"@ {
        Some(ActionView::SetPiBuiltinTool { tool: PiBuiltinTool::Eval, enabled: new })
    } else if key == "pi_bash"@ {
        Some(ActionView::SetPiBash(new))
    } else if key == "pi_eval_v2_only"@ {
        Some(ActionView::SetPiEvalV2Only(new))
    } else if key == "psm_resume_index"@ {
        Some(ActionView::SetPsmResumeIndex(new))
    } else if key == "pi_tree_file_rollback"@ {
        Some(ActionView::SetPiTreeFileRollback(new))
    } else if key == "pi_tree_skip_summary_prompt"@ {
        Some(ActionView::SetPiTreeSkipSummaryPrompt(new))
    } else if key == "pi_ask_user_question_notifications"@ {
        Some(ActionView::SetPiAskUserQuestionNotifications(new))
    } else if key == "pi_cache_graph"@ {
        Some(ActionView::SetPiCacheGraph(new))
    } else if key == "pi_config_skill"@ {
        Some(ActionView::SetPiConfigSkill(new))
    } else if key == "pi_user_markdown"@ {
        Some(ActionView::SetPiUserMarkdown(new))
    } else if key == "pi_at_search_hidden"@ {
        Some(ActionView::SetPiAtSearchHidden(new))
    } else if key == "pi_keep_multi_agent"@ {
        Some(ActionView::SetPiKeepMultiAgent(new))
    } else if key == "pi_bash_command_format"@ {
        Some(ActionView::SetPiBashCommandFormat(new))
    } else if key == "write_edit_hover_popups"@ {
        Some(ActionView::SetWriteEditHoverPopups(new))
    } else if key == "show_other_tool_args"@ {
        Some(ActionView::SetShowOtherToolArgs(new))
    } else if key == "review_file_tree"@ {
        Some(ActionView::SetReviewFileTree(new))
    } else if key == "review_include_reads"@ {
        Some(ActionView::SetReviewIncludeReads(new))
    } else if key == "simple_mode"@ {
        Some(ActionView::SetSimpleMode(new))
    } else if key == "contextual_hints.undo"@ {
        Some(ActionView::SetContextualHintUndo(new))
    } else if key == "contextual_hints.plan_mode"@ {
        Some(ActionView::SetContextualHintPlanMode(new))
    } else if key == "contextual_hints.image_input"@ {
        Some(ActionView::SetContextualHintImageInput(new))
    } else if key == "contextual_hints.send_now"@ {
        Some(ActionView::SetContextualHintSendNow(new))
    } else if key == "contextual_hints.small_screen"@ {
        Some(ActionView::SetContextualHintSmallScreen(new))
    } else if key == "contextual_hints.word_select"@ {
        Some(ActionView::SetContextualHintWordSelect(new))
    } else if key == "contextual_hints.ssh_wrap"@ {
        Some(ActionView::SetContextualHintSshWrap(new))
    } else if key == "multiline_mode"@ {
        Some(ActionView::SetMultilineMode(new))
    } else if key == "vim_mode"@ {
        Some(ActionView::SetVimMode(new))
    } else if key == "session_recap"@ {
        Some(ActionView::SetSessionRecap(new))
    } else if key == "recap_mermaid"@ {
        Some(ActionView::SetRecapMermaid(new))
    } else if key == "progress_bar"@ {
        Some(ActionView::SetProgressBar(new))
    } else if key == "remote_tui_footer"@ {
        Some(ActionView::SetRemoteTuiFooter(new))
    } else if key == "voice_keybind_enabled"@ {
        Some(ActionView::SetVoiceKeybindEnabled(new))
    } else if key == "remember_tool_approvals"@ {
        Some(ActionView::SetRememberToolApprovals(new))
    } else if key == "toolset.ask_user_question.timeout_enabled"@ {
        Some(ActionView::SetAskUserQuestionTimeoutEnabled(new))
    } else if key == "show_thinking_blocks"@ {
        Some(ActionView::SetShowThinkingBlocks(new))
    } else if key == "thinking_border_colors"@ {
        Some(ActionView::SetThinkingBorderColors(new))
    } else if key == "group_tool_verbs"@ {
        Some(ActionView::SetGroupToolVerbs(new))
    } else if key == "collapsed_edit_blocks"@ {
        Some(ActionView::SetCollapsedEditBlocks(new))
    } else if key == "side_by_side_edit"@ {
        Some(ActionView::SetSideBySideEdit(new))
    } else if key == "prompt_suggestions"@ {
        Some(ActionView::SetPromptSuggestions(new))
    } else if key == "respect_manual_folds"@ {
        Some(ActionView::SetRespectManualFolds(new))
    } else if key == "page_flip_on_send"@ {
        Some(ActionView::SetPageFlipOnSend(new))
    } else if key == "confirm_before_rewind"@ {
        Some(ActionView::SetConfirmBeforeRewind(new))
    } else if key == "combine_queued_prompts"@ {
        Some(ActionView::SetCombineQueuedPrompts(new))
    } else if key == "invert_scroll"@ {
        Some(ActionView::SetInvertScroll(new))
    } else if key == "show_tips"@ {
        Some(ActionView::SetShowTips(new))
    } else if key == "auto_update"@ {
        Some(ActionView::SetAutoUpdate(new))
    } else if key == "display_refresh_auto_cadence"@ {
        Some(ActionView::SetDisplayRefreshAutoCadence(new))
    } else {
        None
    }
}

/// The host feature registered for a setting key, if any.
pub open spec fn spec_host_feature(features: Seq<HostFeature>, key: Seq<char>) -> Option<int>
    decreases features.len(),
{
    if features.len() == 0 {
        None
    } else if features[0].setting_key@ == key {
        Some(0)
    } else {
        match spec_host_feature(features.skip(1), key) {
            Some(i) => Some(i + 1),
            None => None,
        }
    }
}

/// The action that sets Bool setting `key` to `new`: a host feature's own
/// toggle when the key belongs to one, else the setting's `Set*` action.
pub open spec fn spec_bool_action_with(features: Seq<HostFeature>, key: Seq<char>, new: bool) -> Option<ActionView> {
    match spec_host_feature(features, key) {
        Some(i) => Some(ActionView::SetHostFeatureBool { key: features[i].key@, enabled: new }),
        None => spec_bool_action(key, new),
    }
}

fn host_feature_for(features: &Vec<HostFeature>, key: &str) -> (r: Option<usize>)
    ensures
        match r {
            Some(i) => spec_host_feature(features@, key@) == Some(i as int) && i < features@.len(),
            None => spec_host_feature(features@, key@) is None,
        },
{
    let mut i: usize = 0;
    assert(features@.skip(0) =~= features@);
    while i < features.len()
        invariant
            i <= features@.len(),
            spec_host_feature(features@, key@) == match spec_host_feature(features@.skip(i as int), key@) {
                Some(j) => Some(j + i),
                None => None,
            },
        decreases features.len() - i,
    {
        assert(features@.skip(i as int).skip(1) =~= features@.skip(i + 1));
        if str_eq(&features[i].setting_key, key) {
            return Some(i);
        }
        i = i + 1;
    }
    None
}

/// Construct the typed action for a Bool setting.
pub fn action_for_bool(key: &str, new: bool, features: &Vec<HostFeature>) -> (r: Option<Action>)
    ensures
        opt_action_view(r) == spec_bool_action_with(features@, key@, new),
{
    if let Some(i) = host_feature_for(features, key) {
        return Some(Action::SetHostFeatureBool { key: features[i].key.clone(), enabled: new });
    }
    if str_eq(key, "compact_mode") {
        Some(Action::SetCompactMode(new))
    } else if str_eq(key, "show_timestamps") {
        Some(Action::SetTimestamps(new))
    } else if str_eq(key, "show_timeline") {
        Some(Action::SetTimeline(new))
    } else if str_eq(key, "pi_builtin_tools.read") {
        Some(Action::SetPiBuiltinTool { tool: PiBuiltinTool::Read, enabled: new })
    } else if str_eq(key, "pi_builtin_tools.bash") {
        Some(Action::SetPiBuiltinTool { tool: PiBuiltinTool::Bash, enabled: new })
    } else if str_eq(key, "pi_builtin_tools.powershell") {
        Some(Action::SetPiBuiltinTool { tool: PiBuiltinTool::PowerShell, enabled: new })
    } else if str_eq(key, "pi_builtin_tools.edit") {
        Some(Action::SetPiBuiltinTool { tool: PiBuiltinTool::Edit, enabled: new })
    } else if str_eq(key, "pi_builtin_tools.write") {
        Some(Action::SetPiBuiltinTool { tool: PiBuiltinTool::Write, enabled: new })
    } else if str_eq(key, "pi_builtin_tools.grep") {
        Some(Action::SetPiBuiltinTool { tool: PiBuiltinTool::Grep, enabled: new })
    } else if str_eq(key, "pi_builtin_tools.find") {
        Some(Action::SetPiBuiltinTool { tool: PiBuiltinTool::Find, enabled: new })
    } else if str_eq(key, "pi_builtin_tools.ls") {
        Some(Action::SetPiBuiltinTool { tool: PiBuiltinTool::Ls, enabled: new })
    } else if str_eq(key, "pi_builtin_tools.eval") {
        Some(Action::SetPiBuiltinTool { tool: PiBuiltinTool::Eval, enabled: new })
    } else if str_eq(key, "pi_bash") {
        Some(Action::SetPiBash(new))
    } else if str_eq(key, "pi_eval_v2_only") {
        Some(Action::SetPiEvalV2Only(new))
    } else if str_eq(key, "psm_resume_index") {
        Some(Action::SetPsmResumeIndex(new))
    } else if str_eq(key, "pi_tree_file_rollback") {
        Some(Action::SetPiTreeFileRollback(new))
    } else if str_eq(key, "pi_tree_skip_summary_prompt") {
        Some(Action::SetPiTreeSkipSummaryPrompt(new))
    } else if str_eq(key, "pi_ask_user_question_notifications") {
        Some(Action::SetPiAskUserQuestionNotifications(new))
    } else if str_eq(key, "pi_cache_graph") {
        Some(Action::SetPiCacheGraph(new))
    } else if str_eq(key, "pi_config_skill") {
        Some(Action::SetPiConfigSkill(new))
    } else if str_eq(key, "pi_user_markdown") {
        Some(Action::SetPiUserMarkdown(new))
    } else if str_eq(key, "pi_at_search_hidden") {
        Some(Action::SetPiAtSearchHidden(new))
    } else if str_eq(key, "pi_keep_multi_agent") {
        Some(Action::SetPiKeepMultiAgent(new))
    } else if str_eq(key, "pi_bash_command_format") {
        Some(Action::SetPiBashCommandFormat(new))
    } else if str_eq(key, "write_edit_hover_popups") {
        Some(Action::SetWriteEditHoverPopups(new))
    } else if str_eq(key, "show_other_tool_args") {
        Some(Action::SetShowOtherToolArgs(new))
    } else if str_eq(key, "review_file_tree") {
        Some(Action::SetReviewFileTree(new))
    } else if str_eq(key, "review_include_reads") {
        Some(Action::SetReviewIncludeReads(new))
    } else if str_eq(key, "simple_mode") {
        Some(Action::SetSimpleMode(new))
    } else if str_eq(key, "contextual_hints.undo") {
        Some(Action::SetContextualHintUndo(new))
    } else if str_eq(key, "contextual_hints.plan_mode") {
        Some(Action::SetContextualHintPlanMode(new))
    } else if str_eq(key, "contextual_hints.image_input") {
        Some(Action::SetContextualHintImageInput(new))
    } else if str_eq(key, "contextual_hints.send_now") {
        Some(Action::SetContextualHintSendNow(new))
    } else if str_eq(key, "contextual_hints.small_screen") {
        Some(Action::SetContextualHintSmallScreen(new))
    } else if str_eq(key, "contextual_hints.word_select") {
        Some(Action::SetContextualHintWordSelect(new))
    } else if str_eq(key, "contextual_hints.ssh_wrap") {
        Some(Action::SetContextualHintSshWrap(new))
    } else if str_eq(key, "multiline_mode") {
        Some(Action::SetMultilineMode(new))
    } else if str_eq(key, "vim_mode") {
        Some(Action::SetVimMode(new))
    } else if str_eq(key, "session_recap") {
        Some(Action::SetSessionRecap(new))
    } else if str_eq(key, "recap_mermaid") {
        Some(Action::SetRecapMermaid(new))
    } else if str_eq(key, "progress_bar") {
        Some(Action::SetProgressBar(new))
    } else if str_eq(key, "remote_tui_footer") {
        Some(Action::SetRemoteTuiFooter(new))
    } else if str_eq(key, "voice_keybind_enabled") {
        Some(Action::SetVoiceKeybindEnabled(new))
    } else if str_eq(key, "remember_tool_approvals") {
        Some(Action::SetRememberToolApprovals(new))
    } else if str_eq(key, "toolset.ask_user_question.timeout_enabled") {
        Some(Action::SetAskUserQuestionTimeoutEnabled(new))
    } else if str_eq(key, "show_thinking_blocks") {
        Some(Action::SetShowThinkingBlocks(new))
    } else if str_eq(key, "thinking_border_colors") {
        Some(Action::SetThinkingBorderColors(new))
    } else if str_eq(key, "group_tool_verbs") {
        Some(Action::SetGroupToolVerbs(new))
    } else if str_eq(key, "collapsed_edit_blocks") {
        Some(Action::SetCollapsedEditBlocks(new))
    } else if str_eq(key, "side_by_side_edit") {
        Some(Action::SetSideBySideEdit(new))
    } else if str_eq(key, "prompt_suggestions") {
        Some(Action::SetPromptSuggestions(new))
    } else if str_eq(key, "respect_manual_folds") {
        Some(Action::SetRespectManualFolds(new))
    } else if str_eq(key, "page_flip_on_send") {
        Some(Action::SetPageFlipOnSend(new))
    } else if str_eq(key, "confirm_before_rewind") {
        Some(Action::SetConfirmBeforeRewind(new))
    } else if str_eq(key, "combine_queued_prompts") {
        Some(Action::SetCombineQueuedPrompts(new))
    } else if str_eq(key, "invert_scroll") {
        Some(Action::SetInvertScroll(new))
    } else if str_eq(key, "show_tips") {
        Some(Action::SetShowTips(new))
    } else if str_eq(key, "auto_update") {
        Some(Action::SetAutoUpdate(new))
    } else if str_eq(key, "display_refresh_auto_cadence") {
        Some(Action::SetDisplayRefreshAutoCadence(new))
    } else {
        None
    }
}

/// The live-preview action of an Enum setting. Settings whose change has
/// side effects have none.
pub open spec fn spec_enum_preview(key: Seq<char>, choice: Seq<char>) -> Option<ActionView> {
    if key == "theme"@ {
        Some(ActionView::PreviewTheme(choice))
    } else if key == "auto_dark_theme"@ {
        Some(ActionView::PreviewAutoDarkTheme(choice))
    } else if key == "auto_light_theme"@ {
        Some(ActionView::PreviewAutoLightTheme(choice))
    } else {
        None
    }
}

/// `Action::Preview*` for an Enum setting: driven by the chooser's Up/Down
/// and by Esc to revert. Preview actions never persist.
pub fn action_for_enum_preview(key: &str, choice: &str) -> (r: Option<Action>)
    ensures
        opt_action_view(r) == spec_enum_preview(key@, choice@),
{
    if str_eq(key, "theme") {
        Some(Action::PreviewTheme(choice.to_owned()))
    } else if str_eq(key, "auto_dark_theme") {
        Some(Action::PreviewAutoDarkTheme(choice.to_owned()))
    } else if str_eq(key, "auto_light_theme") {
        Some(Action::PreviewAutoLightTheme(choice.to_owned()))
    } else {
        None
    }
}

/// The persisting action of an Enum setting; unknown choices of a closed
/// set give none.
pub open spec fn spec_enum_commit(key: Seq<char>, choice: Seq<char>) -> Option<ActionView> {
    if key == "theme"@ {
        Some(ActionView::SetTheme(choice))
    } else if key == "auto_dark_theme"@ {
        Some(ActionView::SetAutoDarkTheme(choice))
    } else if key == "auto_light_theme"@ {
        Some(ActionView::SetAutoLightTheme(choice))
    } else if key == "permission_mode"@ {
        if choice == "always-approve"@ {
            Some(ActionView::SetPermissionMode(PermissionModeKind::AlwaysApprove))
        } else if choice == "auto"@ {
            Some(ActionView::SetPermissionMode(PermissionModeKind::Auto))
        } else if choice == "ask"@ {
            Some(ActionView::SetPermissionMode(PermissionModeKind::Ask))
        } else if choice == "default"@ {
            Some(ActionView::SetPermissionMode(PermissionModeKind::Default))
        } else {
            None
        }
    } else if key == "coding_data_sharing"@ {
        if choice == "opt-in"@ {
            Some(ActionView::SetCodingDataSharing { opted_in: true })
        } else if choice == "opt-out"@ {
            Some(ActionView::SetCodingDataSharing { opted_in: false })
        } else {
            None
        }
    } else if key == "plan_mode"@ {
        if choice == "on"@ {
            Some(ActionView::SetPlanMode(PlanModeKind::On))
        } else if choice == "off"@ {
            Some(ActionView::SetPlanMode(PlanModeKind::Off))
        } else {
            None
        }
    } else if key == "ctrl_o_tool_expansion"@ {
        Some(ActionView::SetCtrlOToolExpansion(choice))
    } else if key == "pi_eval"@ {
        if choice == "v1"@ || choice == "v2"@ {
            Some(ActionView::SetPiEval(choice))
        } else {
            None
        }
    } else if key == "pi_eval_v2_language"@ {
        if choice == "js"@ || choice == "py"@ || choice == "all"@ {
            Some(ActionView::SetPiEvalV2Language(choice))
        } else {
            None
        }
    } else if key == "pi_eval_v2_display_mode"@ {
        if choice == "effects"@ || choice == "legacy"@ {
            Some(ActionView::SetPiEvalV2DisplayMode(choice))
        } else {
            None
        }
    } else if key == "pi_bash_run_display"@ {
        if choice == "command_only"@ {
            Some(ActionView::SetPiBashRunDisplay(ExecuteHeaderContent::CommandOnly))
        } else if choice == "task_name"@ {
            Some(ActionView::SetPiBashRunDisplay(ExecuteHeaderContent::TaskName))
        } else if choice == "task_name_and_command"@ {
            Some(ActionView::SetPiBashRunDisplay(ExecuteHeaderContent::TaskNameAndCommand))
        } else {
            None
        }
    } else if key == "hunk_tracker_mode"@ {
        Some(ActionView::SetHunkTrackerMode(choice))
    } else if key == "screen_mode"@ {
        Some(ActionView::SetScreenMode(choice))
    } else if key == "voice_capture_mode"@ {
        Some(ActionView::SetVoiceCaptureMode(choice))
    } else if key == "voice_stt_language"@ {
        Some(ActionView::SetVoiceSttLanguage(choice))
    } else if key == "render_mermaid"@ {
        if choice == "auto"@ {
            Some(ActionView::SetRenderMermaid(RenderMermaid::Auto))
        } else if choice == "on"@ {
            Some(ActionView::SetRenderMermaid(RenderMermaid::On))
        } else if choice == "off"@ {
            Some(ActionView::SetRenderMermaid(RenderMermaid::Off))
        } else {
            None
        }
    } else if key == "keep_text_selection"@ {
        if choice == "flash"@ {
            Some(ActionView::SetKeepTextSelection(TextSelection::Flash))
        } else if choice == "hold"@ {
            Some(ActionView::SetKeepTextSelection(TextSelection::Hold))
        } else if choice == "word_select"@ {
            Some(ActionView::SetKeepTextSelection(TextSelection::WordSelect))
        } else {
            None
        }
    } else if key == "scroll_mode"@ {
        if choice == "auto"@ {
            Some(ActionView::SetScrollMode(ScrollMode::Auto))
        } else if choice == "wheel"@ {
            Some(ActionView::SetScrollMode(ScrollMode::Wheel))
        } else if choice == "trackpad"@ {
            Some(ActionView::SetScrollMode(ScrollMode::Trackpad))
        } else {
            None
        }
    } else if key == "cancel_turn_key"@ {
        if choice == "esc"@ || choice == "ctrl_c"@ {
            Some(ActionView::SetCancelTurnKey(choice))
        } else {
            None
        }
    } else if key == "follow_up_behavior"@ {
        if choice == "queue"@ || choice == "steer"@ {
            Some(ActionView::SetFollowUpBehavior(choice))
        } else {
            None
        }
    } else if key == "default_selected_permission"@ {
        Some(ActionView::SetDefaultSelectedPermission(choice))
    } else {
        None
    }
}

/// `Action::Set*` commit variant for an Enum setting. Commit actions
/// persist; junk canonicals fold to `None` so Enter no-ops instead of
/// mis-mapping.
pub fn action_for_enum_commit(key: &str, choice: &str) -> (r: Option<Action>)
    ensures
        opt_action_view(r) == spec_enum_commit(key@, choice@),
{
    if str_eq(key, "theme") {
        Some(Action::SetTheme(choice.to_owned()))
    } else if str_eq(key, "auto_dark_theme") {
        Some(Action::SetAutoDarkTheme(choice.to_owned()))
    } else if str_eq(key, "auto_light_theme") {
        Some(Action::SetAutoLightTheme(choice.to_owned()))
    } else if str_eq(key, "permission_mode") {
        if str_eq(choice, "always-approve") {
            Some(Action::SetPermissionMode(PermissionModeKind::AlwaysApprove))
        } else if str_eq(choice, "auto") {
            Some(Action::SetPermissionMode(PermissionModeKind::Auto))
        } else if str_eq(choice, "ask") {
            Some(Action::SetPermissionMode(PermissionModeKind::Ask))
        } else if str_eq(choice, "default") {
            Some(Action::SetPermissionMode(PermissionModeKind::Default))
        } else {
            None
        }
    } else if str_eq(key, "coding_data_sharing") {
        if str_eq(choice, "opt-in") {
            Some(Action::SetCodingDataSharing { opted_in: true })
        } else if str_eq(choice, "opt-out") {
            Some(Action::SetCodingDataSharing { opted_in: false })
        } else {
            None
        }
    } else if str_eq(key, "plan_mode") {
        if str_eq(choice, "on") {
            Some(Action::SetPlanMode(PlanModeKind::On))
        } else if str_eq(choice, "off") {
            Some(Action::SetPlanMode(PlanModeKind::Off))
        } else {
            None
        }
    } else if str_eq(key, "ctrl_o_tool_expansion") {
        Some(Action::SetCtrlOToolExpansion(choice.to_owned()))
    } else if str_eq(key, "pi_eval") {
        if str_eq(choice, "v1") || str_eq(choice, "v2") {
            Some(Action::SetPiEval(choice.to_owned()))
        } else {
            None
        }
    } else if str_eq(key, "pi_eval_v2_language") {
        if str_eq(choice, "js") || str_eq(choice, "py") || str_eq(choice, "all") {
            Some(Action::SetPiEvalV2Language(choice.to_owned()))
        } else {
            None
        }
    } else if str_eq(key, "pi_eval_v2_display_mode") {
        if str_eq(choice, "effects") || str_eq(choice, "legacy") {
            Some(Action::SetPiEvalV2DisplayMode(choice.to_owned()))
        } else {
            None
        }
    } else if str_eq(key, "pi_bash_run_display") {
        if str_eq(choice, "command_only") {
            Some(Action::SetPiBashRunDisplay(ExecuteHeaderContent::CommandOnly))
        } else if str_eq(choice, "task_name") {
            Some(Action::SetPiBashRunDisplay(ExecuteHeaderContent::TaskName))
        } else if str_eq(choice, "task_name_and_command") {
            Some(Action::SetPiBashRunDisplay(ExecuteHeaderContent::TaskNameAndCommand))
        } else {
            None
        }
    } else if str_eq(key, "hunk_tracker_mode") {
        Some(Action::SetHunkTrackerMode(choice.to_owned()))
    } else if str_eq(key, "screen_mode") {
        Some(Action::SetScreenMode(choice.to_owned()))
    } else if str_eq(key, "voice_capture_mode") {
        Some(Action::SetVoiceCaptureMode(choice.to_owned()))
    } else if str_eq(key, "voice_stt_language") {
        Some(Action::SetVoiceSttLanguage(choice.to_owned()))
    } else if str_eq(key, "render_mermaid") {
        if str_eq(choice, "auto") {
            Some(Action::SetRenderMermaid(RenderMermaid::Auto))
        } else if str_eq(choice, "on") {
            Some(Action::SetRenderMermaid(RenderMermaid::On))
        } else if str_eq(choice, "off") {
            Some(Action::SetRenderMermaid(RenderMermaid::Off))
        } else {
            None
        }
    } else if str_eq(key, "keep_text_selection") {
        if str_eq(choice, "flash") {
            Some(Action::SetKeepTextSelection(TextSelection::Flash))
        } else if str_eq(choice, "hold") {
            Some(Action::SetKeepTextSelection(TextSelection::Hold))
        } else if str_eq(choice, "word_select") {
            Some(Action::SetKeepTextSelection(TextSelection::WordSelect))
        } else {
            None
        }
    } else if str_eq(key, "scroll_mode") {
        if str_eq(choice, "auto") {
            Some(Action::SetScrollMode(ScrollMode::Auto))
        } else if str_eq(choice, "wheel") {
            Some(Action::SetScrollMode(ScrollMode::Wheel))
        } else if str_eq(choice, "trackpad") {
            Some(Action::SetScrollMode(ScrollMode::Trackpad))
        } else {
            None
        }
    } else if str_eq(key, "cancel_turn_key") {
        if str_eq(choice, "esc") || str_eq(choice, "ctrl_c") {
            Some(Action::SetCancelTurnKey(choice.to_owned()))
        } else {
            None
        }
    } else if str_eq(key, "follow_up_behavior") {
        if str_eq(choice, "queue") || str_eq(choice, "steer") {
            Some(Action::SetFollowUpBehavior(choice.to_owned()))
        } else {
            None
        }
    } else if str_eq(key, "default_selected_permission") {
        Some(Action::SetDefaultSelectedPermission(choice.to_owned()))
    } else {
        None
    }
}

/// The id of the first model whose name equals `name`, ignoring ASCII case.
pub open spec fn spec_resolve_model(models: Seq<ModelEntry>, name: Seq<char>) -> Option<Seq<char>>
    decreases models.len(),
{
    if models.len() == 0 {
        None
    } else if eq_ignore_case(models[0].name@, name) {
        Some(models[0].id@)
    } else {
        spec_resolve_model(models.skip(1), name)
    }
}

/// The action of committing `value` to String or DynamicEnum setting `key`.
/// Model names resolve to ids through the catalog; an empty value clears.
pub open spec fn spec_string_action(models: Seq<ModelEntry>, key: Seq<char>, value: Seq<char>) -> Option<ActionView> {
    if key == "prompt_cursor"@ {
        Some(ActionView::SetPromptCursor(value))
    } else if key == "default_model"@ {
        if value.len() == 0 {
            Some(ActionView::ClearDefaultModel)
        } else {
            match spec_resolve_model(models, value) {
                Some(id) => Some(ActionView::SetDefaultModel(id)),
                None => None,
            }
        }
    } else if key == "fork_secondary_model"@ {
        if value.len() == 0 {
            Some(ActionView::ClearForkSecondaryModel)
        } else {
            match spec_resolve_model(models, value) {
                Some(id) => Some(ActionView::SetForkSecondaryModel(id)),
                None => None,
            }
        }
    } else if key == "recap_model"@ {
        if value.len() == 0 {
            Some(ActionView::ClearRecapModel)
        } else {
            match spec_resolve_model(models, value) {
                Some(id) => Some(ActionView::SetRecapModel(id)),
                None => None,
            }
        }
    } else if key == "recap_model_2"@ {
        Some(if value.len() == 0 { ActionView::ClearRecapModel2 } else { ActionView::SetRecapModel2(value) })
    } else if key == "recap_model_3"@ {
        Some(if value.len() == 0 { ActionView::ClearRecapModel3 } else { ActionView::SetRecapModel3(value) })
    } else if key == "btw_model"@ {
        Some(if value.len() == 0 { ActionView::ClearBtwModel } else { ActionView::SetBtwModel(value) })
    } else if key == "btw_model_2"@ {
        Some(if value.len() == 0 { ActionView::ClearBtwModel2 } else { ActionView::SetBtwModel2(value) })
    } else if key == "btw_model_3"@ {
        Some(if value.len() == 0 { ActionView::ClearBtwModel3 } else { ActionView::SetBtwModel3(value) })
    } else {
        None
    }
}

/// `Action::Set*` commit variant for a String setting.
pub fn action_for_string(key: &str, value: String, snapshot: &PagerSnapshot) -> (r: Option<Action>)
    ensures
        opt_action_view(r) == spec_string_action(snapshot.available_models@, key@, value@),
{
    let empty = chars_of(value.as_str()).len() == 0;
    if str_eq(key, "prompt_cursor") {
        Some(Action::SetPromptCursor(value))
    } else if str_eq(key, "default_model") {
        if empty {
            Some(Action::ClearDefaultModel)
        } else {
            match snapshot.resolve_model_name(value.as_str()) {
                Some(id) => Some(Action::SetDefaultModel(id)),
                None => None,
            }
        }
    } else if str_eq(key, "fork_secondary_model") {
        if empty {
            Some(Action::ClearForkSecondaryModel)
        } else {
            match snapshot.resolve_model_name(value.as_str()) {
                Some(id) => Some(Action::SetForkSecondaryModel(id)),
                None => None,
            }
        }
    } else if str_eq(key, "recap_model") {
        if empty {
            Some(Action::ClearRecapModel)
        } else {
            match snapshot.resolve_model_name(value.as_str()) {
                Some(id) => Some(Action::SetRecapModel(id)),
                None => None,
            }
        }
    } else if str_eq(key, "recap_model_2") {
        Some(if empty { Action::ClearRecapModel2 } else { Action::SetRecapModel2(value) })
    } else if str_eq(key, "recap_model_3") {
        Some(if empty { Action::ClearRecapModel3 } else { Action::SetRecapModel3(value) })
    } else if str_eq(key, "btw_model") {
        Some(if empty { Action::ClearBtwModel } else { Action::SetBtwModel(value) })
    } else if str_eq(key, "btw_model_2") {
        Some(if empty { Action::ClearBtwModel2 } else { Action::SetBtwModel2(value) })
    } else if str_eq(key, "btw_model_3") {
        Some(if empty { Action::ClearBtwModel3 } else { Action::SetBtwModel3(value) })
    } else {
        None
    }
}

/// The action of committing `value` to Int setting `key`.
pub open spec fn spec_int_action(key: Seq<char>, value: i64) -> Option<ActionView> {
    if key == "max_thoughts_width"@ {
        Some(ActionView::SetMaxThoughtsWidth(value))
    } else if key == "scroll_speed"@ {
        Some(ActionView::SetScrollSpeed(value))
    } else if key == "scroll_lines"@ {
        Some(ActionView::SetScrollLines(value))
    } else {
        None
    }
}

/// `Action::Set*` commit variant for an Int setting.
pub fn action_for_int(key: &str, value: i64) -> (r: Option<Action>)
    ensures
        opt_action_view(r) == spec_int_action(key@, value),
{
    if str_eq(key, "max_thoughts_width") {
        Some(Action::SetMaxThoughtsWidth(value))
    } else if str_eq(key, "scroll_speed") {
        Some(Action::SetScrollSpeed(value))
    } else if str_eq(key, "scroll_lines") {
        Some(Action::SetScrollLines(value))
    } else {
        None
    }
}

/// Side-model slots, which open the searchable model picker.
pub open spec fn spec_is_side_model_slot(key: Seq<char>) -> bool {
    key == "recap_model"@ || key == "recap_model_2"@ || key == "recap_model_3"@ || key
        == "btw_model"@ || key == "btw_model_2"@ || key == "btw_model_3"@
}

/// Side-model slots route to the searchable `/model` picker rather than the
/// panel's enum chooser, so their catalogs stay in one place.
pub fn side_model_picker_action(key: &str) -> (r: Option<Action>)
    ensures
        opt_action_view(r) == if spec_is_side_model_slot(key@) {
            Some(ActionView::OpenSideModelPicker { slot_key: key@ })
        } else {
            None
        },
{
    if str_eq(key, "recap_model") || str_eq(key, "recap_model_2") || str_eq(key, "recap_model_3")
        || str_eq(key, "btw_model") || str_eq(key, "btw_model_2") || str_eq(key, "btw_model_3") {
        Some(Action::OpenSideModelPicker { slot_key: key.to_owned() })
    } else {
        None
    }
}

/// Display width in columns that `unicode-width` gives a character; `None`
/// for control characters.
pub uninterp spec fn char_display_width(c: char) -> Option<usize>;

/// `unicode_width::UnicodeWidthChar::width`. Its result is named, not
/// stated: the crate computes it from the Unicode width tables.
#[verifier::external_body]
fn char_width(c: char) -> (r: Option<usize>)
    ensures
        r == char_display_width(c),
{
    unicode_width::UnicodeWidthChar::width(c)
}

/// A prompt-cursor setting: one of the named shapes, or one character that
/// is one column wide.
pub open spec fn spec_valid_prompt_cursor(s: Seq<char>) -> bool {
    ||| s == "native"@
    ||| s == "block"@
    ||| s == "underline"@
    ||| s == "bar"@
    ||| (s.len() == 1 && char_display_width(s[0]) == Some(1usize))
}

fn valid_prompt_cursor(s: &str) -> (r: bool)
    ensures
        r == spec_valid_prompt_cursor(s@),
{
    if str_eq(s, "native") || str_eq(s, "block") || str_eq(s, "underline") || str_eq(s, "bar") {
        return true;
    }
    let cs = chars_of(s);
    if cs.len() != 1 {
        return false;
    }
    match char_width(cs[0]) {
        Some(w) => w == 1,
        None => false,
    }
}

/// Whether any character of `s` is whitespace.
pub open spec fn has_ws(s: Seq<char>) -> bool {
    exists|i: int| 0 <= i < s.len() && is_ws(#[trigger] s[i])
}

/// Whether some model's name equals `name`, ignoring ASCII case.
pub open spec fn names_known_model(models: Seq<ModelEntry>, name: Seq<char>) -> bool {
    exists|i: int| 0 <= i < models.len() && eq_ignore_case(#[trigger] models[i].name@, name)
}

/// The validation message for a String buffer, `None` when it passes.
pub open spec fn spec_validate(validator: StringValidator, buffer: Seq<char>, models: Seq<ModelEntry>) -> Option<Seq<char>> {
    match validator {
        StringValidator::Any => None,
        StringValidator::PromptCursor => if spec_valid_prompt_cursor(buffer) {
            None
        } else {
            Some("Use native, block, underline, bar, or one single-column character"@)
        },
        StringValidator::NonEmptyToken => if buffer.len() == 0 {
            Some("Value cannot be empty"@)
        } else if has_ws(buffer) {
            Some("Value cannot contain whitespace"@)
        } else {
            None
        },
        StringValidator::KnownModel => if buffer.len() == 0 {
            None
        } else if models.len() == 0 {
            Some("Model catalog still loading \u{2014} try again"@)
        } else if !names_known_model(models, buffer) {
            Some("Unknown model: \""@ + buffer + "\""@)
        } else {
            None
        },
    }
}

/// Validate a String buffer against its validator. Returns the message on
/// failure. An empty buffer is the "clear override" of a model field.
pub fn validate_string(validator: StringValidator, buffer: &str, models: &Vec<ModelEntry>) -> (r:
    Option<String>)
    ensures
        match r {
            Some(m) => spec_validate(validator, buffer@, models@) == Some(m@),
            None => spec_validate(validator, buffer@, models@) is None,
        },
{
    match validator {
        StringValidator::Any => None,
        StringValidator::PromptCursor => {
            if valid_prompt_cursor(buffer) {
                None
            } else {
                Some("Use native, block, underline, bar, or one single-column character".to_owned())
            }
        },
        StringValidator::NonEmptyToken => {
            let cs = chars_of(buffer);
            if cs.len() == 0 {
                return Some("Value cannot be empty".to_owned());
            }
            let mut i: usize = 0;
            while i < cs.len()
                invariant
                    validator == StringValidator::NonEmptyToken,
                    cs@ == buffer@,
                    cs@.len() > 0,
                    i <= cs@.len(),
                    forall|j: int| 0 <= j < i ==> !is_ws(#[trigger] cs@[j]),
                decreases cs.len() - i,
            {
                if is_whitespace(cs[i]) {
                    assert(is_ws(buffer@[i as int]));
                    assert(has_ws(buffer@));
                    assert(buffer@.len() != 0);
                    return Some("Value cannot contain whitespace".to_owned());
                }
                i = i + 1;
            }
            assert(!has_ws(buffer@));
            None
        },
        StringValidator::KnownModel => {
            let cs = chars_of(buffer);
            if cs.len() == 0 {
                return None;
            }
            if models.len() == 0 {
                return Some("Model catalog still loading \u{2014} try again".to_owned());
            }
            let mut i: usize = 0;
            while i < models.len()
                invariant
                    validator == StringValidator::KnownModel,
                    cs@ == buffer@,
                    cs@.len() > 0,
                    models@.len() > 0,
                    i <= models@.len(),
                    forall|j: int| 0 <= j < i ==> !eq_ignore_case(#[trigger] models@[j].name@, buffer@),
                decreases models.len() - i,
            {
                if eq_ignore_ascii_case(&chars_of(models[i].name.as_str()), &cs) {
                    assert(eq_ignore_case(models@[i as int].name@, buffer@));
                    return None;
                }
                i = i + 1;
            }
            let msg = concat(&concat(&chars_of("Unknown model: \""), &cs), &chars_of("\""));
            Some(string_of(&msg))
        },
    }
}

/// Model `i` is the first in `models` whose name is `name` with ASCII case
/// ignored.
pub open spec fn first_named(models: Seq<ModelEntry>, name: Seq<char>, i: int) -> bool {
    &&& 0 <= i < models.len()
    &&& lower_seq(models[i].name@) == lower_seq(name)
    &&& forall|j: int| 0 <= j < i ==> lower_seq(#[trigger] models[j].name@) != lower_seq(name)
}

/// The action that sets model-id setting `key` to `id`.
pub open spec fn model_setting_action(key: Seq<char>, id: Seq<char>) -> ActionView {
    if key == "default_model"@ {
        ActionView::SetDefaultModel(id)
    } else if key == "fork_secondary_model"@ {
        ActionView::SetForkSecondaryModel(id)
    } else {
        ActionView::SetRecapModel(id)
    }
}

/// The first model named `name` resolves it, and no model resolves a name
/// that none carries.
proof fn lemma_resolve_first(models: Seq<ModelEntry>, name: Seq<char>)
    ensures
        spec_resolve_model(models, name) matches Some(id) ==> exists|i: int|
            first_named(models, name, i) && id == models[i].id@,
        spec_resolve_model(models, name) is None ==> forall|i: int|
            0 <= i < models.len() ==> lower_seq(#[trigger] models[i].name@) != lower_seq(name),
    decreases models.len(),
{
    if models.len() > 0 {
        let t = models.skip(1);
        lemma_resolve_first(t, name);
        if eq_ignore_case(models[0].name@, name) {
            assert(first_named(models, name, 0));
        } else {
            if let Some(id) = spec_resolve_model(t, name) {
                let i = choose|i: int| first_named(t, name, i) && id == t[i].id@;
                assert(t[i] == models[i + 1]);
                assert forall|j: int| 0 <= j < i + 1 implies lower_seq(#[trigger] models[j].name@)
                    != lower_seq(name) by {
                    if j > 0 {
                        assert(models[j] == t[j - 1]);
                    }
                }
                assert(first_named(models, name, i + 1));
            } else {
                assert forall|i: int| 0 <= i < models.len() implies lower_seq(#[trigger] models[i].name@)
                    != lower_seq(name) by {
                    if i > 0 {
                        assert(models[i] == t[i - 1]);
                    }
                }
            }
        }
    }
}

/// Committing a non-empty value to a model-id setting (the default model,
/// the fork's secondary model, the recap model) sets it to the id of the
/// first catalog model whose name is that value with ASCII case ignored,
/// and commits nothing when no catalog model has that name.
pub proof fn law_model_settings_resolve(models: Seq<ModelEntry>, key: Seq<char>, value: Seq<char>)
    requires
        value.len() > 0,
        key == "default_model"@ || key == "fork_secondary_model"@ || key == "recap_model"@,
    ensures
        (exists|i: int| 0 <= i < models.len() && lower_seq(#[trigger] models[i].name@) == lower_seq(value))
            ==> exists|i: int|
            first_named(models, value, i) && spec_string_action(models, key, value) == Some(
                model_setting_action(key, models[i].id@),
            ),
        (forall|i: int| 0 <= i < models.len() ==> lower_seq(#[trigger] models[i].name@) != lower_seq(value))
            ==> spec_string_action(models, key, value) is None,
{
    reveal_strlit("prompt_cursor");
    reveal_strlit("default_model");
    reveal_strlit("fork_secondary_model");
    reveal_strlit("recap_model");
    assert("prompt_cursor"@[0] != "default_model"@[0]);
    assert("prompt_cursor"@.len() != "fork_secondary_model"@.len());
    assert("default_model"@.len() != "fork_secondary_model"@.len());
    assert("prompt_cursor"@.len() != "recap_model"@.len());
    assert("default_model"@.len() != "recap_model"@.len());
    assert("fork_secondary_model"@.len() != "recap_model"@.len());
    lemma_resolve_first(models, value);
    if exists|i: int| 0 <= i < models.len() && lower_seq(#[trigger] models[i].name@) == lower_seq(value) {
        let w = choose|i: int| 0 <= i < models.len() && lower_seq(#[trigger] models[i].name@) == lower_seq(value);
        assert(lower_seq(models[w].name@) == lower_seq(value));
        let id = spec_resolve_model(models, value)->0;
        let i = choose|i: int| first_named(models, value, i) && id == models[i].id@;
        assert(first_named(models, value, i));
    }
}

/// Committing an empty value to a model-id setting clears it, whatever the
/// catalog holds.
pub proof fn law_model_settings_clear(models: Seq<ModelEntry>, key: Seq<char>)
    requires
        key == "default_model"@ || key == "fork_secondary_model"@ || key == "recap_model"@,
    ensures
        spec_string_action(models, key, Seq::empty()) == Some(
            if key == "default_model"@ {
                ActionView::ClearDefaultModel
            } else if key == "fork_secondary_model"@ {
                ActionView::ClearForkSecondaryModel
            } else {
                ActionView::ClearRecapModel
            },
        ),
{
    reveal_strlit("prompt_cursor");
    reveal_strlit("default_model");
    reveal_strlit("fork_secondary_model");
    reveal_strlit("recap_model");
    assert("prompt_cursor"@[0] != "default_model"@[0]);
    assert("prompt_cursor"@.len() != "fork_secondary_model"@.len());
    assert("default_model"@.len() != "fork_secondary_model"@.len());
    assert("prompt_cursor"@.len() != "recap_model"@.len());
    assert("default_model"@.len() != "recap_model"@.len());
    assert("fork_secondary_model"@.len() != "recap_model"@.len());
}

} // verus!
