//! Configuration of the `[ui]` table: the values the pager reads, their
//! defaults, and the resolvers that apply a default when a value is unset.
use vstd::prelude::*;
use crate::text::{chars_of, is_text, string_of};

verus! {

/// Default for `max_thoughts_width`.
pub const DEFAULT_MAX_THOUGHTS_WIDTH: u16 = 120;

/// User-config opt-outs for the per-tip contextual hints. Per-field `None`
/// means "inherit remote/default"; `Some(bool)` is a user-explicit choice.
#[derive(Debug, Clone, PartialEq, Eq, Structural)]
pub struct ContextualHints {
    pub undo: Option<bool>,
    pub plan_mode: Option<bool>,
    pub image_input: Option<bool>,
    pub send_now: Option<bool>,
    pub small_screen: Option<bool>,
    pub word_select: Option<bool>,
    pub ssh_wrap: Option<bool>,
}

impl ContextualHints {
    pub open spec fn spec_is_default(&self) -> bool {
        &&& self.undo is None
        &&& self.plan_mode is None
        &&& self.image_input is None
        &&& self.send_now is None
        &&& self.small_screen is None
        &&& self.word_select is None
        &&& self.ssh_wrap is None
    }

    /// True when no tip has a user-explicit value (all inherit).
    pub fn is_default(&self) -> (r: bool)
        ensures
            r == self.spec_is_default(),
    {
        self.undo.is_none() && self.plan_mode.is_none() && self.image_input.is_none()
            && self.send_now.is_none() && self.small_screen.is_none() && self.word_select.is_none()
            && self.ssh_wrap.is_none()
    }
}

impl Default for ContextualHints {
    fn default() -> (r: ContextualHints)
        ensures
            r.spec_is_default(),
    {
        ContextualHints {
            undo: None,
            plan_mode: None,
            image_input: None,
            send_now: None,
            small_screen: None,
            word_select: None,
            ssh_wrap: None,
        }
    }
}

/// Per-tool grok-pi preferences, applied by the bundled Pi extension at
/// session startup. PowerShell is on by default only on Windows.
#[derive(Debug, Clone, Copy, PartialEq, Eq, Structural)]
pub struct PiBuiltinTools {
    pub read: bool,
    pub bash: bool,
    pub powershell: bool,
    pub edit: bool,
    pub write: bool,
    pub grep: bool,
    pub find: bool,
    pub ls: bool,
    pub eval: bool,
}

impl PiBuiltinTools {
    pub open spec fn spec_default_for(on_windows: bool) -> PiBuiltinTools {
        PiBuiltinTools {
            read: true,
            bash: true,
            powershell: on_windows,
            edit: true,
            write: true,
            grep: false,
            find: false,
            ls: false,
            eval: false,
        }
    }

    /// The default tool set on a Windows (`on_windows`) or other host.
    pub fn default_for(on_windows: bool) -> (r: PiBuiltinTools)
        ensures
            r == Self::spec_default_for(on_windows),
    {
        PiBuiltinTools {
            read: true,
            bash: true,
            powershell: on_windows,
            edit: true,
            write: true,
            grep: false,
            find: false,
            ls: false,
            eval: false,
        }
    }

    /// Whether these are the default tools on a Windows (`on_windows`) or
    /// other host.
    pub fn is_default(&self, on_windows: bool) -> (r: bool)
        ensures
            r == (*self == Self::spec_default_for(on_windows)),
    {
        self.read && self.bash && self.powershell == on_windows && self.edit && self.write && !self.grep
            && !self.find && !self.ls && !self.eval
    }
}

/// The `[ui]` table.
pub struct UiConfig {
    pub max_thoughts_width: u16,
    pub pi_builtin_tools: PiBuiltinTools,
    pub pi_bash: bool,
    pub pi_bash_command_format: bool,
    pub write_edit_hover_popups: bool,
    pub pi_eval: String,
    pub pi_eval_v2_language: String,
    pub pi_eval_v2_display_mode: String,
    pub pi_eval_v2_only: bool,
    pub psm_resume_index: bool,
    pub pi_tree_file_rollback: bool,
    pub pi_tree_skip_summary_prompt: bool,
    pub pi_herdr: bool,
    pub pi_subagents: bool,
    pub pi_subagents_v2: bool,
    pub pi_workflows: bool,
    pub pi_todo: bool,
    pub pi_todo_v2: bool,
    pub pi_goal: bool,
    pub pi_loop: bool,
    pub pi_ask_user_question: bool,
    pub pi_ask_user_question_notifications: bool,
    pub pi_btw: bool,
    pub pi_cache_graph: bool,
    pub pi_config_skill: bool,
    pub pi_user_markdown: bool,
    pub pi_at_search_hidden: bool,
    pub pi_keep_multi_agent: bool,
    pub show_other_tool_args: bool,
    pub review_file_tree: bool,
    pub review_include_reads: bool,
    pub theme: Option<String>,
    pub fork_secondary_model: String,
    pub recap_model: String,
    pub recap_model_2: String,
    pub recap_model_3: String,
    pub btw_model: String,
    pub btw_model_2: String,
    pub btw_model_3: String,
    pub session_recap: Option<bool>,
    pub recap_mermaid: Option<bool>,
    pub progress_bar: Option<bool>,
    pub remote_tui_footer: Option<bool>,
    pub yolo: bool,
    pub ui_theme: Option<String>,
    pub compact_mode: bool,
    pub simple_mode: Option<bool>,
    pub permission_mode: Option<String>,
    pub approval_mode: Option<String>,
    pub default_selected_permission: Option<String>,
    pub show_timestamps: Option<bool>,
    pub show_timeline: Option<bool>,
    pub page_flip_on_send: Option<bool>,
    pub confirm_before_rewind: Option<bool>,
    pub auto_dark_theme: Option<String>,
    pub auto_light_theme: Option<String>,
    pub scroll_speed: Option<u8>,
    pub scroll_mode: Option<String>,
    pub invert_scroll: Option<bool>,
    pub scroll_lines: Option<u8>,
    pub vim_mode: Option<bool>,
    pub render_mermaid: Option<String>,
    pub hunk_tracker_mode: Option<String>,
    pub voice_capture_mode: Option<String>,
    pub voice_stt_language: Option<String>,
    pub voice_keybind_enabled: Option<bool>,
    pub mouse_reporting_toggle: Option<bool>,
    pub cancel_turn_key: Option<String>,
    pub cancel_subagents_on_turn_cancel: Option<String>,
    pub remember_tool_approvals: Option<bool>,
    pub keep_text_selection: Option<String>,
    pub selection_highlight_duration_ms: Option<u64>,
    pub show_thinking_blocks: Option<bool>,
    pub thinking_border_colors: Option<bool>,
    pub group_tool_verbs: Option<bool>,
    pub collapsed_edit_blocks: Option<bool>,
    pub ctrl_o_tool_expansion: Option<String>,
    pub pi_bash_run_display: Option<String>,
    pub prompt_suggestions: Option<bool>,
    pub cursor_blink: Option<bool>,
    pub screen_mode: Option<String>,
    pub double_click_action: Option<String>,
    pub contextual_hints: ContextualHints,
    pub combine_queued_prompts: Option<bool>,
    pub follow_up_behavior: Option<String>,
}

impl UiConfig {
    /// The defaults, with `default_model` as the fork secondary model and
    /// the tool defaults of a Windows (`on_windows`) or other host.
    pub fn new_default(default_model: &str, on_windows: bool) -> (r: UiConfig)
        ensures
            r.max_thoughts_width == DEFAULT_MAX_THOUGHTS_WIDTH,
            r.pi_builtin_tools == PiBuiltinTools::spec_default_for(on_windows),
            r.pi_bash == true,
            r.pi_bash_command_format == false,
            r.write_edit_hover_popups == true,
            r.pi_eval@ == "v1"@,
            r.pi_eval_v2_language@ == "js"@,
            r.pi_eval_v2_display_mode@ == "effects"@,
            r.pi_eval_v2_only == false,
            r.psm_resume_index == false,
            r.pi_tree_file_rollback == false,
            r.pi_tree_skip_summary_prompt == false,
            r.pi_herdr == false,
            r.pi_subagents == true,
            r.pi_subagents_v2 == false,
            r.pi_workflows == false,
            r.pi_todo == true,
            r.pi_todo_v2 == false,
            r.pi_goal == false,
            r.pi_loop == false,
            r.pi_ask_user_question == false,
            r.pi_ask_user_question_notifications == true,
            r.pi_btw == false,
            r.pi_cache_graph == true,
            r.pi_config_skill == true,
            r.pi_user_markdown == true,
            r.pi_at_search_hidden == true,
            r.pi_keep_multi_agent == false,
            r.show_other_tool_args == false,
            r.review_file_tree == false,
            r.review_include_reads == false,
            r.theme is None,
            r.fork_secondary_model@ == default_model@,
            r.recap_model@.len() == 0,
            r.recap_model_2@.len() == 0,
            r.recap_model_3@.len() == 0,
            r.btw_model@.len() == 0,
            r.btw_model_2@.len() == 0,
            r.btw_model_3@.len() == 0,
            r.session_recap is None,
            r.recap_mermaid is None,
            r.progress_bar is None,
            r.remote_tui_footer is None,
            r.yolo == false,
            r.ui_theme is None,
            r.compact_mode == false,
            r.simple_mode is None,
            r.permission_mode is None,
            r.approval_mode is None,
            r.default_selected_permission is None,
            r.show_timestamps is None,
            r.show_timeline is None,
            r.page_flip_on_send is None,
            r.confirm_before_rewind is None,
            r.auto_dark_theme is None,
            r.auto_light_theme is None,
            r.scroll_speed is None,
            r.scroll_mode is None,
            r.invert_scroll is None,
            r.scroll_lines is None,
            r.vim_mode is None,
            r.render_mermaid is None,
            r.hunk_tracker_mode is None,
            r.voice_capture_mode is None,
            r.voice_stt_language is None,
            r.voice_keybind_enabled is None,
            r.mouse_reporting_toggle is None,
            r.cancel_turn_key is None,
            r.cancel_subagents_on_turn_cancel is None,
            r.remember_tool_approvals is None,
            r.keep_text_selection is None,
            r.selection_highlight_duration_ms is None,
            r.show_thinking_blocks is None,
            r.thinking_border_colors is None,
            r.group_tool_verbs is None,
            r.collapsed_edit_blocks is None,
            r.ctrl_o_tool_expansion is None,
            r.pi_bash_run_display is None,
            r.prompt_suggestions is None,
            r.cursor_blink is None,
            r.screen_mode is None,
            r.double_click_action is None,
            r.contextual_hints.spec_is_default(),
            r.combine_queued_prompts is None,
            r.follow_up_behavior is None,
    {
        UiConfig {
            max_thoughts_width: DEFAULT_MAX_THOUGHTS_WIDTH,
            pi_builtin_tools: PiBuiltinTools::default_for(on_windows),
            pi_bash: true,
            pi_bash_command_format: false,
            write_edit_hover_popups: true,
            pi_eval: string_of(&chars_of("v1")),
            pi_eval_v2_language: string_of(&chars_of("js")),
            pi_eval_v2_display_mode: string_of(&chars_of("effects")),
            pi_eval_v2_only: false,
            psm_resume_index: false,
            pi_tree_file_rollback: false,
            pi_tree_skip_summary_prompt: false,
            pi_herdr: false,
            pi_subagents: true,
            pi_subagents_v2: false,
            pi_workflows: false,
            pi_todo: true,
            pi_todo_v2: false,
            pi_goal: false,
            pi_loop: false,
            pi_ask_user_question: false,
            pi_ask_user_question_notifications: true,
            pi_btw: false,
            pi_cache_graph: true,
            pi_config_skill: true,
            pi_user_markdown: true,
            pi_at_search_hidden: true,
            pi_keep_multi_agent: false,
            show_other_tool_args: false,
            review_file_tree: false,
            review_include_reads: false,
            theme: None,
            fork_secondary_model: string_of(&chars_of(default_model)),
            recap_model: String::new(),
            recap_model_2: String::new(),
            recap_model_3: String::new(),
            btw_model: String::new(),
            btw_model_2: String::new(),
            btw_model_3: String::new(),
            session_recap: None,
            recap_mermaid: None,
            progress_bar: None,
            remote_tui_footer: None,
            yolo: false,
            ui_theme: None,
            compact_mode: false,
            simple_mode: None,
            permission_mode: None,
            approval_mode: None,
            default_selected_permission: None,
            show_timestamps: None,
            show_timeline: None,
            page_flip_on_send: None,
            confirm_before_rewind: None,
            auto_dark_theme: None,
            auto_light_theme: None,
            scroll_speed: None,
            scroll_mode: None,
            invert_scroll: None,
            scroll_lines: None,
            vim_mode: None,
            render_mermaid: None,
            hunk_tracker_mode: None,
            voice_capture_mode: None,
            voice_stt_language: None,
            voice_keybind_enabled: None,
            mouse_reporting_toggle: None,
            cancel_turn_key: None,
            cancel_subagents_on_turn_cancel: None,
            remember_tool_approvals: None,
            keep_text_selection: None,
            selection_highlight_duration_ms: None,
            show_thinking_blocks: None,
            thinking_border_colors: None,
            group_tool_verbs: None,
            collapsed_edit_blocks: None,
            ctrl_o_tool_expansion: None,
            pi_bash_run_display: None,
            prompt_suggestions: None,
            cursor_blink: None,
            screen_mode: None,
            double_click_action: None,
            contextual_hints: ContextualHints::default(),
            combine_queued_prompts: None,
            follow_up_behavior: None,
        }
    }

    pub open spec fn spec_follow_up_behavior(&self) -> Seq<char> {
        match self.follow_up_behavior {
            Some(s) if s@ == "steer"@ => "steer"@,
            _ => "queue"@,
        }
    }

    pub open spec fn spec_cancel_turn_key(&self) -> Seq<char> {
        match self.cancel_turn_key {
            Some(s) if s@ == "ctrl_c"@ => "ctrl_c"@,
            _ => "esc"@,
        }
    }

    pub open spec fn spec_keep_text_selection_enabled(&self) -> bool {
        match self.keep_text_selection {
            Some(s) => s@ == "hold"@ || s@ == "word_select"@,
            None => self.selection_highlight_duration_ms == Some(0u64),
        }
    }

    /// Timeline sidebar setting; off when unset.
    pub fn show_timeline_enabled(&self) -> (r: bool)
        ensures
            r == (self.show_timeline == Some(true)),
    {
        match self.show_timeline {
            Some(b) => b,
            None => false,
        }
    }

    /// Snap a just-sent prompt to the viewport top; on when unset.
    pub fn page_flip_on_send_enabled(&self) -> (r: bool)
        ensures
            r == (self.page_flip_on_send != Some(false)),
    {
        match self.page_flip_on_send {
            Some(b) => b,
            None => true,
        }
    }

    /// Ask before rewinding; on when unset.
    pub fn confirm_before_rewind_enabled(&self) -> (r: bool)
        ensures
            r == (self.confirm_before_rewind != Some(false)),
    {
        match self.confirm_before_rewind {
            Some(b) => b,
            None => true,
        }
    }

    /// Resolved follow-up behavior: `"steer"`, or `"queue"` for anything else.
    pub fn follow_up_behavior(&self) -> (r: &'static str)
        ensures
            r@ == self.spec_follow_up_behavior(),
    {
        match &self.follow_up_behavior {
            Some(s) => if is_text(s, "steer") {
                "steer"
            } else {
                "queue"
            },
            None => "queue",
        }
    }

    /// True when mid-turn follow-ups should steer.
    pub fn follow_up_steer_enabled(&self) -> (r: bool)
        ensures
            r == (self.spec_follow_up_behavior() == "steer"@),
    {
        match &self.follow_up_behavior {
            Some(s) => {
                let r = is_text(s, "steer");
                proof {
                    reveal_strlit("steer");
                    reveal_strlit("queue");
                    assert("steer"@ != "queue"@) by {
                        assert("steer"@[0] != "queue"@[0]);
                    }
                }
                r
            },
            None => {
                proof {
                    reveal_strlit("steer");
                    reveal_strlit("queue");
                    assert("steer"@[0] != "queue"@[0]);
                }
                false
            },
        }
    }

    /// Resolved running-turn cancellation key: `"ctrl_c"`, or `"esc"` for
    /// anything else.
    pub fn cancel_turn_key(&self) -> (r: &'static str)
        ensures
            r@ == self.spec_cancel_turn_key(),
    {
        match &self.cancel_turn_key {
            Some(s) => if is_text(s, "ctrl_c") {
                "ctrl_c"
            } else {
                "esc"
            },
            None => "esc",
        }
    }

    /// True when the selection highlight should not timer-dismiss: `hold` or
    /// `word_select`, or (only when unset) a legacy duration of 0.
    pub fn keep_text_selection_enabled(&self) -> (r: bool)
        ensures
            r == self.spec_keep_text_selection_enabled(),
    {
        match &self.keep_text_selection {
            Some(s) => is_text(s, "hold") || is_text(s, "word_select"),
            None => match self.selection_highlight_duration_ms {
                Some(ms) => ms == 0,
                None => false,
            },
        }
    }
}

} // verus!
