//! The default settings catalog: every user-tunable preference of the
//! settings panel, with its category, copy, search keywords and kind.
use vstd::prelude::*;
use crate::settings::registry::{
    canonicals, kind_spec, DynamicEnumSource, EnumChoice, KindSpec, SettingCategory, SettingKind,
    SettingMeta, SettingOwner, SettingsRegistry, StringValidator,
};
use crate::commands::{ScrollMode, TextSelection};
use crate::ui_config::{PiBuiltinTools, UiConfig};

verus! {

/// Lower bound of `max_thoughts_width`: the narrowest readable panel on an
/// 80-column terminal.
pub const MAX_THOUGHTS_WIDTH_MIN: i64 = 40;

/// Upper bound of `max_thoughts_width`.
pub const MAX_THOUGHTS_WIDTH_MAX: i64 = 500;

/// Defaults that the catalog takes from the host rather than from `[ui]`.
#[derive(Debug, Clone, Copy)]
pub struct CatalogDefaults {
    /// The host is Windows: PowerShell joins the Pi tools.
    pub on_windows: bool,
    pub remember_tool_approvals: bool,
    pub respect_manual_folds: bool,
    pub side_by_side_edit: bool,
    /// The display-refresh auto cadence when `[ui]` leaves it unset.
    pub display_refresh_auto_cadence: bool,
    pub ask_user_question_timeout_enabled: bool,
}

/// Keys of a list of settings.
pub open spec fn keys_of(s: Seq<SettingMeta>) -> Seq<Seq<char>> {
    s.map_values(|m: SettingMeta| m.key@)
}

/// Key, category and label of a setting: where it sits and what it shows.
pub open spec fn head_of(m: SettingMeta) -> (Seq<char>, SettingCategory, Seq<char>) {
    (m.key@, m.category, m.label@)
}

/// Heads of a list of settings.
pub open spec fn heads_of(s: Seq<SettingMeta>) -> Seq<(Seq<char>, SettingCategory, Seq<char>)> {
    s.map_values(|m: SettingMeta| head_of(m))
}

/// The `[ui]` defaults that the catalog reads: those of a fresh `[ui]`
/// table on a host that is (or is not) Windows.
pub open spec fn catalog_ui(ui: &UiConfig, on_windows: bool) -> bool {
    &&& ui.max_thoughts_width == 120
    &&& ui.scroll_speed is None
    &&& ui.scroll_lines is None
    &&& ui.follow_up_behavior is None
    &&& ui.cancel_turn_key is None
    &&& ui.scroll_mode is None
    &&& ui.compact_mode == false
    &&& ui.show_timestamps is None
    &&& ui.show_timeline is None
    &&& ui.page_flip_on_send is None
    &&& ui.combine_queued_prompts is None
    &&& ui.confirm_before_rewind is None
    &&& ui.simple_mode is None
    &&& ui.vim_mode is None
    &&& ui.show_thinking_blocks is None
    &&& ui.thinking_border_colors is None
    &&& ui.prompt_suggestions is None
    &&& ui.group_tool_verbs is None
    &&& ui.collapsed_edit_blocks is None
    &&& ui.pi_bash_command_format == false
    &&& ui.write_edit_hover_popups == true
    &&& ui.invert_scroll is None
    &&& ui.voice_keybind_enabled is None
    &&& ui.contextual_hints.spec_is_default()
    &&& ui.pi_bash == true
    &&& ui.pi_eval_v2_only == false
    &&& ui.pi_builtin_tools == PiBuiltinTools::spec_default_for(on_windows)
    &&& ui.psm_resume_index == false
    &&& ui.pi_tree_file_rollback == false
    &&& ui.pi_tree_skip_summary_prompt == false
    &&& ui.pi_ask_user_question_notifications == true
    &&& ui.pi_cache_graph == true
    &&& ui.pi_config_skill == true
    &&& ui.pi_user_markdown == true
    &&& ui.pi_at_search_hidden == true
    &&& ui.pi_keep_multi_agent == false
    &&& ui.show_other_tool_args == false
    &&& ui.review_file_tree == false
    &&& ui.review_include_reads == false
    &&& ui.session_recap is None
    &&& ui.recap_mermaid is None
    &&& ui.progress_bar is None
    &&& ui.remote_tui_footer is None
}

/// Kind, and the minimal-mode and external-agent flags, of a setting.
pub open spec fn kind_of(m: SettingMeta) -> (KindSpec, bool, bool) {
    (kind_spec(m.kind), m.hidden_in_minimal, m.external_only)
}

/// Kinds of a list of settings.
pub open spec fn kinds_of(s: Seq<SettingMeta>) -> Seq<(KindSpec, bool, bool)> {
    s.map_values(|m: SettingMeta| kind_of(m))
}

/// Description, search keywords, owner and restart flag of a setting.
pub open spec fn text_of(m: SettingMeta) -> (Seq<char>, Seq<Seq<char>>, SettingOwner, bool) {
    (m.description@, m.keywords@.map_values(|k: &'static str| k@), m.owner, m.restart_required)
}

/// `text_of` of each setting.
pub open spec fn texts_of(s: Seq<SettingMeta>) -> Seq<(Seq<char>, Seq<Seq<char>>, SettingOwner, bool)> {
    s.map_values(|m: SettingMeta| text_of(m))
}

fn pi_eval_choices() -> (r: Vec<EnumChoice>)
    ensures
        canonicals(r@) == seq!["v1"@, "v2"@],
{
    let r = vec![
        EnumChoice {
            canonical: "v1",
            display: "v1",
            description: "Legacy Eval: persistent Python and JavaScript kernels.",
        },
        EnumChoice {
            canonical: "v2",
            display: "v2",
            description: "Eval Bridge v2: host-RPC runtime with selectable Python/JavaScript support.",
        },
    ];
    assert(canonicals(r@) =~= seq!["v1"@, "v2"@]);
    r
}

fn pi_eval_v2_language_choices() -> (r: Vec<EnumChoice>)
    ensures
        canonicals(r@) == seq!["js"@, "py"@, "all"@],
{
    let r = vec![
        EnumChoice {
            canonical: "js",
            display: "js",
            description: "Expose JavaScript only in Eval Bridge v2.",
        },
        EnumChoice {
            canonical: "py",
            display: "py",
            description: "Expose Python only in Eval Bridge v2.",
        },
        EnumChoice {
            canonical: "all",
            display: "all",
            description: "Expose both Python and JavaScript in Eval Bridge v2.",
        },
    ];
    assert(canonicals(r@) =~= seq!["js"@, "py"@, "all"@]);
    r
}

fn pi_eval_v2_display_mode_choices() -> (r: Vec<EnumChoice>)
    ensures
        canonicals(r@) == seq!["effects"@, "legacy"@],
{
    let r = vec![
        EnumChoice {
            canonical: "effects",
            display: "effects",
            description: "Hide Eval v2 orchestration source and foreground nested effects/results.",
        },
        EnumChoice {
            canonical: "legacy",
            display: "legacy",
            description: "Show the Eval v2 source/result card using the legacy presentation.",
        },
    ];
    assert(canonicals(r@) =~= seq!["effects"@, "legacy"@]);
    r
}

fn theme_choices() -> (r: Vec<EnumChoice>)
    ensures
        canonicals(r@) == seq!["auto"@, "pi:transparent"@, "pi:transparent-light"@, "groknight"@, "grokday"@, "tokyonight"@, "rosepine-moon"@, "oscura-midnight"@],
{
    let r = vec![
        EnumChoice {
            canonical: "auto",
            display: "Auto",
            description: "Follow system dark/light appearance.",
        },
        EnumChoice {
            canonical: "pi:transparent",
            display: "Transparent",
            description: "Dark transparent; terminal bg shows through.",
        },
        EnumChoice {
            canonical: "pi:transparent-light",
            display: "Transparent Light",
            description: "Light transparent; terminal bg shows through.",
        },
        EnumChoice {
            canonical: "groknight",
            display: "Grok Night",
            description: "Neutral dark with magenta accent.",
        },
        EnumChoice {
            canonical: "grokday",
            display: "Grok Day",
            description: "Light theme for bright environments.",
        },
        EnumChoice {
            canonical: "tokyonight",
            display: "Tokyo Night",
            description: "Dark + blue-tinted; needs truecolor.",
        },
        EnumChoice {
            canonical: "rosepine-moon",
            display: "Rose Pine Moon",
            description: "Muted dark with mauve accents; needs truecolor.",
        },
        EnumChoice {
            canonical: "oscura-midnight",
            display: "Oscura Midnight",
            description: "Deep dark with warm accents; needs truecolor.",
        },
    ];
    assert(canonicals(r@) =~= seq!["auto"@, "pi:transparent"@, "pi:transparent-light"@, "groknight"@, "grokday"@, "tokyonight"@, "rosepine-moon"@, "oscura-midnight"@]);
    r
}

fn permission_mode_choices() -> (r: Vec<EnumChoice>)
    ensures
        canonicals(r@) == seq!["default"@, "ask"@, "auto"@, "always-approve"@],
{
    let r = vec![
        EnumChoice {
            canonical: "default",
            display: "Default",
            description: "Use the agent's default permission behavior (currently equivalent to Ask).",
        },
        EnumChoice {
            canonical: "ask",
            display: "Ask",
            description: "Prompt for permission before tool actions.",
        },
        EnumChoice {
            canonical: "auto",
            display: "Auto",
            description: "LLM classifier approves safe tools; dangerous actions may still prompt or deny.",
        },
        EnumChoice {
            canonical: "always-approve",
            display: "Always approve",
            description: "Auto-approve every tool action. Skips ALL permission prompts.",
        },
    ];
    assert(canonicals(r@) =~= seq!["default"@, "ask"@, "auto"@, "always-approve"@]);
    r
}

fn ctrl_o_tool_expansion_choices() -> (r: Vec<EnumChoice>)
    ensures
        canonicals(r@) == seq!["write_edit"@, "all_tools"@],
{
    let r = vec![
        EnumChoice {
            canonical: "write_edit",
            display: "Write and edit",
            description: "Expand write and edit diffs (default).",
        },
        EnumChoice {
            canonical: "all_tools",
            display: "All tool output",
            description: "Expand every tool output block.",
        },
    ];
    assert(canonicals(r@) =~= seq!["write_edit"@, "all_tools"@]);
    r
}

fn coding_data_sharing_choices() -> (r: Vec<EnumChoice>)
    ensures
        canonicals(r@) == seq!["opt-in"@, "opt-out"@],
{
    let r = vec![
        EnumChoice {
            canonical: "opt-in",
            display: "Opt in",
            description: "",
        },
        EnumChoice {
            canonical: "opt-out",
            display: "Opt out",
            description: "",
        },
    ];
    assert(canonicals(r@) =~= seq!["opt-in"@, "opt-out"@]);
    r
}

fn default_selected_permission_choices() -> (r: Vec<EnumChoice>)
    ensures
        canonicals(r@) == seq!["always_allow_all_sessions"@, "allow_always"@, "allow_once"@, "reject"@],
{
    let r = vec![
        EnumChoice {
            canonical: "always_allow_all_sessions",
            display: "Always allow on all sessions",
            description: "",
        },
        EnumChoice {
            canonical: "allow_always",
            display: "Always allow",
            description: "",
        },
        EnumChoice {
            canonical: "allow_once",
            display: "Allow once",
            description: "",
        },
        EnumChoice {
            canonical: "reject",
            display: "Reject",
            description: "",
        },
    ];
    assert(canonicals(r@) =~= seq!["always_allow_all_sessions"@, "allow_always"@, "allow_once"@, "reject"@]);
    r
}

fn plan_mode_choices() -> (r: Vec<EnumChoice>)
    ensures
        canonicals(r@) == seq!["off"@, "on"@],
{
    let r = vec![
        EnumChoice {
            canonical: "off",
            display: "Off",
            description: "Agent runs tools and edits files directly (default).",
        },
        EnumChoice {
            canonical: "on",
            display: "On",
            description: "Agent summarises a plan and asks for approval before running tools.",
        },
    ];
    assert(canonicals(r@) =~= seq!["off"@, "on"@]);
    r
}

fn follow_up_behavior_choices() -> (r: Vec<EnumChoice>)
    ensures
        canonicals(r@) == seq!["queue"@, "steer"@],
{
    let r = vec![
        EnumChoice {
            canonical: "queue",
            display: "Queue",
            description: "Hold follow-ups until the current turn finishes.",
        },
        EnumChoice {
            canonical: "steer",
            display: "Steer",
            description: "Inject follow-ups mid-turn at the next tool or model step.",
        },
    ];
    assert(canonicals(r@) =~= seq!["queue"@, "steer"@]);
    r
}

fn cancel_turn_key_choices() -> (r: Vec<EnumChoice>)
    ensures
        canonicals(r@) == seq!["esc"@, "ctrl_c"@],
{
    let r = vec![
        EnumChoice {
            canonical: "esc",
            display: "Esc",
            description: "Esc cancels a running turn (default). Ctrl+C still works.",
        },
        EnumChoice {
            canonical: "ctrl_c",
            display: "Ctrl+C",
            description: "Esc is swallowed while a turn runs; Ctrl+C is required to cancel.",
        },
    ];
    assert(canonicals(r@) =~= seq!["esc"@, "ctrl_c"@]);
    r
}

fn pi_bash_run_display_choices() -> (r: Vec<EnumChoice>)
    ensures
        canonicals(r@) == seq!["command_only"@, "task_name"@, "task_name_and_command"@],
{
    let r = vec![
        EnumChoice {
            canonical: "command_only",
            display: "Command only",
            description: "Hide Task Name and show the syntax-highlighted command.",
        },
        EnumChoice {
            canonical: "task_name",
            display: "Task Name only",
            description: "Show Task Name and hide the command (default).",
        },
        EnumChoice {
            canonical: "task_name_and_command",
            display: "Task Name + command",
            description: "Show Task Name, then the syntax-highlighted command line.",
        },
    ];
    assert(canonicals(r@) =~= seq!["command_only"@, "task_name"@, "task_name_and_command"@]);
    r
}

fn render_mermaid_choices() -> (r: Vec<EnumChoice>)
    ensures
        canonicals(r@) == seq!["auto"@, "on"@, "off"@],
{
    let r = vec![
        EnumChoice {
            canonical: "auto",
            display: "Auto",
            description: "Show diagrams with a clickable row to open/copy the rendered image.",
        },
        EnumChoice {
            canonical: "on",
            display: "On",
            description: "Same as auto: always show the clickable affordance row.",
        },
        EnumChoice {
            canonical: "off",
            display: "Off",
            description: "Always show the raw Mermaid source as a code block.",
        },
    ];
    assert(canonicals(r@) =~= seq!["auto"@, "on"@, "off"@]);
    r
}

fn scroll_mode_choices() -> (r: Vec<EnumChoice>)
    ensures
        canonicals(r@) == seq!["auto"@, "wheel"@, "trackpad"@],
{
    let r = vec![
        EnumChoice {
            canonical: "auto",
            display: "Auto-detect",
            description: "Detect wheel vs trackpad per gesture from event timing. Default.",
        },
        EnumChoice {
            canonical: "wheel",
            display: "Mouse wheel",
            description: "Always treat scrolling as wheel notches (fixed lines per tick).",
        },
        EnumChoice {
            canonical: "trackpad",
            display: "Trackpad",
            description: "Always treat scrolling as a trackpad (fractional accumulation).",
        },
    ];
    assert(canonicals(r@) =~= seq!["auto"@, "wheel"@, "trackpad"@]);
    r
}

fn text_selection_choices() -> (r: Vec<EnumChoice>)
    ensures
        canonicals(r@) == seq!["flash"@, "hold"@, "word_select"@],
{
    let r = vec![
        EnumChoice {
            canonical: "flash",
            display: "Flash after copy",
            description: "Brief highlight on mouse-up, then clear. Double-click toggles fold. Default.",
        },
        EnumChoice {
            canonical: "hold",
            display: "Hold until dismissed",
            description: "Keep the selection visible until Esc, click, or scroll. Double-click toggles fold.",
        },
        EnumChoice {
            canonical: "word_select",
            display: "Word select (terminal-like)",
            description: "Double-click selects & copies a word, triple-click a paragraph; selection stays until dismissed.",
        },
    ];
    assert(canonicals(r@) =~= seq!["flash"@, "hold"@, "word_select"@]);
    r
}

fn hunk_tracker_mode_choices() -> (r: Vec<EnumChoice>)
    ensures
        canonicals(r@) == seq!["agent_only"@, "all_dirty"@, "off"@],
{
    let r = vec![
        EnumChoice {
            canonical: "agent_only",
            display: "Agent only",
            description: "Track only files the agent edits.",
        },
        EnumChoice {
            canonical: "all_dirty",
            display: "All dirty",
            description: "Track every git-dirty file, including external edits.",
        },
        EnumChoice {
            canonical: "off",
            display: "Off",
            description: "Disable hunk tracking entirely (default). Also disables LOC tracking.",
        },
    ];
    assert(canonicals(r@) =~= seq!["agent_only"@, "all_dirty"@, "off"@]);
    r
}

fn screen_mode_choices() -> (r: Vec<EnumChoice>)
    ensures
        canonicals(r@) == seq!["fullscreen"@, "minimal"@],
{
    let r = vec![
        EnumChoice {
            canonical: "fullscreen",
            display: "Fullscreen",
            description: "Open plain grok in the standard fullscreen TUI. Default when unset.",
        },
        EnumChoice {
            canonical: "minimal",
            display: "Minimal",
            description: "Open plain grok in scrollback-native (minimal) mode.",
        },
    ];
    assert(canonicals(r@) =~= seq!["fullscreen"@, "minimal"@]);
    r
}

fn voice_capture_mode_choices() -> (r: Vec<EnumChoice>)
    ensures
        canonicals(r@) == seq!["toggle"@, "hold"@],
{
    let r = vec![
        EnumChoice {
            canonical: "toggle",
            display: "Toggle",
            description: "Ctrl+Space / F8 starts dictation; press again (or Esc/Enter) to stop.",
        },
        EnumChoice {
            canonical: "hold",
            display: "Hold to talk",
            description: "Hold Ctrl+Space / F8 to record, release to stop. Needs a Kitty-protocol terminal.",
        },
    ];
    assert(canonicals(r@) =~= seq!["toggle"@, "hold"@]);
    r
}

fn voice_stt_language_choices() -> (r: Vec<EnumChoice>)
    ensures
        canonicals(r@) == seq!["en"@, "auto"@, "ar"@, "cs"@, "da"@, "nl"@, "fil"@, "fr"@, "de"@, "hi"@, "id"@, "it"@, "ja"@, "ko"@, "mk"@, "ms"@, "fa"@, "pl"@, "pt"@, "ro"@, "ru"@, "es"@, "sv"@, "th"@, "tr"@, "vi"@],
{
    let r = vec![
        EnumChoice {
            canonical: "en",
            display: "English",
            description: "",
        },
        EnumChoice {
            canonical: "auto",
            display: "System",
            description: "Use the system locale when it is a supported STT language; otherwise English.",
        },
        EnumChoice {
            canonical: "ar",
            display: "Arabic",
            description: "",
        },
        EnumChoice {
            canonical: "cs",
            display: "Czech",
            description: "",
        },
        EnumChoice {
            canonical: "da",
            display: "Danish",
            description: "",
        },
        EnumChoice {
            canonical: "nl",
            display: "Dutch",
            description: "",
        },
        EnumChoice {
            canonical: "fil",
            display: "Filipino",
            description: "",
        },
        EnumChoice {
            canonical: "fr",
            display: "French",
            description: "",
        },
        EnumChoice {
            canonical: "de",
            display: "German",
            description: "",
        },
        EnumChoice {
            canonical: "hi",
            display: "Hindi",
            description: "",
        },
        EnumChoice {
            canonical: "id",
            display: "Indonesian",
            description: "",
        },
        EnumChoice {
            canonical: "it",
            display: "Italian",
            description: "",
        },
        EnumChoice {
            canonical: "ja",
            display: "Japanese",
            description: "",
        },
        EnumChoice {
            canonical: "ko",
            display: "Korean",
            description: "",
        },
        EnumChoice {
            canonical: "mk",
            display: "Macedonian",
            description: "",
        },
        EnumChoice {
            canonical: "ms",
            display: "Malay",
            description: "",
        },
        EnumChoice {
            canonical: "fa",
            display: "Persian",
            description: "",
        },
        EnumChoice {
            canonical: "pl",
            display: "Polish",
            description: "",
        },
        EnumChoice {
            canonical: "pt",
            display: "Portuguese",
            description: "",
        },
        EnumChoice {
            canonical: "ro",
            display: "Romanian",
            description: "",
        },
        EnumChoice {
            canonical: "ru",
            display: "Russian",
            description: "",
        },
        EnumChoice {
            canonical: "es",
            display: "Spanish",
            description: "",
        },
        EnumChoice {
            canonical: "sv",
            display: "Swedish",
            description: "",
        },
        EnumChoice {
            canonical: "th",
            display: "Thai",
            description: "",
        },
        EnumChoice {
            canonical: "tr",
            display: "Turkish",
            description: "",
        },
        EnumChoice {
            canonical: "vi",
            display: "Vietnamese",
            description: "",
        },
    ];
    assert(canonicals(r@) =~= seq!["en"@, "auto"@, "ar"@, "cs"@, "da"@, "nl"@, "fil"@, "fr"@, "de"@, "hi"@, "id"@, "it"@, "ja"@, "ko"@, "mk"@, "ms"@, "fa"@, "pl"@, "pt"@, "ro"@, "ru"@, "es"@, "sv"@, "th"@, "tr"@, "vi"@]);
    r
}

fn concrete_theme_choices() -> (r: Vec<EnumChoice>)
    ensures
        canonicals(r@) == seq!["pi:transparent"@, "pi:transparent-light"@, "groknight"@, "grokday"@, "tokyonight"@, "rosepine-moon"@, "oscura-midnight"@],
{
    let r = vec![
        EnumChoice {
            canonical: "pi:transparent",
            display: "Transparent",
            description: "Dark transparent; terminal bg shows through.",
        },
        EnumChoice {
            canonical: "pi:transparent-light",
            display: "Transparent Light",
            description: "Light transparent; terminal bg shows through.",
        },
        EnumChoice {
            canonical: "groknight",
            display: "Grok Night",
            description: "Neutral dark with magenta accent.",
        },
        EnumChoice {
            canonical: "grokday",
            display: "Grok Day",
            description: "Light theme for bright environments.",
        },
        EnumChoice {
            canonical: "tokyonight",
            display: "Tokyo Night",
            description: "Dark + blue-tinted; needs truecolor.",
        },
        EnumChoice {
            canonical: "rosepine-moon",
            display: "Rose Pine Moon",
            description: "Muted dark with mauve accents; needs truecolor.",
        },
        EnumChoice {
            canonical: "oscura-midnight",
            display: "Oscura Midnight",
            description: "Deep dark with warm accents; needs truecolor.",
        },
    ];
    assert(canonicals(r@) =~= seq!["pi:transparent"@, "pi:transparent-light"@, "groknight"@, "grokday"@, "tokyonight"@, "rosepine-moon"@, "oscura-midnight"@]);
    r
}

/// `[ui].scroll_mode`, or its default when unset or unknown.
fn scroll_mode_default(ui: &UiConfig) -> (r: &'static str)
    ensures
        ui.scroll_mode is None ==> r@ == "auto"@,
{
    let mode = match &ui.scroll_mode {
        Some(s) => match ScrollMode::from_canonical(s.as_str()) {
            Some(m) => m,
            None => ScrollMode::Auto,
        },
        None => ScrollMode::Auto,
    };
    mode.as_canonical()
}

/// Heads of the settings built by `catalog_part_1`.
pub open spec fn spec_catalog_part_1() -> Seq<(Seq<char>, SettingCategory, Seq<char>)> {
    seq![("compact_mode"@, SettingCategory::Appearance, "Compact mode"@), ("screen_mode"@, SettingCategory::Appearance, "Default screen mode"@), ("show_timestamps"@, SettingCategory::Appearance, "Show timestamps"@), ("show_timeline"@, SettingCategory::Appearance, "Timeline sidebar"@), ("page_flip_on_send"@, SettingCategory::Appearance, "Snap prompt to top on send"@), ("combine_queued_prompts"@, SettingCategory::Editor, "Combine queued prompts"@), ("follow_up_behavior"@, SettingCategory::Editor, "Follow-up behavior"@), ("cancel_turn_key"@, SettingCategory::Editor, "Cancel running turn"@), ("confirm_before_rewind"@, SettingCategory::Editor, "Confirm before rewind"@), ("simple_mode"@, SettingCategory::Appearance, "Disable vim input mode"@), ("vim_mode"@, SettingCategory::Appearance, "Vim scrollback navigation"@), ("theme"@, SettingCategory::Appearance, "Theme"@), ("auto_dark_theme"@, SettingCategory::Appearance, "Auto dark theme"@), ("auto_light_theme"@, SettingCategory::Appearance, "Auto light theme"@)]
}

/// Kinds and flags of the settings built by `catalog_part_1`.
pub open spec fn spec_catalog_kinds_1(env: CatalogDefaults) -> Seq<(KindSpec, bool, bool)> {
    seq![(KindSpec::Bool(false), false, false), (KindSpec::Enum("fullscreen"@, seq!["fullscreen"@, "minimal"@], false), false, false), (KindSpec::Bool(true), false, false), (KindSpec::Bool(false), true, false), (KindSpec::Bool(true), true, false), (KindSpec::Bool(false), false, false), (KindSpec::Enum("queue"@, seq!["queue"@, "steer"@], false), false, false), (KindSpec::Enum("esc"@, seq!["esc"@, "ctrl_c"@], false), false, false), (KindSpec::Bool(true), false, false), (KindSpec::Bool(true), false, false), (KindSpec::Bool(false), false, false), (KindSpec::Enum("groknight"@, seq!["auto"@, "pi:transparent"@, "pi:transparent-light"@, "groknight"@, "grokday"@, "tokyonight"@, "rosepine-moon"@, "oscura-midnight"@], true), true, false), (KindSpec::Enum("groknight"@, seq!["pi:transparent"@, "pi:transparent-light"@, "groknight"@, "grokday"@, "tokyonight"@, "rosepine-moon"@, "oscura-midnight"@], true), true, false), (KindSpec::Enum("grokday"@, seq!["pi:transparent"@, "pi:transparent-light"@, "groknight"@, "grokday"@, "tokyonight"@, "rosepine-moon"@, "oscura-midnight"@], true), true, false)]
}

#[verifier::rlimit(80)]
fn catalog_part_1(ui: &UiConfig, env: &CatalogDefaults) -> (r: Vec<SettingMeta>)
    requires
        catalog_ui(ui, env.on_windows),
    ensures
        heads_of(r@) == spec_catalog_part_1(),
        kinds_of(r@) == spec_catalog_kinds_1(*env),
        texts_of(r@) == spec_catalog_texts_1(env.on_windows),
        forall|i: int| 0 <= i < r@.len() ==> (#[trigger] r@[i]).wf(),
{
    let mut v: Vec<SettingMeta> = Vec::new();
    let ghost mut heads: Seq<(Seq<char>, SettingCategory, Seq<char>)> = Seq::empty();
    let ghost mut kinds: Seq<(KindSpec, bool, bool)> = Seq::empty();
    let ghost mut texts: Seq<(Seq<char>, Seq<Seq<char>>, SettingOwner, bool)> = Seq::empty();
    let m = SettingMeta {
        key: "compact_mode",
        category: SettingCategory::Appearance,
        owner: SettingOwner::Shared,
        label: "Compact mode",
        description: "Reduce padding around messages for more content density. Auto-enabled while the terminal is 20 rows or shorter.",
        keywords: vec!["compact", "density", "padding", "tight", "small", "screen", "auto"],
        kind: SettingKind::Bool { default: ui.compact_mode },
        restart_required: false,
        hidden_in_minimal: false,
        external_only: false,
    };
    assert(m.wf());
    assert(m.keywords@.map_values(|k: &'static str| k@) =~= seq!["compact"@, "density"@, "padding"@, "tight"@, "small"@, "screen"@, "auto"@]);
    v.push(m);
    proof {
        heads = heads.push(("compact_mode"@, SettingCategory::Appearance, "Compact mode"@));
        kinds = kinds.push((KindSpec::Bool(false), false, false));
        texts = texts.push(("Reduce padding around messages for more content density. Auto-enabled while the terminal is 20 rows or shorter."@, seq!["compact"@, "density"@, "padding"@, "tight"@, "small"@, "screen"@, "auto"@], SettingOwner::Shared, false));
    }
    assert(heads_of(v@) =~= heads);
    assert(kinds_of(v@) =~= kinds);
    assert(texts_of(v@) =~= texts);
    assert(forall|i: int| 0 <= i < v@.len() ==> (#[trigger] v@[i]).wf());
    let c_screen_mode = screen_mode_choices();
    assert(canonicals(c_screen_mode@)[0] == "fullscreen"@);
    assert(canonicals(c_screen_mode@)[1] == "minimal"@);
    let m = SettingMeta {
        key: "screen_mode",
        category: SettingCategory::Appearance,
        owner: SettingOwner::Shell,
        label: "Default screen mode",
        description: "How plain grok opens next time: Fullscreen (default when unset) or Minimal. Writes [ui] screen_mode in config.toml. Restart required. Switch this session only with /minimal or /fullscreen.",
        keywords: vec!["screen", "mode", "minimal", "fullscreen", "full", "scrollback", "native", "alt-screen", "render", "default"],
        kind: SettingKind::Enum { default: "fullscreen", choices: c_screen_mode, supports_preview: false },
        restart_required: true,
        hidden_in_minimal: false,
        external_only: false,
    };
    assert(m.wf());
    assert(m.keywords@.map_values(|k: &'static str| k@) =~= seq!["screen"@, "mode"@, "minimal"@, "fullscreen"@, "full"@, "scrollback"@, "native"@, "alt-screen"@, "render"@, "default"@]);
    v.push(m);
    proof {
        heads = heads.push(("screen_mode"@, SettingCategory::Appearance, "Default screen mode"@));
        kinds = kinds.push((KindSpec::Enum("fullscreen"@, seq!["fullscreen"@, "minimal"@], false), false, false));
        texts = texts.push(("How plain grok opens next time: Fullscreen (default when unset) or Minimal. Writes [ui] screen_mode in config.toml. Restart required. Switch this session only with /minimal or /fullscreen."@, seq!["screen"@, "mode"@, "minimal"@, "fullscreen"@, "full"@, "scrollback"@, "native"@, "alt-screen"@, "render"@, "default"@], SettingOwner::Shell, true));
    }
    assert(heads_of(v@) =~= heads);
    assert(kinds_of(v@) =~= kinds);
    assert(texts_of(v@) =~= texts);
    assert(forall|i: int| 0 <= i < v@.len() ==> (#[trigger] v@[i]).wf());
    let m = SettingMeta {
        key: "show_timestamps",
        category: SettingCategory::Appearance,
        owner: SettingOwner::Shared,
        label: "Show timestamps",
        description: "Show clock time next to user messages and agent responses.",
        keywords: vec!["timestamps", "time", "clock", "date"],
        kind: SettingKind::Bool { default: match ui.show_timestamps { Some(b) => b, None => true } },
        restart_required: false,
        hidden_in_minimal: false,
        external_only: false,
    };
    assert(m.wf());
    assert(m.keywords@.map_values(|k: &'static str| k@) =~= seq!["timestamps"@, "time"@, "clock"@, "date"@]);
    v.push(m);
    proof {
        heads = heads.push(("show_timestamps"@, SettingCategory::Appearance, "Show timestamps"@));
        kinds = kinds.push((KindSpec::Bool(true), false, false));
        texts = texts.push(("Show clock time next to user messages and agent responses."@, seq!["timestamps"@, "time"@, "clock"@, "date"@], SettingOwner::Shared, false));
    }
    assert(heads_of(v@) =~= heads);
    assert(kinds_of(v@) =~= kinds);
    assert(texts_of(v@) =~= texts);
    assert(forall|i: int| 0 <= i < v@.len() ==> (#[trigger] v@[i]).wf());
    let m = SettingMeta {
        key: "show_timeline",
        category: SettingCategory::Appearance,
        owner: SettingOwner::Shared,
        label: "Timeline sidebar",
        description: "Per-turn tick rail in place of the scrollbar: hover previews a turn, click jumps to it.",
        keywords: vec!["timeline", "sidebar", "ticks", "turns", "navigator", "rail"],
        kind: SettingKind::Bool { default: ui.show_timeline_enabled() },
        restart_required: false,
        hidden_in_minimal: true,
        external_only: false,
    };
    assert(m.wf());
    assert(m.keywords@.map_values(|k: &'static str| k@) =~= seq!["timeline"@, "sidebar"@, "ticks"@, "turns"@, "navigator"@, "rail"@]);
    v.push(m);
    proof {
        heads = heads.push(("show_timeline"@, SettingCategory::Appearance, "Timeline sidebar"@));
        kinds = kinds.push((KindSpec::Bool(false), true, false));
        texts = texts.push(("Per-turn tick rail in place of the scrollbar: hover previews a turn, click jumps to it."@, seq!["timeline"@, "sidebar"@, "ticks"@, "turns"@, "navigator"@, "rail"@], SettingOwner::Shared, false));
    }
    assert(heads_of(v@) =~= heads);
    assert(kinds_of(v@) =~= kinds);
    assert(texts_of(v@) =~= texts);
    assert(forall|i: int| 0 <= i < v@.len() ==> (#[trigger] v@[i]).wf());
    let m = SettingMeta {
        key: "page_flip_on_send",
        category: SettingCategory::Appearance,
        owner: SettingOwner::Shared,
        label: "Snap prompt to top on send",
        description: "When you send a prompt, scroll it to the top of the screen so the response starts on a fresh page (default). Turn off to leave the scroll position unchanged when you send.",
        keywords: vec!["page", "flip", "send", "prompt", "scroll", "top", "jump", "auto", "snap"],
        kind: SettingKind::Bool { default: ui.page_flip_on_send_enabled() },
        restart_required: false,
        hidden_in_minimal: true,
        external_only: false,
    };
    assert(m.wf());
    assert(m.keywords@.map_values(|k: &'static str| k@) =~= seq!["page"@, "flip"@, "send"@, "prompt"@, "scroll"@, "top"@, "jump"@, "auto"@, "snap"@]);
    v.push(m);
    proof {
        heads = heads.push(("page_flip_on_send"@, SettingCategory::Appearance, "Snap prompt to top on send"@));
        kinds = kinds.push((KindSpec::Bool(true), true, false));
        texts = texts.push(("When you send a prompt, scroll it to the top of the screen so the response starts on a fresh page (default). Turn off to leave the scroll position unchanged when you send."@, seq!["page"@, "flip"@, "send"@, "prompt"@, "scroll"@, "top"@, "jump"@, "auto"@, "snap"@], SettingOwner::Shared, false));
    }
    assert(heads_of(v@) =~= heads);
    assert(kinds_of(v@) =~= kinds);
    assert(texts_of(v@) =~= texts);
    assert(forall|i: int| 0 <= i < v@.len() ==> (#[trigger] v@[i]).wf());
    let m = SettingMeta {
        key: "combine_queued_prompts",
        category: SettingCategory::Editor,
        owner: SettingOwner::Shared,
        label: "Combine queued prompts",
        description: "Merge consecutive plain follow-ups into one model turn (TUI shows one bubble each). Stops at bash, slash commands, cron, expanded skills, image follow-ups, or a row under edit. Default off; applies on local drain and shell promote.",
        keywords: vec!["queue", "combine", "batch", "follow-up", "merge", "pending"],
        kind: SettingKind::Bool { default: match ui.combine_queued_prompts { Some(b) => b, None => false } },
        restart_required: false,
        hidden_in_minimal: false,
        external_only: false,
    };
    assert(m.wf());
    assert(m.keywords@.map_values(|k: &'static str| k@) =~= seq!["queue"@, "combine"@, "batch"@, "follow-up"@, "merge"@, "pending"@]);
    v.push(m);
    proof {
        heads = heads.push(("combine_queued_prompts"@, SettingCategory::Editor, "Combine queued prompts"@));
        kinds = kinds.push((KindSpec::Bool(false), false, false));
        texts = texts.push(("Merge consecutive plain follow-ups into one model turn (TUI shows one bubble each). Stops at bash, slash commands, cron, expanded skills, image follow-ups, or a row under edit. Default off; applies on local drain and shell promote."@, seq!["queue"@, "combine"@, "batch"@, "follow-up"@, "merge"@, "pending"@], SettingOwner::Shared, false));
    }
    assert(heads_of(v@) =~= heads);
    assert(kinds_of(v@) =~= kinds);
    assert(texts_of(v@) =~= texts);
    assert(forall|i: int| 0 <= i < v@.len() ==> (#[trigger] v@[i]).wf());
    let c_follow_up_behavior = follow_up_behavior_choices();
    assert(canonicals(c_follow_up_behavior@)[0] == "queue"@);
    assert(canonicals(c_follow_up_behavior@)[1] == "steer"@);
    let m = SettingMeta {
        key: "follow_up_behavior",
        category: SettingCategory::Editor,
        owner: SettingOwner::Shared,
        label: "Follow-up behavior",
        description: "What to do with messages you send while a turn is running. Queue waits for the turn to finish; Steer injects them mid-turn at the next tool batch or model step. Default: Queue.",
        keywords: vec!["queue", "steer", "interject", "follow-up", "followup", "send", "immediate"],
        kind: SettingKind::Enum { default: ui.follow_up_behavior(), choices: c_follow_up_behavior, supports_preview: false },
        restart_required: false,
        hidden_in_minimal: false,
        external_only: false,
    };
    assert(m.wf());
    assert(m.keywords@.map_values(|k: &'static str| k@) =~= seq!["queue"@, "steer"@, "interject"@, "follow-up"@, "followup"@, "send"@, "immediate"@]);
    v.push(m);
    proof {
        heads = heads.push(("follow_up_behavior"@, SettingCategory::Editor, "Follow-up behavior"@));
        kinds = kinds.push((KindSpec::Enum("queue"@, seq!["queue"@, "steer"@], false), false, false));
        texts = texts.push(("What to do with messages you send while a turn is running. Queue waits for the turn to finish; Steer injects them mid-turn at the next tool batch or model step. Default: Queue."@, seq!["queue"@, "steer"@, "interject"@, "follow-up"@, "followup"@, "send"@, "immediate"@], SettingOwner::Shared, false));
    }
    assert(heads_of(v@) =~= heads);
    assert(kinds_of(v@) =~= kinds);
    assert(texts_of(v@) =~= texts);
    assert(forall|i: int| 0 <= i < v@.len() ==> (#[trigger] v@[i]).wf());
    let c_cancel_turn_key = cancel_turn_key_choices();
    assert(canonicals(c_cancel_turn_key@)[0] == "esc"@);
    assert(canonicals(c_cancel_turn_key@)[1] == "ctrl_c"@);
    let m = SettingMeta {
        key: "cancel_turn_key",
        category: SettingCategory::Editor,
        owner: SettingOwner::Shared,
        label: "Cancel running turn",
        description: "Choose whether Esc cancels a running turn or Ctrl+C is required. Default: Esc.",
        keywords: vec!["cancel", "stop", "interrupt", "esc", "escape", "ctrl+c", "key"],
        kind: SettingKind::Enum { default: ui.cancel_turn_key(), choices: c_cancel_turn_key, supports_preview: false },
        restart_required: false,
        hidden_in_minimal: false,
        external_only: false,
    };
    assert(m.wf());
    assert(m.keywords@.map_values(|k: &'static str| k@) =~= seq!["cancel"@, "stop"@, "interrupt"@, "esc"@, "escape"@, "ctrl+c"@, "key"@]);
    v.push(m);
    proof {
        heads = heads.push(("cancel_turn_key"@, SettingCategory::Editor, "Cancel running turn"@));
        kinds = kinds.push((KindSpec::Enum("esc"@, seq!["esc"@, "ctrl_c"@], false), false, false));
        texts = texts.push(("Choose whether Esc cancels a running turn or Ctrl+C is required. Default: Esc."@, seq!["cancel"@, "stop"@, "interrupt"@, "esc"@, "escape"@, "ctrl+c"@, "key"@], SettingOwner::Shared, false));
    }
    assert(heads_of(v@) =~= heads);
    assert(kinds_of(v@) =~= kinds);
    assert(texts_of(v@) =~= texts);
    assert(forall|i: int| 0 <= i < v@.len() ==> (#[trigger] v@[i]).wf());
    let m = SettingMeta {
        key: "confirm_before_rewind",
        category: SettingCategory::Editor,
        owner: SettingOwner::Shared,
        label: "Confirm before rewind",
        description: "Ask before rewinding conversation history. Turn off to rewind immediately when you pick a turn.",
        keywords: vec!["rewind", "confirm", "undo", "history", "ask", "prompt"],
        kind: SettingKind::Bool { default: ui.confirm_before_rewind_enabled() },
        restart_required: false,
        hidden_in_minimal: false,
        external_only: false,
    };
    assert(m.wf());
    assert(m.keywords@.map_values(|k: &'static str| k@) =~= seq!["rewind"@, "confirm"@, "undo"@, "history"@, "ask"@, "prompt"@]);
    v.push(m);
    proof {
        heads = heads.push(("confirm_before_rewind"@, SettingCategory::Editor, "Confirm before rewind"@));
        kinds = kinds.push((KindSpec::Bool(true), false, false));
        texts = texts.push(("Ask before rewinding conversation history. Turn off to rewind immediately when you pick a turn."@, seq!["rewind"@, "confirm"@, "undo"@, "history"@, "ask"@, "prompt"@], SettingOwner::Shared, false));
    }
    assert(heads_of(v@) =~= heads);
    assert(kinds_of(v@) =~= kinds);
    assert(texts_of(v@) =~= texts);
    assert(forall|i: int| 0 <= i < v@.len() ==> (#[trigger] v@[i]).wf());
    let m = SettingMeta {
        key: "simple_mode",
        category: SettingCategory::Appearance,
        owner: SettingOwner::Shared,
        label: "Disable vim input mode",
        description: "Use plain readline-style input instead of vim keys in the prompt. Experimental.",
        keywords: vec!["simple", "ascii", "minimal", "plain", "vim", "readline", "experimental", "editor", "input", "prompt"],
        kind: SettingKind::Bool { default: match ui.simple_mode { Some(b) => b, None => true } },
        restart_required: false,
        hidden_in_minimal: false,
        external_only: false,
    };
    assert(m.wf());
    assert(m.keywords@.map_values(|k: &'static str| k@) =~= seq!["simple"@, "ascii"@, "minimal"@, "plain"@, "vim"@, "readline"@, "experimental"@, "editor"@, "input"@, "prompt"@]);
    v.push(m);
    proof {
        heads = heads.push(("simple_mode"@, SettingCategory::Appearance, "Disable vim input mode"@));
        kinds = kinds.push((KindSpec::Bool(true), false, false));
        texts = texts.push(("Use plain readline-style input instead of vim keys in the prompt. Experimental."@, seq!["simple"@, "ascii"@, "minimal"@, "plain"@, "vim"@, "readline"@, "experimental"@, "editor"@, "input"@, "prompt"@], SettingOwner::Shared, false));
    }
    assert(heads_of(v@) =~= heads);
    assert(kinds_of(v@) =~= kinds);
    assert(texts_of(v@) =~= texts);
    assert(forall|i: int| 0 <= i < v@.len() ==> (#[trigger] v@[i]).wf());
    let m = SettingMeta {
        key: "vim_mode",
        category: SettingCategory::Appearance,
        owner: SettingOwner::Shell,
        label: "Vim scrollback navigation",
        description: "Enable vim keys (h/j/k/l, gg/G, /) for navigating the scrollback. Does not affect the input prompt.",
        keywords: vec!["vim", "scrollback", "navigation", "hjkl", "keys", "keybindings", "scroll"],
        kind: SettingKind::Bool { default: match ui.vim_mode { Some(b) => b, None => false } },
        restart_required: false,
        hidden_in_minimal: false,
        external_only: false,
    };
    assert(m.wf());
    assert(m.keywords@.map_values(|k: &'static str| k@) =~= seq!["vim"@, "scrollback"@, "navigation"@, "hjkl"@, "keys"@, "keybindings"@, "scroll"@]);
    v.push(m);
    proof {
        heads = heads.push(("vim_mode"@, SettingCategory::Appearance, "Vim scrollback navigation"@));
        kinds = kinds.push((KindSpec::Bool(false), false, false));
        texts = texts.push(("Enable vim keys (h/j/k/l, gg/G, /) for navigating the scrollback. Does not affect the input prompt."@, seq!["vim"@, "scrollback"@, "navigation"@, "hjkl"@, "keys"@, "keybindings"@, "scroll"@], SettingOwner::Shell, false));
    }
    assert(heads_of(v@) =~= heads);
    assert(kinds_of(v@) =~= kinds);
    assert(texts_of(v@) =~= texts);
    assert(forall|i: int| 0 <= i < v@.len() ==> (#[trigger] v@[i]).wf());
    let c_theme = theme_choices();
    assert(canonicals(c_theme@)[0] == "auto"@);
    assert(canonicals(c_theme@)[1] == "pi:transparent"@);
    assert(canonicals(c_theme@)[2] == "pi:transparent-light"@);
    assert(canonicals(c_theme@)[3] == "groknight"@);
    assert(canonicals(c_theme@)[4] == "grokday"@);
    assert(canonicals(c_theme@)[5] == "tokyonight"@);
    assert(canonicals(c_theme@)[6] == "rosepine-moon"@);
    assert(canonicals(c_theme@)[7] == "oscura-midnight"@);
    let m = SettingMeta {
        key: "theme",
        category: SettingCategory::Appearance,
        owner: SettingOwner::Shared,
        label: "Theme",
        description: "Color theme for the pager UI.",
        keywords: vec!["theme", "color", "colour", "palette", "appearance", "dark", "light"],
        kind: SettingKind::Enum { default: "groknight", choices: c_theme, supports_preview: true },
        restart_required: false,
        hidden_in_minimal: true,
        external_only: false,
    };
    assert(m.wf());
    assert(m.keywords@.map_values(|k: &'static str| k@) =~= seq!["theme"@, "color"@, "colour"@, "palette"@, "appearance"@, "dark"@, "light"@]);
    v.push(m);
    proof {
        heads = heads.push(("theme"@, SettingCategory::Appearance, "Theme"@));
        kinds = kinds.push((KindSpec::Enum("groknight"@, seq!["auto"@, "pi:transparent"@, "pi:transparent-light"@, "groknight"@, "grokday"@, "tokyonight"@, "rosepine-moon"@, "oscura-midnight"@], true), true, false));
        texts = texts.push(("Color theme for the pager UI."@, seq!["theme"@, "color"@, "colour"@, "palette"@, "appearance"@, "dark"@, "light"@], SettingOwner::Shared, false));
    }
    assert(heads_of(v@) =~= heads);
    assert(kinds_of(v@) =~= kinds);
    assert(texts_of(v@) =~= texts);
    assert(forall|i: int| 0 <= i < v@.len() ==> (#[trigger] v@[i]).wf());
    let c_auto_dark_theme = concrete_theme_choices();
    assert(canonicals(c_auto_dark_theme@)[0] == "pi:transparent"@);
    assert(canonicals(c_auto_dark_theme@)[1] == "pi:transparent-light"@);
    assert(canonicals(c_auto_dark_theme@)[2] == "groknight"@);
    assert(canonicals(c_auto_dark_theme@)[3] == "grokday"@);
    assert(canonicals(c_auto_dark_theme@)[4] == "tokyonight"@);
    assert(canonicals(c_auto_dark_theme@)[5] == "rosepine-moon"@);
    assert(canonicals(c_auto_dark_theme@)[6] == "oscura-midnight"@);
    let m = SettingMeta {
        key: "auto_dark_theme",
        category: SettingCategory::Appearance,
        owner: SettingOwner::Shared,
        label: "Auto dark theme",
        description: "Theme to use when the system is in dark mode (only with theme=auto).",
        keywords: vec!["auto", "dark", "theme", "system", "appearance", "night"],
        kind: SettingKind::Enum { default: "groknight", choices: c_auto_dark_theme, supports_preview: true },
        restart_required: false,
        hidden_in_minimal: true,
        external_only: false,
    };
    assert(m.wf());
    assert(m.keywords@.map_values(|k: &'static str| k@) =~= seq!["auto"@, "dark"@, "theme"@, "system"@, "appearance"@, "night"@]);
    v.push(m);
    proof {
        heads = heads.push(("auto_dark_theme"@, SettingCategory::Appearance, "Auto dark theme"@));
        kinds = kinds.push((KindSpec::Enum("groknight"@, seq!["pi:transparent"@, "pi:transparent-light"@, "groknight"@, "grokday"@, "tokyonight"@, "rosepine-moon"@, "oscura-midnight"@], true), true, false));
        texts = texts.push(("Theme to use when the system is in dark mode (only with theme=auto)."@, seq!["auto"@, "dark"@, "theme"@, "system"@, "appearance"@, "night"@], SettingOwner::Shared, false));
    }
    assert(heads_of(v@) =~= heads);
    assert(kinds_of(v@) =~= kinds);
    assert(texts_of(v@) =~= texts);
    assert(forall|i: int| 0 <= i < v@.len() ==> (#[trigger] v@[i]).wf());
    let c_auto_light_theme = concrete_theme_choices();
    assert(canonicals(c_auto_light_theme@)[0] == "pi:transparent"@);
    assert(canonicals(c_auto_light_theme@)[1] == "pi:transparent-light"@);
    assert(canonicals(c_auto_light_theme@)[2] == "groknight"@);
    assert(canonicals(c_auto_light_theme@)[3] == "grokday"@);
    assert(canonicals(c_auto_light_theme@)[4] == "tokyonight"@);
    assert(canonicals(c_auto_light_theme@)[5] == "rosepine-moon"@);
    assert(canonicals(c_auto_light_theme@)[6] == "oscura-midnight"@);
    let m = SettingMeta {
        key: "auto_light_theme",
        category: SettingCategory::Appearance,
        owner: SettingOwner::Shared,
        label: "Auto light theme",
        description: "Theme to use when the system is in light mode (only with theme=auto).",
        keywords: vec!["auto", "light", "theme", "system", "appearance", "day"],
        kind: SettingKind::Enum { default: "grokday", choices: c_auto_light_theme, supports_preview: true },
        restart_required: false,
        hidden_in_minimal: true,
        external_only: false,
    };
    assert(m.wf());
    assert(m.keywords@.map_values(|k: &'static str| k@) =~= seq!["auto"@, "light"@, "theme"@, "system"@, "appearance"@, "day"@]);
    v.push(m);
    proof {
        heads = heads.push(("auto_light_theme"@, SettingCategory::Appearance, "Auto light theme"@));
        kinds = kinds.push((KindSpec::Enum("grokday"@, seq!["pi:transparent"@, "pi:transparent-light"@, "groknight"@, "grokday"@, "tokyonight"@, "rosepine-moon"@, "oscura-midnight"@], true), true, false));
        texts = texts.push(("Theme to use when the system is in light mode (only with theme=auto)."@, seq!["auto"@, "light"@, "theme"@, "system"@, "appearance"@, "day"@], SettingOwner::Shared, false));
    }
    assert(heads_of(v@) =~= heads);
    assert(kinds_of(v@) =~= kinds);
    assert(texts_of(v@) =~= texts);
    assert(forall|i: int| 0 <= i < v@.len() ==> (#[trigger] v@[i]).wf());
    assert(heads =~= spec_catalog_part_1());
    assert(kinds =~= spec_catalog_kinds_1(*env));
    assert(texts =~= spec_catalog_texts_1(env.on_windows));
    v
}

/// Heads of the settings built by `catalog_part_2`.
pub open spec fn spec_catalog_part_2() -> Seq<(Seq<char>, SettingCategory, Seq<char>)> {
    seq![("render_mermaid"@, SettingCategory::Appearance, "Render Mermaid diagrams"@), ("permission_mode"@, SettingCategory::Agent, "Permission mode"@), ("remember_tool_approvals"@, SettingCategory::Agent, "Remember tool approvals"@), ("multiline_mode"@, SettingCategory::Editor, "Multiline"@), ("default_model"@, SettingCategory::Models, "Default model"@), ("max_thoughts_width"@, SettingCategory::Appearance, "Max thoughts width"@), ("show_thinking_blocks"@, SettingCategory::Appearance, "Show thinking blocks"@), ("thinking_border_colors"@, SettingCategory::Appearance, "Thinking border colors"@), ("prompt_suggestions"@, SettingCategory::Editor, "Prompt suggestions"@), ("prompt_cursor"@, SettingCategory::Appearance, "Prompt cursor"@), ("respect_manual_folds"@, SettingCategory::Appearance, "Respect manual folds"@), ("group_tool_verbs"@, SettingCategory::Appearance, "Group tool calls"@), ("collapsed_edit_blocks"@, SettingCategory::Appearance, "Collapsed edit blocks"@), ("side_by_side_edit"@, SettingCategory::Appearance, "Side-by-side edit diffs"@)]
}

/// Kinds and flags of the settings built by `catalog_part_2`.
pub open spec fn spec_catalog_kinds_2(env: CatalogDefaults) -> Seq<(KindSpec, bool, bool)> {
    seq![(KindSpec::Enum("auto"@, seq!["auto"@, "on"@, "off"@], false), false, false), (KindSpec::Enum("ask"@, seq!["default"@, "ask"@, "auto"@, "always-approve"@], false), false, false), (KindSpec::Bool(env.remember_tool_approvals), false, false), (KindSpec::Bool(false), false, false), (KindSpec::DynamicEnum(""@, DynamicEnumSource::ActiveModelCatalog, false), false, false), (KindSpec::Int(120, MAX_THOUGHTS_WIDTH_MIN, MAX_THOUGHTS_WIDTH_MAX), false, false), (KindSpec::Bool(true), false, false), (KindSpec::Bool(true), false, false), (KindSpec::Bool(true), false, false), (KindSpec::String("native"@, StringValidator::PromptCursor), false, false), (KindSpec::Bool(env.respect_manual_folds), false, false), (KindSpec::Bool(true), false, false), (KindSpec::Bool(false), false, false), (KindSpec::Bool(env.side_by_side_edit), false, true)]
}

#[verifier::rlimit(80)]
fn catalog_part_2(ui: &UiConfig, env: &CatalogDefaults) -> (r: Vec<SettingMeta>)
    requires
        catalog_ui(ui, env.on_windows),
    ensures
        heads_of(r@) == spec_catalog_part_2(),
        kinds_of(r@) == spec_catalog_kinds_2(*env),
        texts_of(r@) == spec_catalog_texts_2(env.on_windows),
        forall|i: int| 0 <= i < r@.len() ==> (#[trigger] r@[i]).wf(),
{
    let mut v: Vec<SettingMeta> = Vec::new();
    let ghost mut heads: Seq<(Seq<char>, SettingCategory, Seq<char>)> = Seq::empty();
    let ghost mut kinds: Seq<(KindSpec, bool, bool)> = Seq::empty();
    let ghost mut texts: Seq<(Seq<char>, Seq<Seq<char>>, SettingOwner, bool)> = Seq::empty();
    let c_render_mermaid = render_mermaid_choices();
    assert(canonicals(c_render_mermaid@)[0] == "auto"@);
    assert(canonicals(c_render_mermaid@)[1] == "on"@);
    assert(canonicals(c_render_mermaid@)[2] == "off"@);
    let m = SettingMeta {
        key: "render_mermaid",
        category: SettingCategory::Appearance,
        owner: SettingOwner::Shell,
        label: "Render Mermaid diagrams",
        description: "How ```mermaid code blocks are shown: auto/on add a clickable row to open the rendered diagram; off shows the raw source.",
        keywords: vec!["mermaid", "diagram", "diagrams", "render", "flowchart", "graph", "chart"],
        kind: SettingKind::Enum { default: "auto", choices: c_render_mermaid, supports_preview: false },
        restart_required: false,
        hidden_in_minimal: false,
        external_only: false,
    };
    assert(m.wf());
    assert(m.keywords@.map_values(|k: &'static str| k@) =~= seq!["mermaid"@, "diagram"@, "diagrams"@, "render"@, "flowchart"@, "graph"@, "chart"@]);
    v.push(m);
    proof {
        heads = heads.push(("render_mermaid"@, SettingCategory::Appearance, "Render Mermaid diagrams"@));
        kinds = kinds.push((KindSpec::Enum("auto"@, seq!["auto"@, "on"@, "off"@], false), false, false));
        texts = texts.push(("How ```mermaid code blocks are shown: auto/on add a clickable row to open the rendered diagram; off shows the raw source."@, seq!["mermaid"@, "diagram"@, "diagrams"@, "render"@, "flowchart"@, "graph"@, "chart"@], SettingOwner::Shell, false));
    }
    assert(heads_of(v@) =~= heads);
    assert(kinds_of(v@) =~= kinds);
    assert(texts_of(v@) =~= texts);
    assert(forall|i: int| 0 <= i < v@.len() ==> (#[trigger] v@[i]).wf());
    let c_permission_mode = permission_mode_choices();
    assert(canonicals(c_permission_mode@)[0] == "default"@);
    assert(canonicals(c_permission_mode@)[1] == "ask"@);
    assert(canonicals(c_permission_mode@)[2] == "auto"@);
    assert(canonicals(c_permission_mode@)[3] == "always-approve"@);
    let m = SettingMeta {
        key: "permission_mode",
        category: SettingCategory::Agent,
        owner: SettingOwner::Shell,
        label: "Permission mode",
        description: "Default uses the agent's built-in behavior; Ask prompts for each tool action; Auto uses an LLM classifier for risky tools; Always approve grants all permissions automatically.",
        keywords: vec!["permission", "approve", "yolo", "agent", "always", "ask", "auto", "classifier", "tool", "danger"],
        kind: SettingKind::Enum { default: "ask", choices: c_permission_mode, supports_preview: false },
        restart_required: false,
        hidden_in_minimal: false,
        external_only: false,
    };
    assert(m.wf());
    assert(m.keywords@.map_values(|k: &'static str| k@) =~= seq!["permission"@, "approve"@, "yolo"@, "agent"@, "always"@, "ask"@, "auto"@, "classifier"@, "tool"@, "danger"@]);
    v.push(m);
    proof {
        heads = heads.push(("permission_mode"@, SettingCategory::Agent, "Permission mode"@));
        kinds = kinds.push((KindSpec::Enum("ask"@, seq!["default"@, "ask"@, "auto"@, "always-approve"@], false), false, false));
        texts = texts.push(("Default uses the agent's built-in behavior; Ask prompts for each tool action; Auto uses an LLM classifier for risky tools; Always approve grants all permissions automatically."@, seq!["permission"@, "approve"@, "yolo"@, "agent"@, "always"@, "ask"@, "auto"@, "classifier"@, "tool"@, "danger"@], SettingOwner::Shell, false));
    }
    assert(heads_of(v@) =~= heads);
    assert(kinds_of(v@) =~= kinds);
    assert(texts_of(v@) =~= texts);
    assert(forall|i: int| 0 <= i < v@.len() ==> (#[trigger] v@[i]).wf());
    let m = SettingMeta {
        key: "remember_tool_approvals",
        category: SettingCategory::Agent,
        owner: SettingOwner::Shell,
        label: "Remember tool approvals",
        description: "Show \"Always allow\" options in permission prompts so you can stop being re-asked about a specific command or tool. Applies in ask and auto; Always-approve still skips all prompts. Restart required.",
        keywords: vec!["permission", "approve", "approval", "always", "allow", "remember", "tool", "command", "kubectl", "ask", "again", "whitelist"],
        kind: SettingKind::Bool { default: env.remember_tool_approvals },
        restart_required: true,
        hidden_in_minimal: false,
        external_only: false,
    };
    assert(m.wf());
    assert(m.keywords@.map_values(|k: &'static str| k@) =~= seq!["permission"@, "approve"@, "approval"@, "always"@, "allow"@, "remember"@, "tool"@, "command"@, "kubectl"@, "ask"@, "again"@, "whitelist"@]);
    v.push(m);
    proof {
        heads = heads.push(("remember_tool_approvals"@, SettingCategory::Agent, "Remember tool approvals"@));
        kinds = kinds.push((KindSpec::Bool(env.remember_tool_approvals), false, false));
        texts = texts.push(("Show \"Always allow\" options in permission prompts so you can stop being re-asked about a specific command or tool. Applies in ask and auto; Always-approve still skips all prompts. Restart required."@, seq!["permission"@, "approve"@, "approval"@, "always"@, "allow"@, "remember"@, "tool"@, "command"@, "kubectl"@, "ask"@, "again"@, "whitelist"@], SettingOwner::Shell, true));
    }
    assert(heads_of(v@) =~= heads);
    assert(kinds_of(v@) =~= kinds);
    assert(texts_of(v@) =~= texts);
    assert(forall|i: int| 0 <= i < v@.len() ==> (#[trigger] v@[i]).wf());
    let m = SettingMeta {
        key: "multiline_mode",
        category: SettingCategory::Editor,
        owner: SettingOwner::Pager,
        label: "Multiline",
        description: "When on, Enter inserts a newline and Shift+Enter sends. Resets each session.",
        keywords: vec!["multiline", "newline", "input", "editor", "enter"],
        kind: SettingKind::Bool { default: false },
        restart_required: false,
        hidden_in_minimal: false,
        external_only: false,
    };
    assert(m.wf());
    assert(m.keywords@.map_values(|k: &'static str| k@) =~= seq!["multiline"@, "newline"@, "input"@, "editor"@, "enter"@]);
    v.push(m);
    proof {
        heads = heads.push(("multiline_mode"@, SettingCategory::Editor, "Multiline"@));
        kinds = kinds.push((KindSpec::Bool(false), false, false));
        texts = texts.push(("When on, Enter inserts a newline and Shift+Enter sends. Resets each session."@, seq!["multiline"@, "newline"@, "input"@, "editor"@, "enter"@], SettingOwner::Pager, false));
    }
    assert(heads_of(v@) =~= heads);
    assert(kinds_of(v@) =~= kinds);
    assert(texts_of(v@) =~= texts);
    assert(forall|i: int| 0 <= i < v@.len() ==> (#[trigger] v@[i]).wf());
    let m = SettingMeta {
        key: "default_model",
        category: SettingCategory::Models,
        owner: SettingOwner::Shell,
        label: "Default model",
        description: "Model used for new sessions. Changing this also switches the active session. Pick `(no override)` to clear.",
        keywords: vec!["model", "default", "agent", "llm", "grok", "switch"],
        kind: SettingKind::DynamicEnum { default: "", source: DynamicEnumSource::ActiveModelCatalog, supports_preview: false },
        restart_required: false,
        hidden_in_minimal: false,
        external_only: false,
    };
    assert(m.wf());
    assert(m.keywords@.map_values(|k: &'static str| k@) =~= seq!["model"@, "default"@, "agent"@, "llm"@, "grok"@, "switch"@]);
    v.push(m);
    proof {
        heads = heads.push(("default_model"@, SettingCategory::Models, "Default model"@));
        kinds = kinds.push((KindSpec::DynamicEnum(""@, DynamicEnumSource::ActiveModelCatalog, false), false, false));
        texts = texts.push(("Model used for new sessions. Changing this also switches the active session. Pick `(no override)` to clear."@, seq!["model"@, "default"@, "agent"@, "llm"@, "grok"@, "switch"@], SettingOwner::Shell, false));
    }
    assert(heads_of(v@) =~= heads);
    assert(kinds_of(v@) =~= kinds);
    assert(texts_of(v@) =~= texts);
    assert(forall|i: int| 0 <= i < v@.len() ==> (#[trigger] v@[i]).wf());
    let m = SettingMeta {
        key: "max_thoughts_width",
        category: SettingCategory::Appearance,
        owner: SettingOwner::Shared,
        label: "Max thoughts width",
        description: "Column width budget for the agent's thoughts panel (40-500, default 120).",
        keywords: vec!["thoughts", "width", "max", "thinking", "panel", "reasoning", "columns"],
        kind: SettingKind::Int { default: ui.max_thoughts_width as i64, min: MAX_THOUGHTS_WIDTH_MIN, max: MAX_THOUGHTS_WIDTH_MAX },
        restart_required: false,
        hidden_in_minimal: false,
        external_only: false,
    };
    assert(m.wf());
    assert(m.keywords@.map_values(|k: &'static str| k@) =~= seq!["thoughts"@, "width"@, "max"@, "thinking"@, "panel"@, "reasoning"@, "columns"@]);
    v.push(m);
    proof {
        heads = heads.push(("max_thoughts_width"@, SettingCategory::Appearance, "Max thoughts width"@));
        kinds = kinds.push((KindSpec::Int(120, MAX_THOUGHTS_WIDTH_MIN, MAX_THOUGHTS_WIDTH_MAX), false, false));
        texts = texts.push(("Column width budget for the agent's thoughts panel (40-500, default 120)."@, seq!["thoughts"@, "width"@, "max"@, "thinking"@, "panel"@, "reasoning"@, "columns"@], SettingOwner::Shared, false));
    }
    assert(heads_of(v@) =~= heads);
    assert(kinds_of(v@) =~= kinds);
    assert(texts_of(v@) =~= texts);
    assert(forall|i: int| 0 <= i < v@.len() ==> (#[trigger] v@[i]).wf());
    let m = SettingMeta {
        key: "show_thinking_blocks",
        category: SettingCategory::Appearance,
        owner: SettingOwner::Shell,
        label: "Show thinking blocks",
        description: "Show agent thinking/reasoning blocks in the scrollback while streaming.",
        keywords: vec!["thinking", "reasoning", "thoughts", "blocks", "show", "hide"],
        kind: SettingKind::Bool { default: match ui.show_thinking_blocks { Some(b) => b, None => true } },
        restart_required: false,
        hidden_in_minimal: false,
        external_only: false,
    };
    assert(m.wf());
    assert(m.keywords@.map_values(|k: &'static str| k@) =~= seq!["thinking"@, "reasoning"@, "thoughts"@, "blocks"@, "show"@, "hide"@]);
    v.push(m);
    proof {
        heads = heads.push(("show_thinking_blocks"@, SettingCategory::Appearance, "Show thinking blocks"@));
        kinds = kinds.push((KindSpec::Bool(true), false, false));
        texts = texts.push(("Show agent thinking/reasoning blocks in the scrollback while streaming."@, seq!["thinking"@, "reasoning"@, "thoughts"@, "blocks"@, "show"@, "hide"@], SettingOwner::Shell, false));
    }
    assert(heads_of(v@) =~= heads);
    assert(kinds_of(v@) =~= kinds);
    assert(texts_of(v@) =~= texts);
    assert(forall|i: int| 0 <= i < v@.len() ==> (#[trigger] v@[i]).wf());
    let m = SettingMeta {
        key: "thinking_border_colors",
        category: SettingCategory::Appearance,
        owner: SettingOwner::Shell,
        label: "Thinking border colors",
        description: "Color the normal prompt border based on the selected thinking/reasoning level.",
        keywords: vec!["thinking", "reasoning", "effort", "prompt", "border", "color", "level"],
        kind: SettingKind::Bool { default: match ui.thinking_border_colors { Some(b) => b, None => true } },
        restart_required: false,
        hidden_in_minimal: false,
        external_only: false,
    };
    assert(m.wf());
    assert(m.keywords@.map_values(|k: &'static str| k@) =~= seq!["thinking"@, "reasoning"@, "effort"@, "prompt"@, "border"@, "color"@, "level"@]);
    v.push(m);
    proof {
        heads = heads.push(("thinking_border_colors"@, SettingCategory::Appearance, "Thinking border colors"@));
        kinds = kinds.push((KindSpec::Bool(true), false, false));
        texts = texts.push(("Color the normal prompt border based on the selected thinking/reasoning level."@, seq!["thinking"@, "reasoning"@, "effort"@, "prompt"@, "border"@, "color"@, "level"@], SettingOwner::Shell, false));
    }
    assert(heads_of(v@) =~= heads);
    assert(kinds_of(v@) =~= kinds);
    assert(texts_of(v@) =~= texts);
    assert(forall|i: int| 0 <= i < v@.len() ==> (#[trigger] v@[i]).wf());
    let m = SettingMeta {
        key: "prompt_suggestions",
        category: SettingCategory::Editor,
        owner: SettingOwner::Shell,
        label: "Prompt suggestions",
        description: "After each turn, predict your likely next prompt and show it as ghost text in the input (Tab to accept). Uses a small model call per turn.",
        keywords: vec!["prompt", "suggestion", "suggestions", "autocomplete", "ghost", "tab", "predict", "next"],
        kind: SettingKind::Bool { default: match ui.prompt_suggestions { Some(b) => b, None => true } },
        restart_required: false,
        hidden_in_minimal: false,
        external_only: false,
    };
    assert(m.wf());
    assert(m.keywords@.map_values(|k: &'static str| k@) =~= seq!["prompt"@, "suggestion"@, "suggestions"@, "autocomplete"@, "ghost"@, "tab"@, "predict"@, "next"@]);
    v.push(m);
    proof {
        heads = heads.push(("prompt_suggestions"@, SettingCategory::Editor, "Prompt suggestions"@));
        kinds = kinds.push((KindSpec::Bool(true), false, false));
        texts = texts.push(("After each turn, predict your likely next prompt and show it as ghost text in the input (Tab to accept). Uses a small model call per turn."@, seq!["prompt"@, "suggestion"@, "suggestions"@, "autocomplete"@, "ghost"@, "tab"@, "predict"@, "next"@], SettingOwner::Shell, false));
    }
    assert(heads_of(v@) =~= heads);
    assert(kinds_of(v@) =~= kinds);
    assert(texts_of(v@) =~= texts);
    assert(forall|i: int| 0 <= i < v@.len() ==> (#[trigger] v@[i]).wf());
    let m = SettingMeta {
        key: "prompt_cursor",
        category: SettingCategory::Appearance,
        owner: SettingOwner::Pager,
        label: "Prompt cursor",
        description: "Cursor in the input box: native, block, underline, bar, or one single-column character.",
        keywords: vec!["prompt", "input", "cursor", "caret", "symbol", "glyph", "block", "bar"],
        kind: SettingKind::String { default: "native", validator: StringValidator::PromptCursor },
        restart_required: false,
        hidden_in_minimal: false,
        external_only: false,
    };
    assert(m.wf());
    assert(m.keywords@.map_values(|k: &'static str| k@) =~= seq!["prompt"@, "input"@, "cursor"@, "caret"@, "symbol"@, "glyph"@, "block"@, "bar"@]);
    v.push(m);
    proof {
        heads = heads.push(("prompt_cursor"@, SettingCategory::Appearance, "Prompt cursor"@));
        kinds = kinds.push((KindSpec::String("native"@, StringValidator::PromptCursor), false, false));
        texts = texts.push(("Cursor in the input box: native, block, underline, bar, or one single-column character."@, seq!["prompt"@, "input"@, "cursor"@, "caret"@, "symbol"@, "glyph"@, "block"@, "bar"@], SettingOwner::Pager, false));
    }
    assert(heads_of(v@) =~= heads);
    assert(kinds_of(v@) =~= kinds);
    assert(texts_of(v@) =~= texts);
    assert(forall|i: int| 0 <= i < v@.len() ==> (#[trigger] v@[i]).wf());
    let m = SettingMeta {
        key: "respect_manual_folds",
        category: SettingCategory::Appearance,
        owner: SettingOwner::Pager,
        label: "Respect manual folds",
        description: "Keep manually folded blocks as-is while streaming and stop auto-scroll when expanding a block. Experimental.",
        keywords: vec!["fold", "pin", "collapse", "expand", "thinking", "follow", "scroll"],
        kind: SettingKind::Bool { default: env.respect_manual_folds },
        restart_required: false,
        hidden_in_minimal: false,
        external_only: false,
    };
    assert(m.wf());
    assert(m.keywords@.map_values(|k: &'static str| k@) =~= seq!["fold"@, "pin"@, "collapse"@, "expand"@, "thinking"@, "follow"@, "scroll"@]);
    v.push(m);
    proof {
        heads = heads.push(("respect_manual_folds"@, SettingCategory::Appearance, "Respect manual folds"@));
        kinds = kinds.push((KindSpec::Bool(env.respect_manual_folds), false, false));
        texts = texts.push(("Keep manually folded blocks as-is while streaming and stop auto-scroll when expanding a block. Experimental."@, seq!["fold"@, "pin"@, "collapse"@, "expand"@, "thinking"@, "follow"@, "scroll"@], SettingOwner::Pager, false));
    }
    assert(heads_of(v@) =~= heads);
    assert(kinds_of(v@) =~= kinds);
    assert(texts_of(v@) =~= texts);
    assert(forall|i: int| 0 <= i < v@.len() ==> (#[trigger] v@[i]).wf());
    let m = SettingMeta {
        key: "group_tool_verbs",
        category: SettingCategory::Appearance,
        owner: SettingOwner::Shell,
        label: "Group tool calls",
        description: "Fold consecutive read/search/list tool calls and subagent rows into one summary row; finished thoughts fold into the group too.",
        keywords: vec!["group", "tool", "verbs", "fold", "collapse", "read", "search", "summary", "thinking", "subagent"],
        kind: SettingKind::Bool { default: match ui.group_tool_verbs { Some(b) => b, None => true } },
        restart_required: false,
        hidden_in_minimal: false,
        external_only: false,
    };
    assert(m.wf());
    assert(m.keywords@.map_values(|k: &'static str| k@) =~= seq!["group"@, "tool"@, "verbs"@, "fold"@, "collapse"@, "read"@, "search"@, "summary"@, "thinking"@, "subagent"@]);
    v.push(m);
    proof {
        heads = heads.push(("group_tool_verbs"@, SettingCategory::Appearance, "Group tool calls"@));
        kinds = kinds.push((KindSpec::Bool(true), false, false));
        texts = texts.push(("Fold consecutive read/search/list tool calls and subagent rows into one summary row; finished thoughts fold into the group too."@, seq!["group"@, "tool"@, "verbs"@, "fold"@, "collapse"@, "read"@, "search"@, "summary"@, "thinking"@, "subagent"@], SettingOwner::Shell, false));
    }
    assert(heads_of(v@) =~= heads);
    assert(kinds_of(v@) =~= kinds);
    assert(texts_of(v@) =~= texts);
    assert(forall|i: int| 0 <= i < v@.len() ==> (#[trigger] v@[i]).wf());
    let m = SettingMeta {
        key: "collapsed_edit_blocks",
        category: SettingCategory::Appearance,
        owner: SettingOwner::Shell,
        label: "Collapsed edit blocks",
        description: "Show edits as one-line +N/-M diffstat summaries and merge back-to-back edits to the same file into one block; expand a row to see the diffs.",
        keywords: vec!["edit", "edits", "diff", "diffstat", "collapse", "collapsed", "summary", "expand", "one-line", "merge", "coalesce"],
        kind: SettingKind::Bool { default: match ui.collapsed_edit_blocks { Some(b) => b, None => false } },
        restart_required: false,
        hidden_in_minimal: false,
        external_only: false,
    };
    assert(m.wf());
    assert(m.keywords@.map_values(|k: &'static str| k@) =~= seq!["edit"@, "edits"@, "diff"@, "diffstat"@, "collapse"@, "collapsed"@, "summary"@, "expand"@, "one-line"@, "merge"@, "coalesce"@]);
    v.push(m);
    proof {
        heads = heads.push(("collapsed_edit_blocks"@, SettingCategory::Appearance, "Collapsed edit blocks"@));
        kinds = kinds.push((KindSpec::Bool(false), false, false));
        texts = texts.push(("Show edits as one-line +N/-M diffstat summaries and merge back-to-back edits to the same file into one block; expand a row to see the diffs."@, seq!["edit"@, "edits"@, "diff"@, "diffstat"@, "collapse"@, "collapsed"@, "summary"@, "expand"@, "one-line"@, "merge"@, "coalesce"@], SettingOwner::Shell, false));
    }
    assert(heads_of(v@) =~= heads);
    assert(kinds_of(v@) =~= kinds);
    assert(texts_of(v@) =~= texts);
    assert(forall|i: int| 0 <= i < v@.len() ==> (#[trigger] v@[i]).wf());
    let m = SettingMeta {
        key: "side_by_side_edit",
        category: SettingCategory::Appearance,
        owner: SettingOwner::Pager,
        label: "Side-by-side edit diffs",
        description: "Show old and new edit content in parallel columns when the terminal is wide enough; narrow layouts stay unified.",
        keywords: vec!["edit", "diff", "side-by-side", "split", "parallel", "old", "new", "columns", "pi"],
        kind: SettingKind::Bool { default: env.side_by_side_edit },
        restart_required: false,
        hidden_in_minimal: false,
        external_only: true,
    };
    assert(m.wf());
    assert(m.keywords@.map_values(|k: &'static str| k@) =~= seq!["edit"@, "diff"@, "side-by-side"@, "split"@, "parallel"@, "old"@, "new"@, "columns"@, "pi"@]);
    v.push(m);
    proof {
        heads = heads.push(("side_by_side_edit"@, SettingCategory::Appearance, "Side-by-side edit diffs"@));
        kinds = kinds.push((KindSpec::Bool(env.side_by_side_edit), false, true));
        texts = texts.push(("Show old and new edit content in parallel columns when the terminal is wide enough; narrow layouts stay unified."@, seq!["edit"@, "diff"@, "side-by-side"@, "split"@, "parallel"@, "old"@, "new"@, "columns"@, "pi"@], SettingOwner::Pager, false));
    }
    assert(heads_of(v@) =~= heads);
    assert(kinds_of(v@) =~= kinds);
    assert(texts_of(v@) =~= texts);
    assert(forall|i: int| 0 <= i < v@.len() ==> (#[trigger] v@[i]).wf());
    assert(heads =~= spec_catalog_part_2());
    assert(kinds =~= spec_catalog_kinds_2(*env));
    assert(texts =~= spec_catalog_texts_2(env.on_windows));
    v
}

/// Heads of the settings built by `catalog_part_3`.
pub open spec fn spec_catalog_part_3() -> Seq<(Seq<char>, SettingCategory, Seq<char>)> {
    seq![("ctrl_o_tool_expansion"@, SettingCategory::Appearance, "Ctrl+O tool expansion"@), ("pi_bash_run_display"@, SettingCategory::Appearance, "Bash run display"@), ("pi_bash_command_format"@, SettingCategory::Appearance, "Format Bash/Eval display"@), ("write_edit_hover_popups"@, SettingCategory::Popups, "Write/Edit hover popups"@), ("display_refresh_auto_cadence"@, SettingCategory::Appearance, "Match display refresh rate"@), ("scroll_speed"@, SettingCategory::Mouse, "Scroll speed"@), ("scroll_mode"@, SettingCategory::Mouse, "Scroll input"@), ("scroll_lines"@, SettingCategory::Mouse, "Scroll lines"@), ("invert_scroll"@, SettingCategory::Mouse, "Invert scroll"@), ("keep_text_selection"@, SettingCategory::Mouse, "Text selection"@), ("coding_data_sharing"@, SettingCategory::Privacy, "Coding data, retention, and training"@), ("default_selected_permission"@, SettingCategory::Agent, "Default selected permission"@), ("toolset.ask_user_question.timeout_enabled"@, SettingCategory::Agent, "Ask-Question timeout"@), ("plan_mode"@, SettingCategory::Agent, "Plan mode"@)]
}

/// Kinds and flags of the settings built by `catalog_part_3`.
pub open spec fn spec_catalog_kinds_3(env: CatalogDefaults) -> Seq<(KindSpec, bool, bool)> {
    seq![(KindSpec::Enum("write_edit"@, seq!["write_edit"@, "all_tools"@], false), false, false), (KindSpec::Enum("task_name"@, seq!["command_only"@, "task_name"@, "task_name_and_command"@], false), false, true), (KindSpec::Bool(false), false, true), (KindSpec::Bool(true), false, false), (KindSpec::Bool(env.display_refresh_auto_cadence), true, false), (KindSpec::Int(50, 1, 100), false, false), (KindSpec::Enum("auto"@, seq!["auto"@, "wheel"@, "trackpad"@], false), false, false), (KindSpec::Int(3, 1, 10), false, false), (KindSpec::Bool(false), false, false), (KindSpec::Enum("flash"@, seq!["flash"@, "hold"@, "word_select"@], false), false, false), (KindSpec::Enum("opt-out"@, seq!["opt-in"@, "opt-out"@], false), false, false), (KindSpec::Enum("always_allow_all_sessions"@, seq!["always_allow_all_sessions"@, "allow_always"@, "allow_once"@, "reject"@], false), false, false), (KindSpec::Bool(env.ask_user_question_timeout_enabled), false, false), (KindSpec::Enum("off"@, seq!["off"@, "on"@], false), false, false)]
}

#[verifier::rlimit(80)]
fn catalog_part_3(ui: &UiConfig, env: &CatalogDefaults) -> (r: Vec<SettingMeta>)
    requires
        catalog_ui(ui, env.on_windows),
    ensures
        heads_of(r@) == spec_catalog_part_3(),
        kinds_of(r@) == spec_catalog_kinds_3(*env),
        texts_of(r@) == spec_catalog_texts_3(env.on_windows),
        forall|i: int| 0 <= i < r@.len() ==> (#[trigger] r@[i]).wf(),
{
    let mut v: Vec<SettingMeta> = Vec::new();
    let ghost mut heads: Seq<(Seq<char>, SettingCategory, Seq<char>)> = Seq::empty();
    let ghost mut kinds: Seq<(KindSpec, bool, bool)> = Seq::empty();
    let ghost mut texts: Seq<(Seq<char>, Seq<Seq<char>>, SettingOwner, bool)> = Seq::empty();
    let c_ctrl_o_tool_expansion = ctrl_o_tool_expansion_choices();
    assert(canonicals(c_ctrl_o_tool_expansion@)[0] == "write_edit"@);
    assert(canonicals(c_ctrl_o_tool_expansion@)[1] == "all_tools"@);
    let m = SettingMeta {
        key: "ctrl_o_tool_expansion",
        category: SettingCategory::Appearance,
        owner: SettingOwner::Shell,
        label: "Ctrl+O tool expansion",
        description: "Choose whether Ctrl+O expands write/edit diffs or all tool output in grok-pi.",
        keywords: vec!["ctrl+o", "tool", "expand", "collapse", "write", "edit", "all"],
        kind: SettingKind::Enum { default: "write_edit", choices: c_ctrl_o_tool_expansion, supports_preview: false },
        restart_required: false,
        hidden_in_minimal: false,
        external_only: false,
    };
    assert(m.wf());
    assert(m.keywords@.map_values(|k: &'static str| k@) =~= seq!["ctrl+o"@, "tool"@, "expand"@, "collapse"@, "write"@, "edit"@, "all"@]);
    v.push(m);
    proof {
        heads = heads.push(("ctrl_o_tool_expansion"@, SettingCategory::Appearance, "Ctrl+O tool expansion"@));
        kinds = kinds.push((KindSpec::Enum("write_edit"@, seq!["write_edit"@, "all_tools"@], false), false, false));
        texts = texts.push(("Choose whether Ctrl+O expands write/edit diffs or all tool output in grok-pi."@, seq!["ctrl+o"@, "tool"@, "expand"@, "collapse"@, "write"@, "edit"@, "all"@], SettingOwner::Shell, false));
    }
    assert(heads_of(v@) =~= heads);
    assert(kinds_of(v@) =~= kinds);
    assert(texts_of(v@) =~= texts);
    assert(forall|i: int| 0 <= i < v@.len() ==> (#[trigger] v@[i]).wf());
    let c_pi_bash_run_display = pi_bash_run_display_choices();
    assert(canonicals(c_pi_bash_run_display@)[0] == "command_only"@);
    assert(canonicals(c_pi_bash_run_display@)[1] == "task_name"@);
    assert(canonicals(c_pi_bash_run_display@)[2] == "task_name_and_command"@);
    let m = SettingMeta {
        key: "pi_bash_run_display",
        category: SettingCategory::Appearance,
        owner: SettingOwner::Shell,
        label: "Bash run display",
        description: "Choose whether Bash/run cards show Task Name, command, or both.",
        keywords: vec!["bash", "run", "command", "task", "name", "header", "batch", "pi"],
        kind: SettingKind::Enum { default: "task_name", choices: c_pi_bash_run_display, supports_preview: false },
        restart_required: false,
        hidden_in_minimal: false,
        external_only: true,
    };
    assert(m.wf());
    assert(m.keywords@.map_values(|k: &'static str| k@) =~= seq!["bash"@, "run"@, "command"@, "task"@, "name"@, "header"@, "batch"@, "pi"@]);
    v.push(m);
    proof {
        heads = heads.push(("pi_bash_run_display"@, SettingCategory::Appearance, "Bash run display"@));
        kinds = kinds.push((KindSpec::Enum("task_name"@, seq!["command_only"@, "task_name"@, "task_name_and_command"@], false), false, true));
        texts = texts.push(("Choose whether Bash/run cards show Task Name, command, or both."@, seq!["bash"@, "run"@, "command"@, "task"@, "name"@, "header"@, "batch"@, "pi"@], SettingOwner::Shell, false));
    }
    assert(heads_of(v@) =~= heads);
    assert(kinds_of(v@) =~= kinds);
    assert(texts_of(v@) =~= texts);
    assert(forall|i: int| 0 <= i < v@.len() ==> (#[trigger] v@[i]).wf());
    let m = SettingMeta {
        key: "pi_bash_command_format",
        category: SettingCategory::Appearance,
        owner: SettingOwner::Shell,
        label: "Format Bash/Eval display",
        description: "Display Bash commands and Eval code with readable line breaks in permission, run-detail, and Eval popup views. Executed inputs are unchanged. Default off.",
        keywords: vec!["bash", "eval", "command", "code", "format", "pretty", "operator", "line", "break", "permission", "popup", "pi"],
        kind: SettingKind::Bool { default: ui.pi_bash_command_format },
        restart_required: false,
        hidden_in_minimal: false,
        external_only: true,
    };
    assert(m.wf());
    assert(m.keywords@.map_values(|k: &'static str| k@) =~= seq!["bash"@, "eval"@, "command"@, "code"@, "format"@, "pretty"@, "operator"@, "line"@, "break"@, "permission"@, "popup"@, "pi"@]);
    v.push(m);
    proof {
        heads = heads.push(("pi_bash_command_format"@, SettingCategory::Appearance, "Format Bash/Eval display"@));
        kinds = kinds.push((KindSpec::Bool(false), false, true));
        texts = texts.push(("Display Bash commands and Eval code with readable line breaks in permission, run-detail, and Eval popup views. Executed inputs are unchanged. Default off."@, seq!["bash"@, "eval"@, "command"@, "code"@, "format"@, "pretty"@, "operator"@, "line"@, "break"@, "permission"@, "popup"@, "pi"@], SettingOwner::Shell, false));
    }
    assert(heads_of(v@) =~= heads);
    assert(kinds_of(v@) =~= kinds);
    assert(texts_of(v@) =~= texts);
    assert(forall|i: int| 0 <= i < v@.len() ==> (#[trigger] v@[i]).wf());
    let m = SettingMeta {
        key: "write_edit_hover_popups",
        category: SettingCategory::Popups,
        owner: SettingOwner::Shell,
        label: "Write/Edit hover popups",
        description: "Show a bounded hover popup with expanded Write and Edit details from collapsed tool rows. Default on.",
        keywords: vec!["write", "edit", "popup", "hover", "tool", "diff", "preview", "details"],
        kind: SettingKind::Bool { default: ui.write_edit_hover_popups },
        restart_required: false,
        hidden_in_minimal: false,
        external_only: false,
    };
    assert(m.wf());
    assert(m.keywords@.map_values(|k: &'static str| k@) =~= seq!["write"@, "edit"@, "popup"@, "hover"@, "tool"@, "diff"@, "preview"@, "details"@]);
    v.push(m);
    proof {
        heads = heads.push(("write_edit_hover_popups"@, SettingCategory::Popups, "Write/Edit hover popups"@));
        kinds = kinds.push((KindSpec::Bool(true), false, false));
        texts = texts.push(("Show a bounded hover popup with expanded Write and Edit details from collapsed tool rows. Default on."@, seq!["write"@, "edit"@, "popup"@, "hover"@, "tool"@, "diff"@, "preview"@, "details"@], SettingOwner::Shell, false));
    }
    assert(heads_of(v@) =~= heads);
    assert(kinds_of(v@) =~= kinds);
    assert(texts_of(v@) =~= texts);
    assert(forall|i: int| 0 <= i < v@.len() ==> (#[trigger] v@[i]).wf());
    let m = SettingMeta {
        key: "display_refresh_auto_cadence",
        category: SettingCategory::Appearance,
        owner: SettingOwner::Shell,
        label: "Match display refresh rate",
        description: "On high-refresh displays, the TUI will stream/scroll faster to match the display. Off keeps the classic ~60 Hz cadence. Restart required.",
        keywords: vec!["display", "refresh", "rate", "hz", "cadence", "fps", "smooth", "scroll", "stream", "high", "120", "144"],
        kind: SettingKind::Bool { default: env.display_refresh_auto_cadence },
        restart_required: true,
        hidden_in_minimal: true,
        external_only: false,
    };
    assert(m.wf());
    assert(m.keywords@.map_values(|k: &'static str| k@) =~= seq!["display"@, "refresh"@, "rate"@, "hz"@, "cadence"@, "fps"@, "smooth"@, "scroll"@, "stream"@, "high"@, "120"@, "144"@]);
    v.push(m);
    proof {
        heads = heads.push(("display_refresh_auto_cadence"@, SettingCategory::Appearance, "Match display refresh rate"@));
        kinds = kinds.push((KindSpec::Bool(env.display_refresh_auto_cadence), true, false));
        texts = texts.push(("On high-refresh displays, the TUI will stream/scroll faster to match the display. Off keeps the classic ~60 Hz cadence. Restart required."@, seq!["display"@, "refresh"@, "rate"@, "hz"@, "cadence"@, "fps"@, "smooth"@, "scroll"@, "stream"@, "high"@, "120"@, "144"@], SettingOwner::Shell, true));
    }
    assert(heads_of(v@) =~= heads);
    assert(kinds_of(v@) =~= kinds);
    assert(texts_of(v@) =~= texts);
    assert(forall|i: int| 0 <= i < v@.len() ==> (#[trigger] v@[i]).wf());
    let m = SettingMeta {
        key: "scroll_speed",
        category: SettingCategory::Mouse,
        owner: SettingOwner::Shell,
        label: "Scroll speed",
        description: "Mouse-wheel and trackpad scroll speed multiplier (1-100). Higher = faster.",
        keywords: vec!["scroll", "speed", "mouse", "wheel", "trackpad", "fast", "slow"],
        kind: SettingKind::Int { default: match ui.scroll_speed { Some(v) => v as i64, None => 50 }, min: 1, max: 100 },
        restart_required: false,
        hidden_in_minimal: false,
        external_only: false,
    };
    assert(m.wf());
    assert(m.keywords@.map_values(|k: &'static str| k@) =~= seq!["scroll"@, "speed"@, "mouse"@, "wheel"@, "trackpad"@, "fast"@, "slow"@]);
    v.push(m);
    proof {
        heads = heads.push(("scroll_speed"@, SettingCategory::Mouse, "Scroll speed"@));
        kinds = kinds.push((KindSpec::Int(50, 1, 100), false, false));
        texts = texts.push(("Mouse-wheel and trackpad scroll speed multiplier (1-100). Higher = faster."@, seq!["scroll"@, "speed"@, "mouse"@, "wheel"@, "trackpad"@, "fast"@, "slow"@], SettingOwner::Shell, false));
    }
    assert(heads_of(v@) =~= heads);
    assert(kinds_of(v@) =~= kinds);
    assert(texts_of(v@) =~= texts);
    assert(forall|i: int| 0 <= i < v@.len() ==> (#[trigger] v@[i]).wf());
    let c_scroll_mode = scroll_mode_choices();
    assert(canonicals(c_scroll_mode@)[0] == "auto"@);
    assert(canonicals(c_scroll_mode@)[1] == "wheel"@);
    assert(canonicals(c_scroll_mode@)[2] == "trackpad"@);
    let m = SettingMeta {
        key: "scroll_mode",
        category: SettingCategory::Mouse,
        owner: SettingOwner::Shell,
        label: "Scroll input",
        description: "Force wheel or trackpad scroll behavior when auto-detection misreads your device.",
        keywords: vec!["scroll", "mode", "wheel", "trackpad", "mouse", "detect", "force", "input"],
        kind: SettingKind::Enum { default: scroll_mode_default(ui), choices: c_scroll_mode, supports_preview: false },
        restart_required: false,
        hidden_in_minimal: false,
        external_only: false,
    };
    assert(m.wf());
    assert(m.keywords@.map_values(|k: &'static str| k@) =~= seq!["scroll"@, "mode"@, "wheel"@, "trackpad"@, "mouse"@, "detect"@, "force"@, "input"@]);
    v.push(m);
    proof {
        heads = heads.push(("scroll_mode"@, SettingCategory::Mouse, "Scroll input"@));
        kinds = kinds.push((KindSpec::Enum("auto"@, seq!["auto"@, "wheel"@, "trackpad"@], false), false, false));
        texts = texts.push(("Force wheel or trackpad scroll behavior when auto-detection misreads your device."@, seq!["scroll"@, "mode"@, "wheel"@, "trackpad"@, "mouse"@, "detect"@, "force"@, "input"@], SettingOwner::Shell, false));
    }
    assert(heads_of(v@) =~= heads);
    assert(kinds_of(v@) =~= kinds);
    assert(texts_of(v@) =~= texts);
    assert(forall|i: int| 0 <= i < v@.len() ==> (#[trigger] v@[i]).wf());
    let m = SettingMeta {
        key: "scroll_lines",
        category: SettingCategory::Mouse,
        owner: SettingOwner::Shell,
        label: "Scroll lines",
        description: "Lines per scroll tick for both wheel and trackpad (1-10). Until set, each terminal's own profile applies.",
        keywords: vec!["scroll", "lines", "tick", "notch", "wheel", "trackpad", "mouse"],
        kind: SettingKind::Int { default: match ui.scroll_lines { Some(v) => v as i64, None => 3 }, min: 1, max: 10 },
        restart_required: false,
        hidden_in_minimal: false,
        external_only: false,
    };
    assert(m.wf());
    assert(m.keywords@.map_values(|k: &'static str| k@) =~= seq!["scroll"@, "lines"@, "tick"@, "notch"@, "wheel"@, "trackpad"@, "mouse"@]);
    v.push(m);
    proof {
        heads = heads.push(("scroll_lines"@, SettingCategory::Mouse, "Scroll lines"@));
        kinds = kinds.push((KindSpec::Int(3, 1, 10), false, false));
        texts = texts.push(("Lines per scroll tick for both wheel and trackpad (1-10). Until set, each terminal's own profile applies."@, seq!["scroll"@, "lines"@, "tick"@, "notch"@, "wheel"@, "trackpad"@, "mouse"@], SettingOwner::Shell, false));
    }
    assert(heads_of(v@) =~= heads);
    assert(kinds_of(v@) =~= kinds);
    assert(texts_of(v@) =~= texts);
    assert(forall|i: int| 0 <= i < v@.len() ==> (#[trigger] v@[i]).wf());
    let m = SettingMeta {
        key: "invert_scroll",
        category: SettingCategory::Mouse,
        owner: SettingOwner::Shell,
        label: "Invert scroll",
        description: "Reverse vertical scroll direction (natural scrolling).",
        keywords: vec!["invert", "scroll", "natural", "direction", "reverse", "mouse", "trackpad"],
        kind: SettingKind::Bool { default: match ui.invert_scroll { Some(b) => b, None => false } },
        restart_required: false,
        hidden_in_minimal: false,
        external_only: false,
    };
    assert(m.wf());
    assert(m.keywords@.map_values(|k: &'static str| k@) =~= seq!["invert"@, "scroll"@, "natural"@, "direction"@, "reverse"@, "mouse"@, "trackpad"@]);
    v.push(m);
    proof {
        heads = heads.push(("invert_scroll"@, SettingCategory::Mouse, "Invert scroll"@));
        kinds = kinds.push((KindSpec::Bool(false), false, false));
        texts = texts.push(("Reverse vertical scroll direction (natural scrolling)."@, seq!["invert"@, "scroll"@, "natural"@, "direction"@, "reverse"@, "mouse"@, "trackpad"@], SettingOwner::Shell, false));
    }
    assert(heads_of(v@) =~= heads);
    assert(kinds_of(v@) =~= kinds);
    assert(texts_of(v@) =~= texts);
    assert(forall|i: int| 0 <= i < v@.len() ==> (#[trigger] v@[i]).wf());
    let c_keep_text_selection = text_selection_choices();
    assert(canonicals(c_keep_text_selection@)[0] == "flash"@);
    assert(canonicals(c_keep_text_selection@)[1] == "hold"@);
    assert(canonicals(c_keep_text_selection@)[2] == "word_select"@);
    let m = SettingMeta {
        key: "keep_text_selection",
        category: SettingCategory::Mouse,
        owner: SettingOwner::Shell,
        label: "Text selection",
        description: "How long in-app selection stays on screen and what double-click does (fold vs. select & copy a word). For your terminal or multiplexer's own selection, hold Shift while dragging (native copy).",
        keywords: vec!["selection", "drag", "copy", "flash", "hold", "shift", "native", "mouse", "tmux", "double", "double-click", "word", "terminal"],
        kind: SettingKind::Enum { default: "flash", choices: c_keep_text_selection, supports_preview: false },
        restart_required: false,
        hidden_in_minimal: false,
        external_only: false,
    };
    assert(m.wf());
    assert(m.keywords@.map_values(|k: &'static str| k@) =~= seq!["selection"@, "drag"@, "copy"@, "flash"@, "hold"@, "shift"@, "native"@, "mouse"@, "tmux"@, "double"@, "double-click"@, "word"@, "terminal"@]);
    v.push(m);
    proof {
        heads = heads.push(("keep_text_selection"@, SettingCategory::Mouse, "Text selection"@));
        kinds = kinds.push((KindSpec::Enum("flash"@, seq!["flash"@, "hold"@, "word_select"@], false), false, false));
        texts = texts.push(("How long in-app selection stays on screen and what double-click does (fold vs. select & copy a word). For your terminal or multiplexer's own selection, hold Shift while dragging (native copy)."@, seq!["selection"@, "drag"@, "copy"@, "flash"@, "hold"@, "shift"@, "native"@, "mouse"@, "tmux"@, "double"@, "double-click"@, "word"@, "terminal"@], SettingOwner::Shell, false));
    }
    assert(heads_of(v@) =~= heads);
    assert(kinds_of(v@) =~= kinds);
    assert(texts_of(v@) =~= texts);
    assert(forall|i: int| 0 <= i < v@.len() ==> (#[trigger] v@[i]).wf());
    let c_coding_data_sharing = coding_data_sharing_choices();
    assert(canonicals(c_coding_data_sharing@)[0] == "opt-in"@);
    assert(canonicals(c_coding_data_sharing@)[1] == "opt-out"@);
    let m = SettingMeta {
        key: "coding_data_sharing",
        category: SettingCategory::Privacy,
        owner: SettingOwner::Shell,
        label: "Coding data, retention, and training",
        description: "Opt-in to provide SpaceXAI the ability to retain and train on coding data, e.g., prompts, traces, & metrics, for training and debugging purposes. We may still collect simple user metrics, e.g. how many times you use the product or a feature.",
        keywords: vec!["privacy", "data", "sharing", "coding", "retention", "training", "opt-in", "opt-out"],
        kind: SettingKind::Enum { default: "opt-out", choices: c_coding_data_sharing, supports_preview: false },
        restart_required: false,
        hidden_in_minimal: false,
        external_only: false,
    };
    assert(m.wf());
    assert(m.keywords@.map_values(|k: &'static str| k@) =~= seq!["privacy"@, "data"@, "sharing"@, "coding"@, "retention"@, "training"@, "opt-in"@, "opt-out"@]);
    v.push(m);
    proof {
        heads = heads.push(("coding_data_sharing"@, SettingCategory::Privacy, "Coding data, retention, and training"@));
        kinds = kinds.push((KindSpec::Enum("opt-out"@, seq!["opt-in"@, "opt-out"@], false), false, false));
        texts = texts.push(("Opt-in to provide SpaceXAI the ability to retain and train on coding data, e.g., prompts, traces, & metrics, for training and debugging purposes. We may still collect simple user metrics, e.g. how many times you use the product or a feature."@, seq!["privacy"@, "data"@, "sharing"@, "coding"@, "retention"@, "training"@, "opt-in"@, "opt-out"@], SettingOwner::Shell, false));
    }
    assert(heads_of(v@) =~= heads);
    assert(kinds_of(v@) =~= kinds);
    assert(texts_of(v@) =~= texts);
    assert(forall|i: int| 0 <= i < v@.len() ==> (#[trigger] v@[i]).wf());
    let c_default_selected_permission = default_selected_permission_choices();
    assert(canonicals(c_default_selected_permission@)[0] == "always_allow_all_sessions"@);
    assert(canonicals(c_default_selected_permission@)[1] == "allow_always"@);
    assert(canonicals(c_default_selected_permission@)[2] == "allow_once"@);
    assert(canonicals(c_default_selected_permission@)[3] == "reject"@);
    let m = SettingMeta {
        key: "default_selected_permission",
        category: SettingCategory::Agent,
        owner: SettingOwner::Shell,
        label: "Default selected permission",
        description: "Which row the cursor preselects on permission prompts.",
        keywords: vec!["permission", "approval", "cursor", "preselect", "default", "sticky", "last", "used", "yes", "no", "reject", "allow"],
        kind: SettingKind::Enum { default: "always_allow_all_sessions", choices: c_default_selected_permission, supports_preview: false },
        restart_required: false,
        hidden_in_minimal: false,
        external_only: false,
    };
    assert(m.wf());
    assert(m.keywords@.map_values(|k: &'static str| k@) =~= seq!["permission"@, "approval"@, "cursor"@, "preselect"@, "default"@, "sticky"@, "last"@, "used"@, "yes"@, "no"@, "reject"@, "allow"@]);
    v.push(m);
    proof {
        heads = heads.push(("default_selected_permission"@, SettingCategory::Agent, "Default selected permission"@));
        kinds = kinds.push((KindSpec::Enum("always_allow_all_sessions"@, seq!["always_allow_all_sessions"@, "allow_always"@, "allow_once"@, "reject"@], false), false, false));
        texts = texts.push(("Which row the cursor preselects on permission prompts."@, seq!["permission"@, "approval"@, "cursor"@, "preselect"@, "default"@, "sticky"@, "last"@, "used"@, "yes"@, "no"@, "reject"@, "allow"@], SettingOwner::Shell, false));
    }
    assert(heads_of(v@) =~= heads);
    assert(kinds_of(v@) =~= kinds);
    assert(texts_of(v@) =~= texts);
    assert(forall|i: int| 0 <= i < v@.len() ==> (#[trigger] v@[i]).wf());
    let m = SettingMeta {
        key: "toolset.ask_user_question.timeout_enabled",
        category: SettingCategory::Agent,
        owner: SettingOwner::Shell,
        label: "Ask-Question timeout",
        description: "When on, the ask_user_question tool will time out after a set period of time instead of infinitely blocking.",
        keywords: vec!["ask", "question", "questionnaire", "timeout", "ask_user_question", "block", "wait", "forever", "tool"],
        kind: SettingKind::Bool { default: env.ask_user_question_timeout_enabled },
        restart_required: true,
        hidden_in_minimal: false,
        external_only: false,
    };
    assert(m.wf());
    assert(m.keywords@.map_values(|k: &'static str| k@) =~= seq!["ask"@, "question"@, "questionnaire"@, "timeout"@, "ask_user_question"@, "block"@, "wait"@, "forever"@, "tool"@]);
    v.push(m);
    proof {
        heads = heads.push(("toolset.ask_user_question.timeout_enabled"@, SettingCategory::Agent, "Ask-Question timeout"@));
        kinds = kinds.push((KindSpec::Bool(env.ask_user_question_timeout_enabled), false, false));
        texts = texts.push(("When on, the ask_user_question tool will time out after a set period of time instead of infinitely blocking."@, seq!["ask"@, "question"@, "questionnaire"@, "timeout"@, "ask_user_question"@, "block"@, "wait"@, "forever"@, "tool"@], SettingOwner::Shell, true));
    }
    assert(heads_of(v@) =~= heads);
    assert(kinds_of(v@) =~= kinds);
    assert(texts_of(v@) =~= texts);
    assert(forall|i: int| 0 <= i < v@.len() ==> (#[trigger] v@[i]).wf());
    let c_plan_mode = plan_mode_choices();
    assert(canonicals(c_plan_mode@)[0] == "off"@);
    assert(canonicals(c_plan_mode@)[1] == "on"@);
    let m = SettingMeta {
        key: "plan_mode",
        category: SettingCategory::Agent,
        owner: SettingOwner::Pager,
        label: "Plan mode",
        description: "When on, the agent summarises a plan before running tools or making edits.",
        keywords: vec!["plan", "mode", "agent", "summary", "approval", "review", "session"],
        kind: SettingKind::Enum { default: "off", choices: c_plan_mode, supports_preview: false },
        restart_required: false,
        hidden_in_minimal: false,
        external_only: false,
    };
    assert(m.wf());
    assert(m.keywords@.map_values(|k: &'static str| k@) =~= seq!["plan"@, "mode"@, "agent"@, "summary"@, "approval"@, "review"@, "session"@]);
    v.push(m);
    proof {
        heads = heads.push(("plan_mode"@, SettingCategory::Agent, "Plan mode"@));
        kinds = kinds.push((KindSpec::Enum("off"@, seq!["off"@, "on"@], false), false, false));
        texts = texts.push(("When on, the agent summarises a plan before running tools or making edits."@, seq!["plan"@, "mode"@, "agent"@, "summary"@, "approval"@, "review"@, "session"@], SettingOwner::Pager, false));
    }
    assert(heads_of(v@) =~= heads);
    assert(kinds_of(v@) =~= kinds);
    assert(texts_of(v@) =~= texts);
    assert(forall|i: int| 0 <= i < v@.len() ==> (#[trigger] v@[i]).wf());
    assert(heads =~= spec_catalog_part_3());
    assert(kinds =~= spec_catalog_kinds_3(*env));
    assert(texts =~= spec_catalog_texts_3(env.on_windows));
    v
}

/// Heads of the settings built by `catalog_part_4`.
pub open spec fn spec_catalog_part_4() -> Seq<(Seq<char>, SettingCategory, Seq<char>)> {
    seq![("show_tips"@, SettingCategory::Advanced, "Show tips"@), ("contextual_hints"@, SettingCategory::Advanced, "Show contextual hints"@), ("auto_update"@, SettingCategory::Advanced, "Auto-update"@), ("hunk_tracker_mode"@, SettingCategory::Advanced, "Hunk tracker"@), ("voice_keybind_enabled"@, SettingCategory::Editor, "Voice shortcut"@), ("voice_capture_mode"@, SettingCategory::Editor, "Voice capture"@), ("voice_stt_language"@, SettingCategory::Editor, "Voice language"@), ("contextual_hints.undo"@, SettingCategory::Advanced, "Undo"@), ("contextual_hints.plan_mode"@, SettingCategory::Advanced, "Plan mode"@), ("contextual_hints.image_input"@, SettingCategory::Advanced, "Image input"@), ("contextual_hints.send_now"@, SettingCategory::Advanced, "Send now"@), ("contextual_hints.small_screen"@, SettingCategory::Advanced, "Small screen"@), ("contextual_hints.word_select"@, SettingCategory::Advanced, "Word select"@), ("contextual_hints.ssh_wrap"@, SettingCategory::Advanced, "SSH wrap"@)]
}

/// Kinds and flags of the settings built by `catalog_part_4`.
pub open spec fn spec_catalog_kinds_4(env: CatalogDefaults) -> Seq<(KindSpec, bool, bool)> {
    seq![(KindSpec::Bool(true), false, false), (KindSpec::Group(seq!["contextual_hints.undo"@, "contextual_hints.plan_mode"@, "contextual_hints.image_input"@, "contextual_hints.send_now"@, "contextual_hints.small_screen"@, "contextual_hints.word_select"@, "contextual_hints.ssh_wrap"@]), false, false), (KindSpec::Bool(true), false, false), (KindSpec::Enum("off"@, seq!["agent_only"@, "all_dirty"@, "off"@], false), false, false), (KindSpec::Bool(true), false, false), (KindSpec::Enum("hold"@, seq!["toggle"@, "hold"@], false), false, false), (KindSpec::Enum("en"@, seq!["en"@, "auto"@, "ar"@, "cs"@, "da"@, "nl"@, "fil"@, "fr"@, "de"@, "hi"@, "id"@, "it"@, "ja"@, "ko"@, "mk"@, "ms"@, "fa"@, "pl"@, "pt"@, "ro"@, "ru"@, "es"@, "sv"@, "th"@, "tr"@, "vi"@], false), false, false), (KindSpec::Bool(true), false, false), (KindSpec::Bool(true), false, false), (KindSpec::Bool(true), false, false), (KindSpec::Bool(true), false, false), (KindSpec::Bool(true), false, false), (KindSpec::Bool(true), false, false), (KindSpec::Bool(true), false, false)]
}

#[verifier::rlimit(80)]
fn catalog_part_4(ui: &UiConfig, env: &CatalogDefaults) -> (r: Vec<SettingMeta>)
    requires
        catalog_ui(ui, env.on_windows),
    ensures
        heads_of(r@) == spec_catalog_part_4(),
        kinds_of(r@) == spec_catalog_kinds_4(*env),
        texts_of(r@) == spec_catalog_texts_4(env.on_windows),
        forall|i: int| 0 <= i < r@.len() ==> (#[trigger] r@[i]).wf(),
{
    let mut v: Vec<SettingMeta> = Vec::new();
    let ghost mut heads: Seq<(Seq<char>, SettingCategory, Seq<char>)> = Seq::empty();
    let ghost mut kinds: Seq<(KindSpec, bool, bool)> = Seq::empty();
    let ghost mut texts: Seq<(Seq<char>, Seq<Seq<char>>, SettingOwner, bool)> = Seq::empty();
    let m = SettingMeta {
        key: "show_tips",
        category: SettingCategory::Advanced,
        owner: SettingOwner::Shell,
        label: "Show tips",
        description: "Show the tip-of-the-day banner on startup. Restart required.",
        keywords: vec!["tips", "tip", "show", "banner", "welcome", "startup", "launch"],
        kind: SettingKind::Bool { default: true },
        restart_required: true,
        hidden_in_minimal: false,
        external_only: false,
    };
    assert(m.wf());
    assert(m.keywords@.map_values(|k: &'static str| k@) =~= seq!["tips"@, "tip"@, "show"@, "banner"@, "welcome"@, "startup"@, "launch"@]);
    v.push(m);
    proof {
        heads = heads.push(("show_tips"@, SettingCategory::Advanced, "Show tips"@));
        kinds = kinds.push((KindSpec::Bool(true), false, false));
        texts = texts.push(("Show the tip-of-the-day banner on startup. Restart required."@, seq!["tips"@, "tip"@, "show"@, "banner"@, "welcome"@, "startup"@, "launch"@], SettingOwner::Shell, true));
    }
    assert(heads_of(v@) =~= heads);
    assert(kinds_of(v@) =~= kinds);
    assert(texts_of(v@) =~= texts);
    assert(forall|i: int| 0 <= i < v@.len() ==> (#[trigger] v@[i]).wf());
    let mut children_contextual_hints: Vec<&'static str> = Vec::new();
    children_contextual_hints.push("contextual_hints.undo");
    children_contextual_hints.push("contextual_hints.plan_mode");
    children_contextual_hints.push("contextual_hints.image_input");
    children_contextual_hints.push("contextual_hints.send_now");
    children_contextual_hints.push("contextual_hints.small_screen");
    children_contextual_hints.push("contextual_hints.word_select");
    children_contextual_hints.push("contextual_hints.ssh_wrap");
    assert(children_contextual_hints@.map_values(|c: &'static str| c@) =~= seq!["contextual_hints.undo"@, "contextual_hints.plan_mode"@, "contextual_hints.image_input"@, "contextual_hints.send_now"@, "contextual_hints.small_screen"@, "contextual_hints.word_select"@, "contextual_hints.ssh_wrap"@]);
    let m = SettingMeta {
        key: "contextual_hints",
        category: SettingCategory::Advanced,
        owner: SettingOwner::Shell,
        label: "Show contextual hints",
        description: "Show brief, in-context keyboard hints as you work; toggle each one individually.",
        keywords: vec!["contextual", "hints", "tips", "undo", "plan", "nudge", "image", "clipboard", "ephemeral", "send", "interject", "queue", "ctrl+z", "shift+tab", "ctrl+z", "draft", "wipe", "mode", "shift+tab", "paste", "input", "enter", "follow-up", "small", "screen", "compact", "ssh", "wrap", "remote"],
        kind: SettingKind::Group { children: children_contextual_hints },
        restart_required: false,
        hidden_in_minimal: false,
        external_only: false,
    };
    assert(m.wf());
    assert(m.keywords@.map_values(|k: &'static str| k@) =~= seq!["contextual"@, "hints"@, "tips"@, "undo"@, "plan"@, "nudge"@, "image"@, "clipboard"@, "ephemeral"@, "send"@, "interject"@, "queue"@, "ctrl+z"@, "shift+tab"@, "ctrl+z"@, "draft"@, "wipe"@, "mode"@, "shift+tab"@, "paste"@, "input"@, "enter"@, "follow-up"@, "small"@, "screen"@, "compact"@, "ssh"@, "wrap"@, "remote"@]);
    v.push(m);
    proof {
        heads = heads.push(("contextual_hints"@, SettingCategory::Advanced, "Show contextual hints"@));
        kinds = kinds.push((KindSpec::Group(seq!["contextual_hints.undo"@, "contextual_hints.plan_mode"@, "contextual_hints.image_input"@, "contextual_hints.send_now"@, "contextual_hints.small_screen"@, "contextual_hints.word_select"@, "contextual_hints.ssh_wrap"@]), false, false));
        texts = texts.push(("Show brief, in-context keyboard hints as you work; toggle each one individually."@, seq!["contextual"@, "hints"@, "tips"@, "undo"@, "plan"@, "nudge"@, "image"@, "clipboard"@, "ephemeral"@, "send"@, "interject"@, "queue"@, "ctrl+z"@, "shift+tab"@, "ctrl+z"@, "draft"@, "wipe"@, "mode"@, "shift+tab"@, "paste"@, "input"@, "enter"@, "follow-up"@, "small"@, "screen"@, "compact"@, "ssh"@, "wrap"@, "remote"@], SettingOwner::Shell, false));
    }
    assert(heads_of(v@) =~= heads);
    assert(kinds_of(v@) =~= kinds);
    assert(texts_of(v@) =~= texts);
    assert(forall|i: int| 0 <= i < v@.len() ==> (#[trigger] v@[i]).wf());
    let m = SettingMeta {
        key: "auto_update",
        category: SettingCategory::Advanced,
        owner: SettingOwner::Shell,
        label: "Auto-update",
        description: "Automatically download and install pager updates on startup. Restart required.",
        keywords: vec!["auto", "update", "updates", "upgrade", "version", "install", "channel"],
        kind: SettingKind::Bool { default: true },
        restart_required: true,
        hidden_in_minimal: false,
        external_only: false,
    };
    assert(m.wf());
    assert(m.keywords@.map_values(|k: &'static str| k@) =~= seq!["auto"@, "update"@, "updates"@, "upgrade"@, "version"@, "install"@, "channel"@]);
    v.push(m);
    proof {
        heads = heads.push(("auto_update"@, SettingCategory::Advanced, "Auto-update"@));
        kinds = kinds.push((KindSpec::Bool(true), false, false));
        texts = texts.push(("Automatically download and install pager updates on startup. Restart required."@, seq!["auto"@, "update"@, "updates"@, "upgrade"@, "version"@, "install"@, "channel"@], SettingOwner::Shell, true));
    }
    assert(heads_of(v@) =~= heads);
    assert(kinds_of(v@) =~= kinds);
    assert(texts_of(v@) =~= texts);
    assert(forall|i: int| 0 <= i < v@.len() ==> (#[trigger] v@[i]).wf());
    let c_hunk_tracker_mode = hunk_tracker_mode_choices();
    assert(canonicals(c_hunk_tracker_mode@)[0] == "agent_only"@);
    assert(canonicals(c_hunk_tracker_mode@)[1] == "all_dirty"@);
    assert(canonicals(c_hunk_tracker_mode@)[2] == "off"@);
    let m = SettingMeta {
        key: "hunk_tracker_mode",
        category: SettingCategory::Advanced,
        owner: SettingOwner::Shell,
        label: "Hunk tracker",
        description: "Which file changes the agent tracks as hunks. Off disables tracking (and LOC stats) entirely. Restart required.",
        keywords: vec!["hunk", "tracker", "tracking", "diff", "changes", "git", "loc", "off", "disable"],
        kind: SettingKind::Enum { default: "off", choices: c_hunk_tracker_mode, supports_preview: false },
        restart_required: true,
        hidden_in_minimal: false,
        external_only: false,
    };
    assert(m.wf());
    assert(m.keywords@.map_values(|k: &'static str| k@) =~= seq!["hunk"@, "tracker"@, "tracking"@, "diff"@, "changes"@, "git"@, "loc"@, "off"@, "disable"@]);
    v.push(m);
    proof {
        heads = heads.push(("hunk_tracker_mode"@, SettingCategory::Advanced, "Hunk tracker"@));
        kinds = kinds.push((KindSpec::Enum("off"@, seq!["agent_only"@, "all_dirty"@, "off"@], false), false, false));
        texts = texts.push(("Which file changes the agent tracks as hunks. Off disables tracking (and LOC stats) entirely. Restart required."@, seq!["hunk"@, "tracker"@, "tracking"@, "diff"@, "changes"@, "git"@, "loc"@, "off"@, "disable"@], SettingOwner::Shell, true));
    }
    assert(heads_of(v@) =~= heads);
    assert(kinds_of(v@) =~= kinds);
    assert(texts_of(v@) =~= texts);
    assert(forall|i: int| 0 <= i < v@.len() ==> (#[trigger] v@[i]).wf());
    let m = SettingMeta {
        key: "voice_keybind_enabled",
        category: SettingCategory::Editor,
        owner: SettingOwner::Shell,
        label: "Voice shortcut",
        description: "Enable the Ctrl+Space / F8 shortcut for voice dictation. When off, the keys are ignored; /voice still starts dictation.",
        keywords: vec!["voice", "dictation", "mic", "microphone", "speech", "stt", "keybinding", "hotkey", "ctrl+space", "f8", "disable"],
        kind: SettingKind::Bool { default: match ui.voice_keybind_enabled { Some(b) => b, None => true } },
        restart_required: false,
        hidden_in_minimal: false,
        external_only: false,
    };
    assert(m.wf());
    assert(m.keywords@.map_values(|k: &'static str| k@) =~= seq!["voice"@, "dictation"@, "mic"@, "microphone"@, "speech"@, "stt"@, "keybinding"@, "hotkey"@, "ctrl+space"@, "f8"@, "disable"@]);
    v.push(m);
    proof {
        heads = heads.push(("voice_keybind_enabled"@, SettingCategory::Editor, "Voice shortcut"@));
        kinds = kinds.push((KindSpec::Bool(true), false, false));
        texts = texts.push(("Enable the Ctrl+Space / F8 shortcut for voice dictation. When off, the keys are ignored; /voice still starts dictation."@, seq!["voice"@, "dictation"@, "mic"@, "microphone"@, "speech"@, "stt"@, "keybinding"@, "hotkey"@, "ctrl+space"@, "f8"@, "disable"@], SettingOwner::Shell, false));
    }
    assert(heads_of(v@) =~= heads);
    assert(kinds_of(v@) =~= kinds);
    assert(texts_of(v@) =~= texts);
    assert(forall|i: int| 0 <= i < v@.len() ==> (#[trigger] v@[i]).wf());
    let c_voice_capture_mode = voice_capture_mode_choices();
    assert(canonicals(c_voice_capture_mode@)[0] == "toggle"@);
    assert(canonicals(c_voice_capture_mode@)[1] == "hold"@);
    let m = SettingMeta {
        key: "voice_capture_mode",
        category: SettingCategory::Editor,
        owner: SettingOwner::Shell,
        label: "Voice capture",
        description: "How the voice chord (Ctrl+Space / F8) behaves: Toggle (press to start/stop) or Hold to talk (hold to record, release to stop; needs a Kitty-protocol terminal).",
        keywords: vec!["voice", "dictation", "dictate", "mic", "microphone", "speech", "stt", "toggle", "hold", "ctrl+space", "f8", "push-to-talk"],
        kind: SettingKind::Enum { default: "hold", choices: c_voice_capture_mode, supports_preview: false },
        restart_required: false,
        hidden_in_minimal: false,
        external_only: false,
    };
    assert(m.wf());
    assert(m.keywords@.map_values(|k: &'static str| k@) =~= seq!["voice"@, "dictation"@, "dictate"@, "mic"@, "microphone"@, "speech"@, "stt"@, "toggle"@, "hold"@, "ctrl+space"@, "f8"@, "push-to-talk"@]);
    v.push(m);
    proof {
        heads = heads.push(("voice_capture_mode"@, SettingCategory::Editor, "Voice capture"@));
        kinds = kinds.push((KindSpec::Enum("hold"@, seq!["toggle"@, "hold"@], false), false, false));
        texts = texts.push(("How the voice chord (Ctrl+Space / F8) behaves: Toggle (press to start/stop) or Hold to talk (hold to record, release to stop; needs a Kitty-protocol terminal)."@, seq!["voice"@, "dictation"@, "dictate"@, "mic"@, "microphone"@, "speech"@, "stt"@, "toggle"@, "hold"@, "ctrl+space"@, "f8"@, "push-to-talk"@], SettingOwner::Shell, false));
    }
    assert(heads_of(v@) =~= heads);
    assert(kinds_of(v@) =~= kinds);
    assert(texts_of(v@) =~= texts);
    assert(forall|i: int| 0 <= i < v@.len() ==> (#[trigger] v@[i]).wf());
    let c_voice_stt_language = voice_stt_language_choices();
    assert(canonicals(c_voice_stt_language@)[0] == "en"@);
    assert(canonicals(c_voice_stt_language@)[1] == "auto"@);
    assert(canonicals(c_voice_stt_language@)[2] == "ar"@);
    assert(canonicals(c_voice_stt_language@)[3] == "cs"@);
    assert(canonicals(c_voice_stt_language@)[4] == "da"@);
    assert(canonicals(c_voice_stt_language@)[5] == "nl"@);
    assert(canonicals(c_voice_stt_language@)[6] == "fil"@);
    assert(canonicals(c_voice_stt_language@)[7] == "fr"@);
    assert(canonicals(c_voice_stt_language@)[8] == "de"@);
    assert(canonicals(c_voice_stt_language@)[9] == "hi"@);
    assert(canonicals(c_voice_stt_language@)[10] == "id"@);
    assert(canonicals(c_voice_stt_language@)[11] == "it"@);
    assert(canonicals(c_voice_stt_language@)[12] == "ja"@);
    assert(canonicals(c_voice_stt_language@)[13] == "ko"@);
    assert(canonicals(c_voice_stt_language@)[14] == "mk"@);
    assert(canonicals(c_voice_stt_language@)[15] == "ms"@);
    assert(canonicals(c_voice_stt_language@)[16] == "fa"@);
    assert(canonicals(c_voice_stt_language@)[17] == "pl"@);
    assert(canonicals(c_voice_stt_language@)[18] == "pt"@);
    assert(canonicals(c_voice_stt_language@)[19] == "ro"@);
    assert(canonicals(c_voice_stt_language@)[20] == "ru"@);
    assert(canonicals(c_voice_stt_language@)[21] == "es"@);
    assert(canonicals(c_voice_stt_language@)[22] == "sv"@);
    assert(canonicals(c_voice_stt_language@)[23] == "th"@);
    assert(canonicals(c_voice_stt_language@)[24] == "tr"@);
    assert(canonicals(c_voice_stt_language@)[25] == "vi"@);
    let m = SettingMeta {
        key: "voice_stt_language",
        category: SettingCategory::Editor,
        owner: SettingOwner::Shell,
        label: "Voice language",
        description: "Speech-to-text language for voice dictation (Grok STT). English by default; System uses your locale when supported. Sets formatting language for numbers and currencies.",
        keywords: vec!["voice", "language", "locale", "dictation", "stt", "speech"],
        kind: SettingKind::Enum { default: "en", choices: c_voice_stt_language, supports_preview: false },
        restart_required: false,
        hidden_in_minimal: false,
        external_only: false,
    };
    assert(m.wf());
    assert(m.keywords@.map_values(|k: &'static str| k@) =~= seq!["voice"@, "language"@, "locale"@, "dictation"@, "stt"@, "speech"@]);
    v.push(m);
    proof {
        heads = heads.push(("voice_stt_language"@, SettingCategory::Editor, "Voice language"@));
        kinds = kinds.push((KindSpec::Enum("en"@, seq!["en"@, "auto"@, "ar"@, "cs"@, "da"@, "nl"@, "fil"@, "fr"@, "de"@, "hi"@, "id"@, "it"@, "ja"@, "ko"@, "mk"@, "ms"@, "fa"@, "pl"@, "pt"@, "ro"@, "ru"@, "es"@, "sv"@, "th"@, "tr"@, "vi"@], false), false, false));
        texts = texts.push(("Speech-to-text language for voice dictation (Grok STT). English by default; System uses your locale when supported. Sets formatting language for numbers and currencies."@, seq!["voice"@, "language"@, "locale"@, "dictation"@, "stt"@, "speech"@], SettingOwner::Shell, false));
    }
    assert(heads_of(v@) =~= heads);
    assert(kinds_of(v@) =~= kinds);
    assert(texts_of(v@) =~= texts);
    assert(forall|i: int| 0 <= i < v@.len() ==> (#[trigger] v@[i]).wf());
    let m = SettingMeta {
        key: "contextual_hints.undo",
        category: SettingCategory::Advanced,
        owner: SettingOwner::Shell,
        label: "Undo",
        description: "Remind you that Ctrl+Z restores the prompt after you clear it.",
        keywords: vec!["undo", "ctrl+z", "draft", "wipe", "hint"],
        kind: SettingKind::Bool { default: match ui.contextual_hints.undo { Some(b) => b, None => true } },
        restart_required: false,
        hidden_in_minimal: false,
        external_only: false,
    };
    assert(m.wf());
    assert(m.keywords@.map_values(|k: &'static str| k@) =~= seq!["undo"@, "ctrl+z"@, "draft"@, "wipe"@, "hint"@]);
    v.push(m);
    proof {
        heads = heads.push(("contextual_hints.undo"@, SettingCategory::Advanced, "Undo"@));
        kinds = kinds.push((KindSpec::Bool(true), false, false));
        texts = texts.push(("Remind you that Ctrl+Z restores the prompt after you clear it."@, seq!["undo"@, "ctrl+z"@, "draft"@, "wipe"@, "hint"@], SettingOwner::Shell, false));
    }
    assert(heads_of(v@) =~= heads);
    assert(kinds_of(v@) =~= kinds);
    assert(texts_of(v@) =~= texts);
    assert(forall|i: int| 0 <= i < v@.len() ==> (#[trigger] v@[i]).wf());
    let m = SettingMeta {
        key: "contextual_hints.plan_mode",
        category: SettingCategory::Advanced,
        owner: SettingOwner::Shell,
        label: "Plan mode",
        description: if env.on_windows { "Suggest plan mode (Ctrl+Alt+T or /plan-mode) when your prompt looks like a planning request." } else { "Suggest plan mode (Ctrl+Shift+T or /plan-mode) when your prompt looks like a planning request." },
        keywords: vec!["plan", "mode", "nudge", "ctrl+shift+t", "ctrl+alt+t", "plan-mode", "hint"],
        kind: SettingKind::Bool { default: match ui.contextual_hints.plan_mode { Some(b) => b, None => true } },
        restart_required: false,
        hidden_in_minimal: false,
        external_only: false,
    };
    assert(m.wf());
    assert(m.keywords@.map_values(|k: &'static str| k@) =~= seq!["plan"@, "mode"@, "nudge"@, "ctrl+shift+t"@, "ctrl+alt+t"@, "plan-mode"@, "hint"@]);
    v.push(m);
    proof {
        heads = heads.push(("contextual_hints.plan_mode"@, SettingCategory::Advanced, "Plan mode"@));
        kinds = kinds.push((KindSpec::Bool(true), false, false));
        texts = texts.push((if env.on_windows { "Suggest plan mode (Ctrl+Alt+T or /plan-mode) when your prompt looks like a planning request."@ } else { "Suggest plan mode (Ctrl+Shift+T or /plan-mode) when your prompt looks like a planning request."@ }, seq!["plan"@, "mode"@, "nudge"@, "ctrl+shift+t"@, "ctrl+alt+t"@, "plan-mode"@, "hint"@], SettingOwner::Shell, false));
    }
    assert(heads_of(v@) =~= heads);
    assert(kinds_of(v@) =~= kinds);
    assert(texts_of(v@) =~= texts);
    assert(forall|i: int| 0 <= i < v@.len() ==> (#[trigger] v@[i]).wf());
    let m = SettingMeta {
        key: "contextual_hints.image_input",
        category: SettingCategory::Advanced,
        owner: SettingOwner::Shell,
        label: "Image input",
        description: "Offer to paste an image when one is on the clipboard and the model accepts images.",
        keywords: vec!["image", "clipboard", "paste", "input", "hint"],
        kind: SettingKind::Bool { default: match ui.contextual_hints.image_input { Some(b) => b, None => true } },
        restart_required: false,
        hidden_in_minimal: false,
        external_only: false,
    };
    assert(m.wf());
    assert(m.keywords@.map_values(|k: &'static str| k@) =~= seq!["image"@, "clipboard"@, "paste"@, "input"@, "hint"@]);
    v.push(m);
    proof {
        heads = heads.push(("contextual_hints.image_input"@, SettingCategory::Advanced, "Image input"@));
        kinds = kinds.push((KindSpec::Bool(true), false, false));
        texts = texts.push(("Offer to paste an image when one is on the clipboard and the model accepts images."@, seq!["image"@, "clipboard"@, "paste"@, "input"@, "hint"@], SettingOwner::Shell, false));
    }
    assert(heads_of(v@) =~= heads);
    assert(kinds_of(v@) =~= kinds);
    assert(texts_of(v@) =~= texts);
    assert(forall|i: int| 0 <= i < v@.len() ==> (#[trigger] v@[i]).wf());
    let m = SettingMeta {
        key: "contextual_hints.send_now",
        category: SettingCategory::Advanced,
        owner: SettingOwner::Shell,
        label: "Send now",
        description: "After you queue a follow-up mid-turn, remind you that Enter on an empty prompt sends the top queued item now.",
        keywords: vec!["send", "now", "interject", "queue", "follow-up", "enter", "empty", "hint"],
        kind: SettingKind::Bool { default: match ui.contextual_hints.send_now { Some(b) => b, None => true } },
        restart_required: false,
        hidden_in_minimal: false,
        external_only: false,
    };
    assert(m.wf());
    assert(m.keywords@.map_values(|k: &'static str| k@) =~= seq!["send"@, "now"@, "interject"@, "queue"@, "follow-up"@, "enter"@, "empty"@, "hint"@]);
    v.push(m);
    proof {
        heads = heads.push(("contextual_hints.send_now"@, SettingCategory::Advanced, "Send now"@));
        kinds = kinds.push((KindSpec::Bool(true), false, false));
        texts = texts.push(("After you queue a follow-up mid-turn, remind you that Enter on an empty prompt sends the top queued item now."@, seq!["send"@, "now"@, "interject"@, "queue"@, "follow-up"@, "enter"@, "empty"@, "hint"@], SettingOwner::Shell, false));
    }
    assert(heads_of(v@) =~= heads);
    assert(kinds_of(v@) =~= kinds);
    assert(texts_of(v@) =~= texts);
    assert(forall|i: int| 0 <= i < v@.len() ==> (#[trigger] v@[i]).wf());
    let m = SettingMeta {
        key: "contextual_hints.small_screen",
        category: SettingCategory::Advanced,
        owner: SettingOwner::Shell,
        label: "Small screen",
        description: "Suggest /compact-mode once per run when the terminal is short on rows.",
        keywords: vec!["small", "screen", "compact", "space", "rows", "hint"],
        kind: SettingKind::Bool { default: match ui.contextual_hints.small_screen { Some(b) => b, None => true } },
        restart_required: false,
        hidden_in_minimal: false,
        external_only: false,
    };
    assert(m.wf());
    assert(m.keywords@.map_values(|k: &'static str| k@) =~= seq!["small"@, "screen"@, "compact"@, "space"@, "rows"@, "hint"@]);
    v.push(m);
    proof {
        heads = heads.push(("contextual_hints.small_screen"@, SettingCategory::Advanced, "Small screen"@));
        kinds = kinds.push((KindSpec::Bool(true), false, false));
        texts = texts.push(("Suggest /compact-mode once per run when the terminal is short on rows."@, seq!["small"@, "screen"@, "compact"@, "space"@, "rows"@, "hint"@], SettingOwner::Shell, false));
    }
    assert(heads_of(v@) =~= heads);
    assert(kinds_of(v@) =~= kinds);
    assert(texts_of(v@) =~= texts);
    assert(forall|i: int| 0 <= i < v@.len() ==> (#[trigger] v@[i]).wf());
    let m = SettingMeta {
        key: "contextual_hints.word_select",
        category: SettingCategory::Advanced,
        owner: SettingOwner::Shell,
        label: "Word select",
        description: "After double-clicking conversation text while Text selection is fold/nav, remind you that Word select lives in Settings.",
        keywords: vec!["word", "select", "double", "double-click", "click", "fold", "selection", "settings", "hint"],
        kind: SettingKind::Bool { default: match ui.contextual_hints.word_select { Some(b) => b, None => true } },
        restart_required: false,
        hidden_in_minimal: false,
        external_only: false,
    };
    assert(m.wf());
    assert(m.keywords@.map_values(|k: &'static str| k@) =~= seq!["word"@, "select"@, "double"@, "double-click"@, "click"@, "fold"@, "selection"@, "settings"@, "hint"@]);
    v.push(m);
    proof {
        heads = heads.push(("contextual_hints.word_select"@, SettingCategory::Advanced, "Word select"@));
        kinds = kinds.push((KindSpec::Bool(true), false, false));
        texts = texts.push(("After double-clicking conversation text while Text selection is fold/nav, remind you that Word select lives in Settings."@, seq!["word"@, "select"@, "double"@, "double-click"@, "click"@, "fold"@, "selection"@, "settings"@, "hint"@], SettingOwner::Shell, false));
    }
    assert(heads_of(v@) =~= heads);
    assert(kinds_of(v@) =~= kinds);
    assert(texts_of(v@) =~= texts);
    assert(forall|i: int| 0 <= i < v@.len() ==> (#[trigger] v@[i]).wf());
    let m = SettingMeta {
        key: "contextual_hints.ssh_wrap",
        category: SettingCategory::Advanced,
        owner: SettingOwner::Shell,
        label: "SSH wrap",
        description: "Show a `/doctor` tip when an SSH session is not using `grok wrap`.",
        keywords: vec!["ssh", "wrap", "remote", "clipboard", "restore", "startup", "hint"],
        kind: SettingKind::Bool { default: match ui.contextual_hints.ssh_wrap { Some(b) => b, None => true } },
        restart_required: false,
        hidden_in_minimal: false,
        external_only: false,
    };
    assert(m.wf());
    assert(m.keywords@.map_values(|k: &'static str| k@) =~= seq!["ssh"@, "wrap"@, "remote"@, "clipboard"@, "restore"@, "startup"@, "hint"@]);
    v.push(m);
    proof {
        heads = heads.push(("contextual_hints.ssh_wrap"@, SettingCategory::Advanced, "SSH wrap"@));
        kinds = kinds.push((KindSpec::Bool(true), false, false));
        texts = texts.push(("Show a `/doctor` tip when an SSH session is not using `grok wrap`."@, seq!["ssh"@, "wrap"@, "remote"@, "clipboard"@, "restore"@, "startup"@, "hint"@], SettingOwner::Shell, false));
    }
    assert(heads_of(v@) =~= heads);
    assert(kinds_of(v@) =~= kinds);
    assert(texts_of(v@) =~= texts);
    assert(forall|i: int| 0 <= i < v@.len() ==> (#[trigger] v@[i]).wf());
    assert(heads =~= spec_catalog_part_4());
    assert(kinds =~= spec_catalog_kinds_4(*env));
    assert(texts =~= spec_catalog_texts_4(env.on_windows));
    v
}

/// Heads of the settings built by `catalog_part_5`.
pub open spec fn spec_catalog_part_5(on_windows: bool) -> Seq<(Seq<char>, SettingCategory, Seq<char>)> {
    if on_windows {
        seq![("fork_secondary_model"@, SettingCategory::Models, "Fork secondary model"@), ("pi_bash"@, SettingCategory::Agent, "Pi Bash bridge"@), ("pi_eval"@, SettingCategory::Agent, "Eval bridge version"@), ("pi_eval_v2_language"@, SettingCategory::Agent, "Eval v2 language"@), ("pi_eval_v2_display_mode"@, SettingCategory::Agent, "Eval v2 display"@), ("pi_eval_v2_only"@, SettingCategory::Agent, "Eval v2 only"@), ("pi_builtin_tools"@, SettingCategory::Agent, "Pi built-in tools"@), ("pi_builtin_tools.read"@, SettingCategory::Agent, "Read"@), ("pi_builtin_tools.bash"@, SettingCategory::Agent, "Bash"@), ("pi_builtin_tools.powershell"@, SettingCategory::Agent, "PowerShell"@), ("pi_builtin_tools.edit"@, SettingCategory::Agent, "Edit"@), ("pi_builtin_tools.write"@, SettingCategory::Agent, "Write"@), ("pi_builtin_tools.grep"@, SettingCategory::Agent, "Grep"@), ("pi_builtin_tools.find"@, SettingCategory::Agent, "Find"@)]
    } else {
        seq![("fork_secondary_model"@, SettingCategory::Models, "Fork secondary model"@), ("pi_bash"@, SettingCategory::Agent, "Pi Bash bridge"@), ("pi_eval"@, SettingCategory::Agent, "Eval bridge version"@), ("pi_eval_v2_language"@, SettingCategory::Agent, "Eval v2 language"@), ("pi_eval_v2_display_mode"@, SettingCategory::Agent, "Eval v2 display"@), ("pi_eval_v2_only"@, SettingCategory::Agent, "Eval v2 only"@), ("pi_builtin_tools"@, SettingCategory::Agent, "Pi built-in tools"@), ("pi_builtin_tools.read"@, SettingCategory::Agent, "Read"@), ("pi_builtin_tools.bash"@, SettingCategory::Agent, "Bash"@), ("pi_builtin_tools.edit"@, SettingCategory::Agent, "Edit"@), ("pi_builtin_tools.write"@, SettingCategory::Agent, "Write"@), ("pi_builtin_tools.grep"@, SettingCategory::Agent, "Grep"@), ("pi_builtin_tools.find"@, SettingCategory::Agent, "Find"@)]
    }
}

/// Kinds and flags of the settings built by `catalog_part_5`.
pub open spec fn spec_catalog_kinds_5(env: CatalogDefaults) -> Seq<(KindSpec, bool, bool)> {
    if env.on_windows {
        seq![(KindSpec::DynamicEnum(""@, DynamicEnumSource::ActiveModelCatalog, false), false, false), (KindSpec::Bool(true), false, true), (KindSpec::Enum("v1"@, seq!["v1"@, "v2"@], false), false, true), (KindSpec::Enum("js"@, seq!["js"@, "py"@, "all"@], false), false, true), (KindSpec::Enum("effects"@, seq!["effects"@, "legacy"@], false), false, true), (KindSpec::Bool(false), false, true), (KindSpec::Group(if env.on_windows { seq!["pi_builtin_tools.read"@, "pi_builtin_tools.bash"@, "pi_builtin_tools.powershell"@, "pi_builtin_tools.edit"@, "pi_builtin_tools.write"@, "pi_builtin_tools.grep"@, "pi_builtin_tools.find"@, "pi_builtin_tools.ls"@, "pi_builtin_tools.eval"@] } else { seq!["pi_builtin_tools.read"@, "pi_builtin_tools.bash"@, "pi_builtin_tools.edit"@, "pi_builtin_tools.write"@, "pi_builtin_tools.grep"@, "pi_builtin_tools.find"@, "pi_builtin_tools.ls"@, "pi_builtin_tools.eval"@] }), false, true), (KindSpec::Bool(PiBuiltinTools::spec_default_for(env.on_windows).read), false, true), (KindSpec::Bool(PiBuiltinTools::spec_default_for(env.on_windows).bash), false, true), (KindSpec::Bool(PiBuiltinTools::spec_default_for(env.on_windows).powershell), false, true), (KindSpec::Bool(PiBuiltinTools::spec_default_for(env.on_windows).edit), false, true), (KindSpec::Bool(PiBuiltinTools::spec_default_for(env.on_windows).write), false, true), (KindSpec::Bool(PiBuiltinTools::spec_default_for(env.on_windows).grep), false, true), (KindSpec::Bool(PiBuiltinTools::spec_default_for(env.on_windows).find), false, true)]
    } else {
        seq![(KindSpec::DynamicEnum(""@, DynamicEnumSource::ActiveModelCatalog, false), false, false), (KindSpec::Bool(true), false, true), (KindSpec::Enum("v1"@, seq!["v1"@, "v2"@], false), false, true), (KindSpec::Enum("js"@, seq!["js"@, "py"@, "all"@], false), false, true), (KindSpec::Enum("effects"@, seq!["effects"@, "legacy"@], false), false, true), (KindSpec::Bool(false), false, true), (KindSpec::Group(if env.on_windows { seq!["pi_builtin_tools.read"@, "pi_builtin_tools.bash"@, "pi_builtin_tools.powershell"@, "pi_builtin_tools.edit"@, "pi_builtin_tools.write"@, "pi_builtin_tools.grep"@, "pi_builtin_tools.find"@, "pi_builtin_tools.ls"@, "pi_builtin_tools.eval"@] } else { seq!["pi_builtin_tools.read"@, "pi_builtin_tools.bash"@, "pi_builtin_tools.edit"@, "pi_builtin_tools.write"@, "pi_builtin_tools.grep"@, "pi_builtin_tools.find"@, "pi_builtin_tools.ls"@, "pi_builtin_tools.eval"@] }), false, true), (KindSpec::Bool(PiBuiltinTools::spec_default_for(env.on_windows).read), false, true), (KindSpec::Bool(PiBuiltinTools::spec_default_for(env.on_windows).bash), false, true), (KindSpec::Bool(PiBuiltinTools::spec_default_for(env.on_windows).edit), false, true), (KindSpec::Bool(PiBuiltinTools::spec_default_for(env.on_windows).write), false, true), (KindSpec::Bool(PiBuiltinTools::spec_default_for(env.on_windows).grep), false, true), (KindSpec::Bool(PiBuiltinTools::spec_default_for(env.on_windows).find), false, true)]
    }
}

#[verifier::rlimit(80)]
fn catalog_part_5(ui: &UiConfig, env: &CatalogDefaults) -> (r: Vec<SettingMeta>)
    requires
        catalog_ui(ui, env.on_windows),
    ensures
        heads_of(r@) == spec_catalog_part_5(env.on_windows),
        kinds_of(r@) == spec_catalog_kinds_5(*env),
        texts_of(r@) == spec_catalog_texts_5(env.on_windows),
        forall|i: int| 0 <= i < r@.len() ==> (#[trigger] r@[i]).wf(),
{
    let mut v: Vec<SettingMeta> = Vec::new();
    let ghost mut heads: Seq<(Seq<char>, SettingCategory, Seq<char>)> = Seq::empty();
    let ghost mut kinds: Seq<(KindSpec, bool, bool)> = Seq::empty();
    let ghost mut texts: Seq<(Seq<char>, Seq<Seq<char>>, SettingOwner, bool)> = Seq::empty();
    let m = SettingMeta {
        key: "fork_secondary_model",
        category: SettingCategory::Models,
        owner: SettingOwner::Shell,
        label: "Fork secondary model",
        description: "Model used for the secondary agent when forking. Pick `(no override)` to clear.",
        keywords: vec!["fork", "secondary", "model", "agent", "subagent", "branch", "models"],
        kind: SettingKind::DynamicEnum { default: "", source: DynamicEnumSource::ActiveModelCatalog, supports_preview: false },
        restart_required: false,
        hidden_in_minimal: false,
        external_only: false,
    };
    assert(m.wf());
    assert(m.keywords@.map_values(|k: &'static str| k@) =~= seq!["fork"@, "secondary"@, "model"@, "agent"@, "subagent"@, "branch"@, "models"@]);
    v.push(m);
    proof {
        heads = heads.push(("fork_secondary_model"@, SettingCategory::Models, "Fork secondary model"@));
        kinds = kinds.push((KindSpec::DynamicEnum(""@, DynamicEnumSource::ActiveModelCatalog, false), false, false));
        texts = texts.push(("Model used for the secondary agent when forking. Pick `(no override)` to clear."@, seq!["fork"@, "secondary"@, "model"@, "agent"@, "subagent"@, "branch"@, "models"@], SettingOwner::Shell, false));
    }
    assert(heads_of(v@) =~= heads);
    assert(kinds_of(v@) =~= kinds);
    assert(texts_of(v@) =~= texts);
    assert(forall|i: int| 0 <= i < v@.len() ==> (#[trigger] v@[i]).wf());
    let m = SettingMeta {
        key: "pi_bash",
        category: SettingCategory::Agent,
        owner: SettingOwner::Shell,
        label: "Pi Bash bridge",
        description: "Enable grok-pi's enhanced Bash bridge for the next session. Off restores stock Pi Bash; Eval remains independent.",
        keywords: vec!["pi", "bash", "bridge", "extension", "runtime"],
        kind: SettingKind::Bool { default: ui.pi_bash },
        restart_required: true,
        hidden_in_minimal: false,
        external_only: true,
    };
    assert(m.wf());
    assert(m.keywords@.map_values(|k: &'static str| k@) =~= seq!["pi"@, "bash"@, "bridge"@, "extension"@, "runtime"@]);
    v.push(m);
    proof {
        heads = heads.push(("pi_bash"@, SettingCategory::Agent, "Pi Bash bridge"@));
        kinds = kinds.push((KindSpec::Bool(true), false, true));
        texts = texts.push(("Enable grok-pi's enhanced Bash bridge for the next session. Off restores stock Pi Bash; Eval remains independent."@, seq!["pi"@, "bash"@, "bridge"@, "extension"@, "runtime"@], SettingOwner::Shell, true));
    }
    assert(heads_of(v@) =~= heads);
    assert(kinds_of(v@) =~= kinds);
    assert(texts_of(v@) =~= texts);
    assert(forall|i: int| 0 <= i < v@.len() ==> (#[trigger] v@[i]).wf());
    let c_pi_eval = pi_eval_choices();
    assert(canonicals(c_pi_eval@)[0] == "v1"@);
    assert(canonicals(c_pi_eval@)[1] == "v2"@);
    let m = SettingMeta {
        key: "pi_eval",
        category: SettingCategory::Agent,
        owner: SettingOwner::Shell,
        label: "Eval bridge version",
        description: "Choose the Eval runtime for the next grok-pi session. v1 is the legacy Python + JavaScript runtime; v2 uses the host-RPC runtime and the separate language selector.",
        keywords: vec!["pi", "eval", "v1", "v2", "javascript", "python", "runtime", "bridge"],
        kind: SettingKind::Enum { default: "v1", choices: c_pi_eval, supports_preview: false },
        restart_required: true,
        hidden_in_minimal: false,
        external_only: true,
    };
    assert(m.wf());
    assert(m.keywords@.map_values(|k: &'static str| k@) =~= seq!["pi"@, "eval"@, "v1"@, "v2"@, "javascript"@, "python"@, "runtime"@, "bridge"@]);
    v.push(m);
    proof {
        heads = heads.push(("pi_eval"@, SettingCategory::Agent, "Eval bridge version"@));
        kinds = kinds.push((KindSpec::Enum("v1"@, seq!["v1"@, "v2"@], false), false, true));
        texts = texts.push(("Choose the Eval runtime for the next grok-pi session. v1 is the legacy Python + JavaScript runtime; v2 uses the host-RPC runtime and the separate language selector."@, seq!["pi"@, "eval"@, "v1"@, "v2"@, "javascript"@, "python"@, "runtime"@, "bridge"@], SettingOwner::Shell, true));
    }
    assert(heads_of(v@) =~= heads);
    assert(kinds_of(v@) =~= kinds);
    assert(texts_of(v@) =~= texts);
    assert(forall|i: int| 0 <= i < v@.len() ==> (#[trigger] v@[i]).wf());
    let c_pi_eval_v2_language = pi_eval_v2_language_choices();
    assert(canonicals(c_pi_eval_v2_language@)[0] == "js"@);
    assert(canonicals(c_pi_eval_v2_language@)[1] == "py"@);
    assert(canonicals(c_pi_eval_v2_language@)[2] == "all"@);
    let m = SettingMeta {
        key: "pi_eval_v2_language",
        category: SettingCategory::Agent,
        owner: SettingOwner::Shell,
        label: "Eval v2 language",
        description: "Choose which language(s) Eval Bridge v2 exposes next session: js, py, or all.",
        keywords: vec!["pi", "eval", "v2", "language", "javascript", "python", "all"],
        kind: SettingKind::Enum { default: "js", choices: c_pi_eval_v2_language, supports_preview: false },
        restart_required: true,
        hidden_in_minimal: false,
        external_only: true,
    };
    assert(m.wf());
    assert(m.keywords@.map_values(|k: &'static str| k@) =~= seq!["pi"@, "eval"@, "v2"@, "language"@, "javascript"@, "python"@, "all"@]);
    v.push(m);
    proof {
        heads = heads.push(("pi_eval_v2_language"@, SettingCategory::Agent, "Eval v2 language"@));
        kinds = kinds.push((KindSpec::Enum("js"@, seq!["js"@, "py"@, "all"@], false), false, true));
        texts = texts.push(("Choose which language(s) Eval Bridge v2 exposes next session: js, py, or all."@, seq!["pi"@, "eval"@, "v2"@, "language"@, "javascript"@, "python"@, "all"@], SettingOwner::Shell, true));
    }
    assert(heads_of(v@) =~= heads);
    assert(kinds_of(v@) =~= kinds);
    assert(texts_of(v@) =~= texts);
    assert(forall|i: int| 0 <= i < v@.len() ==> (#[trigger] v@[i]).wf());
    let c_pi_eval_v2_display_mode = pi_eval_v2_display_mode_choices();
    assert(canonicals(c_pi_eval_v2_display_mode@)[0] == "effects"@);
    assert(canonicals(c_pi_eval_v2_display_mode@)[1] == "legacy"@);
    let m = SettingMeta {
        key: "pi_eval_v2_display_mode",
        category: SettingCategory::Agent,
        owner: SettingOwner::Shell,
        label: "Eval v2 display",
        description: "Choose the live Eval v2 presentation: effects hides orchestration source; legacy shows source and results.",
        keywords: vec!["pi", "eval", "v2", "display", "effects", "legacy", "source"],
        kind: SettingKind::Enum { default: "effects", choices: c_pi_eval_v2_display_mode, supports_preview: false },
        restart_required: false,
        hidden_in_minimal: false,
        external_only: true,
    };
    assert(m.wf());
    assert(m.keywords@.map_values(|k: &'static str| k@) =~= seq!["pi"@, "eval"@, "v2"@, "display"@, "effects"@, "legacy"@, "source"@]);
    v.push(m);
    proof {
        heads = heads.push(("pi_eval_v2_display_mode"@, SettingCategory::Agent, "Eval v2 display"@));
        kinds = kinds.push((KindSpec::Enum("effects"@, seq!["effects"@, "legacy"@], false), false, true));
        texts = texts.push(("Choose the live Eval v2 presentation: effects hides orchestration source; legacy shows source and results."@, seq!["pi"@, "eval"@, "v2"@, "display"@, "effects"@, "legacy"@, "source"@], SettingOwner::Shell, false));
    }
    assert(heads_of(v@) =~= heads);
    assert(kinds_of(v@) =~= kinds);
    assert(texts_of(v@) =~= texts);
    assert(forall|i: int| 0 <= i < v@.len() ==> (#[trigger] v@[i]).wf());
    let m = SettingMeta {
        key: "pi_eval_v2_only",
        category: SettingCategory::Agent,
        owner: SettingOwner::Shell,
        label: "Eval v2 only",
        description: "Force Eval Bridge v2 and hide every other Pi tool for the next grok-pi session. Explicit CLI --tools/--no-tools still takes precedence.",
        keywords: vec!["pi", "eval", "v2", "only", "isolate", "tools", "hide", "sandbox"],
        kind: SettingKind::Bool { default: ui.pi_eval_v2_only },
        restart_required: true,
        hidden_in_minimal: false,
        external_only: true,
    };
    assert(m.wf());
    assert(m.keywords@.map_values(|k: &'static str| k@) =~= seq!["pi"@, "eval"@, "v2"@, "only"@, "isolate"@, "tools"@, "hide"@, "sandbox"@]);
    v.push(m);
    proof {
        heads = heads.push(("pi_eval_v2_only"@, SettingCategory::Agent, "Eval v2 only"@));
        kinds = kinds.push((KindSpec::Bool(false), false, true));
        texts = texts.push(("Force Eval Bridge v2 and hide every other Pi tool for the next grok-pi session. Explicit CLI --tools/--no-tools still takes precedence."@, seq!["pi"@, "eval"@, "v2"@, "only"@, "isolate"@, "tools"@, "hide"@, "sandbox"@], SettingOwner::Shell, true));
    }
    assert(heads_of(v@) =~= heads);
    assert(kinds_of(v@) =~= kinds);
    assert(texts_of(v@) =~= texts);
    assert(forall|i: int| 0 <= i < v@.len() ==> (#[trigger] v@[i]).wf());
    let mut children_pi_builtin_tools: Vec<&'static str> = Vec::new();
    children_pi_builtin_tools.push("pi_builtin_tools.read");
    children_pi_builtin_tools.push("pi_builtin_tools.bash");
    if env.on_windows {
        children_pi_builtin_tools.push("pi_builtin_tools.powershell");
    }
    children_pi_builtin_tools.push("pi_builtin_tools.edit");
    children_pi_builtin_tools.push("pi_builtin_tools.write");
    children_pi_builtin_tools.push("pi_builtin_tools.grep");
    children_pi_builtin_tools.push("pi_builtin_tools.find");
    children_pi_builtin_tools.push("pi_builtin_tools.ls");
    children_pi_builtin_tools.push("pi_builtin_tools.eval");
    assert(children_pi_builtin_tools@.map_values(|c: &'static str| c@) =~= if env.on_windows { seq!["pi_builtin_tools.read"@, "pi_builtin_tools.bash"@, "pi_builtin_tools.powershell"@, "pi_builtin_tools.edit"@, "pi_builtin_tools.write"@, "pi_builtin_tools.grep"@, "pi_builtin_tools.find"@, "pi_builtin_tools.ls"@, "pi_builtin_tools.eval"@] } else { seq!["pi_builtin_tools.read"@, "pi_builtin_tools.bash"@, "pi_builtin_tools.edit"@, "pi_builtin_tools.write"@, "pi_builtin_tools.grep"@, "pi_builtin_tools.find"@, "pi_builtin_tools.ls"@, "pi_builtin_tools.eval"@] });
    let m = SettingMeta {
        key: "pi_builtin_tools",
        category: SettingCategory::Agent,
        owner: SettingOwner::Shell,
        label: "Pi built-in tools",
        description: "Choose the Pi built-in tools for the next grok-pi session. Existing extension and custom tools stay enabled.",
        keywords: vec!["pi", "tools", "read", "bash", "powershell", "pwsh", "edit", "write", "grep", "find", "ls", "eval", "python", "javascript", "search"],
        kind: SettingKind::Group { children: children_pi_builtin_tools },
        restart_required: true,
        hidden_in_minimal: false,
        external_only: true,
    };
    assert(m.wf());
    assert(m.keywords@.map_values(|k: &'static str| k@) =~= seq!["pi"@, "tools"@, "read"@, "bash"@, "powershell"@, "pwsh"@, "edit"@, "write"@, "grep"@, "find"@, "ls"@, "eval"@, "python"@, "javascript"@, "search"@]);
    v.push(m);
    proof {
        heads = heads.push(("pi_builtin_tools"@, SettingCategory::Agent, "Pi built-in tools"@));
        kinds = kinds.push((KindSpec::Group(if env.on_windows { seq!["pi_builtin_tools.read"@, "pi_builtin_tools.bash"@, "pi_builtin_tools.powershell"@, "pi_builtin_tools.edit"@, "pi_builtin_tools.write"@, "pi_builtin_tools.grep"@, "pi_builtin_tools.find"@, "pi_builtin_tools.ls"@, "pi_builtin_tools.eval"@] } else { seq!["pi_builtin_tools.read"@, "pi_builtin_tools.bash"@, "pi_builtin_tools.edit"@, "pi_builtin_tools.write"@, "pi_builtin_tools.grep"@, "pi_builtin_tools.find"@, "pi_builtin_tools.ls"@, "pi_builtin_tools.eval"@] }), false, true));
        texts = texts.push(("Choose the Pi built-in tools for the next grok-pi session. Existing extension and custom tools stay enabled."@, seq!["pi"@, "tools"@, "read"@, "bash"@, "powershell"@, "pwsh"@, "edit"@, "write"@, "grep"@, "find"@, "ls"@, "eval"@, "python"@, "javascript"@, "search"@], SettingOwner::Shell, true));
    }
    assert(heads_of(v@) =~= heads);
    assert(kinds_of(v@) =~= kinds);
    assert(texts_of(v@) =~= texts);
    assert(forall|i: int| 0 <= i < v@.len() ==> (#[trigger] v@[i]).wf());
    let m = SettingMeta {
        key: "pi_builtin_tools.read",
        category: SettingCategory::Agent,
        owner: SettingOwner::Shell,
        label: "Read",
        description: "Allow Pi to read files.",
        keywords: vec!["pi", "tool", "read"],
        kind: SettingKind::Bool { default: ui.pi_builtin_tools.read },
        restart_required: true,
        hidden_in_minimal: false,
        external_only: true,
    };
    assert(m.wf());
    assert(m.keywords@.map_values(|k: &'static str| k@) =~= seq!["pi"@, "tool"@, "read"@]);
    v.push(m);
    proof {
        heads = heads.push(("pi_builtin_tools.read"@, SettingCategory::Agent, "Read"@));
        kinds = kinds.push((KindSpec::Bool(PiBuiltinTools::spec_default_for(env.on_windows).read), false, true));
        texts = texts.push(("Allow Pi to read files."@, seq!["pi"@, "tool"@, "read"@], SettingOwner::Shell, true));
    }
    assert(heads_of(v@) =~= heads);
    assert(kinds_of(v@) =~= kinds);
    assert(texts_of(v@) =~= texts);
    assert(forall|i: int| 0 <= i < v@.len() ==> (#[trigger] v@[i]).wf());
    let m = SettingMeta {
        key: "pi_builtin_tools.bash",
        category: SettingCategory::Agent,
        owner: SettingOwner::Shell,
        label: "Bash",
        description: "Allow Pi to run shell commands.",
        keywords: vec!["pi", "tool", "bash", "shell"],
        kind: SettingKind::Bool { default: ui.pi_builtin_tools.bash },
        restart_required: true,
        hidden_in_minimal: false,
        external_only: true,
    };
    assert(m.wf());
    assert(m.keywords@.map_values(|k: &'static str| k@) =~= seq!["pi"@, "tool"@, "bash"@, "shell"@]);
    v.push(m);
    proof {
        heads = heads.push(("pi_builtin_tools.bash"@, SettingCategory::Agent, "Bash"@));
        kinds = kinds.push((KindSpec::Bool(PiBuiltinTools::spec_default_for(env.on_windows).bash), false, true));
        texts = texts.push(("Allow Pi to run shell commands."@, seq!["pi"@, "tool"@, "bash"@, "shell"@], SettingOwner::Shell, true));
    }
    assert(heads_of(v@) =~= heads);
    assert(kinds_of(v@) =~= kinds);
    assert(texts_of(v@) =~= texts);
    assert(forall|i: int| 0 <= i < v@.len() ==> (#[trigger] v@[i]).wf());
    if env.on_windows {
        let m = SettingMeta {
            key: "pi_builtin_tools.powershell",
            category: SettingCategory::Agent,
            owner: SettingOwner::Shell,
            label: "PowerShell",
            description: "Allow Pi to run PowerShell commands. PowerShell 7 (pwsh) is preferred, with Windows PowerShell as fallback.",
            keywords: vec!["pi", "tool", "powershell", "pwsh", "windows", "shell"],
            kind: SettingKind::Bool { default: ui.pi_builtin_tools.powershell },
            restart_required: true,
            hidden_in_minimal: false,
            external_only: true,
        };
        assert(m.wf());
        assert(m.keywords@.map_values(|k: &'static str| k@) =~= seq!["pi"@, "tool"@, "powershell"@, "pwsh"@, "windows"@, "shell"@]);
        v.push(m);
        proof {
            heads = heads.push(("pi_builtin_tools.powershell"@, SettingCategory::Agent, "PowerShell"@));
            kinds = kinds.push((KindSpec::Bool(PiBuiltinTools::spec_default_for(env.on_windows).powershell), false, true));
            texts = texts.push(("Allow Pi to run PowerShell commands. PowerShell 7 (pwsh) is preferred, with Windows PowerShell as fallback."@, seq!["pi"@, "tool"@, "powershell"@, "pwsh"@, "windows"@, "shell"@], SettingOwner::Shell, true));
        }
        assert(heads_of(v@) =~= heads);
        assert(kinds_of(v@) =~= kinds);
        assert(texts_of(v@) =~= texts);
        assert(forall|i: int| 0 <= i < v@.len() ==> (#[trigger] v@[i]).wf());
    }
    let m = SettingMeta {
        key: "pi_builtin_tools.edit",
        category: SettingCategory::Agent,
        owner: SettingOwner::Shell,
        label: "Edit",
        description: "Allow Pi to patch existing files.",
        keywords: vec!["pi", "tool", "edit"],
        kind: SettingKind::Bool { default: ui.pi_builtin_tools.edit },
        restart_required: true,
        hidden_in_minimal: false,
        external_only: true,
    };
    assert(m.wf());
    assert(m.keywords@.map_values(|k: &'static str| k@) =~= seq!["pi"@, "tool"@, "edit"@]);
    v.push(m);
    proof {
        heads = heads.push(("pi_builtin_tools.edit"@, SettingCategory::Agent, "Edit"@));
        kinds = kinds.push((KindSpec::Bool(PiBuiltinTools::spec_default_for(env.on_windows).edit), false, true));
        texts = texts.push(("Allow Pi to patch existing files."@, seq!["pi"@, "tool"@, "edit"@], SettingOwner::Shell, true));
    }
    assert(heads_of(v@) =~= heads);
    assert(kinds_of(v@) =~= kinds);
    assert(texts_of(v@) =~= texts);
    assert(forall|i: int| 0 <= i < v@.len() ==> (#[trigger] v@[i]).wf());
    let m = SettingMeta {
        key: "pi_builtin_tools.write",
        category: SettingCategory::Agent,
        owner: SettingOwner::Shell,
        label: "Write",
        description: "Allow Pi to create or overwrite files.",
        keywords: vec!["pi", "tool", "write"],
        kind: SettingKind::Bool { default: ui.pi_builtin_tools.write },
        restart_required: true,
        hidden_in_minimal: false,
        external_only: true,
    };
    assert(m.wf());
    assert(m.keywords@.map_values(|k: &'static str| k@) =~= seq!["pi"@, "tool"@, "write"@]);
    v.push(m);
    proof {
        heads = heads.push(("pi_builtin_tools.write"@, SettingCategory::Agent, "Write"@));
        kinds = kinds.push((KindSpec::Bool(PiBuiltinTools::spec_default_for(env.on_windows).write), false, true));
        texts = texts.push(("Allow Pi to create or overwrite files."@, seq!["pi"@, "tool"@, "write"@], SettingOwner::Shell, true));
    }
    assert(heads_of(v@) =~= heads);
    assert(kinds_of(v@) =~= kinds);
    assert(texts_of(v@) =~= texts);
    assert(forall|i: int| 0 <= i < v@.len() ==> (#[trigger] v@[i]).wf());
    let m = SettingMeta {
        key: "pi_builtin_tools.grep",
        category: SettingCategory::Agent,
        owner: SettingOwner::Shell,
        label: "Grep",
        description: "Allow Pi to search file contents with ripgrep.",
        keywords: vec!["pi", "tool", "grep", "search", "ripgrep"],
        kind: SettingKind::Bool { default: ui.pi_builtin_tools.grep },
        restart_required: true,
        hidden_in_minimal: false,
        external_only: true,
    };
    assert(m.wf());
    assert(m.keywords@.map_values(|k: &'static str| k@) =~= seq!["pi"@, "tool"@, "grep"@, "search"@, "ripgrep"@]);
    v.push(m);
    proof {
        heads = heads.push(("pi_builtin_tools.grep"@, SettingCategory::Agent, "Grep"@));
        kinds = kinds.push((KindSpec::Bool(PiBuiltinTools::spec_default_for(env.on_windows).grep), false, true));
        texts = texts.push(("Allow Pi to search file contents with ripgrep."@, seq!["pi"@, "tool"@, "grep"@, "search"@, "ripgrep"@], SettingOwner::Shell, true));
    }
    assert(heads_of(v@) =~= heads);
    assert(kinds_of(v@) =~= kinds);
    assert(texts_of(v@) =~= texts);
    assert(forall|i: int| 0 <= i < v@.len() ==> (#[trigger] v@[i]).wf());
    let m = SettingMeta {
        key: "pi_builtin_tools.find",
        category: SettingCategory::Agent,
        owner: SettingOwner::Shell,
        label: "Find",
        description: "Allow Pi to locate files by glob.",
        keywords: vec!["pi", "tool", "find", "files", "glob"],
        kind: SettingKind::Bool { default: ui.pi_builtin_tools.find },
        restart_required: true,
        hidden_in_minimal: false,
        external_only: true,
    };
    assert(m.wf());
    assert(m.keywords@.map_values(|k: &'static str| k@) =~= seq!["pi"@, "tool"@, "find"@, "files"@, "glob"@]);
    v.push(m);
    proof {
        heads = heads.push(("pi_builtin_tools.find"@, SettingCategory::Agent, "Find"@));
        kinds = kinds.push((KindSpec::Bool(PiBuiltinTools::spec_default_for(env.on_windows).find), false, true));
        texts = texts.push(("Allow Pi to locate files by glob."@, seq!["pi"@, "tool"@, "find"@, "files"@, "glob"@], SettingOwner::Shell, true));
    }
    assert(heads_of(v@) =~= heads);
    assert(kinds_of(v@) =~= kinds);
    assert(texts_of(v@) =~= texts);
    assert(forall|i: int| 0 <= i < v@.len() ==> (#[trigger] v@[i]).wf());
    assert(heads =~= spec_catalog_part_5(env.on_windows));
    assert(kinds =~= spec_catalog_kinds_5(*env));
    assert(texts =~= spec_catalog_texts_5(env.on_windows));
    v
}

/// Heads of the settings built by `catalog_part_6`.
pub open spec fn spec_catalog_part_6() -> Seq<(Seq<char>, SettingCategory, Seq<char>)> {
    seq![("pi_builtin_tools.ls"@, SettingCategory::Agent, "Ls"@), ("pi_builtin_tools.eval"@, SettingCategory::Agent, "Eval"@), ("psm_resume_index"@, SettingCategory::Agent, "PSM resume index"@), ("pi_tree_file_rollback"@, SettingCategory::Agent, "Pi tree file rollback"@), ("pi_tree_skip_summary_prompt"@, SettingCategory::Agent, "Pi tree skip summary prompt"@), ("pi_ask_user_question_notifications"@, SettingCategory::Agent, "Q&A desktop notifications"@), ("pi_cache_graph"@, SettingCategory::Agent, "Pi cache graph in Context"@), ("pi_config_skill"@, SettingCategory::Agent, "Pi config skill"@), ("pi_user_markdown"@, SettingCategory::Agent, "Markdown user messages"@), ("pi_at_search_hidden"@, SettingCategory::Editor, "Hidden files in @ search"@), ("pi_keep_multi_agent"@, SettingCategory::Agent, "Keep multi-agent on /new"@), ("show_other_tool_args"@, SettingCategory::Appearance, "Other tool args"@), ("review_file_tree"@, SettingCategory::Agent, "Review file tree"@), ("review_include_reads"@, SettingCategory::Agent, "Review include reads"@)]
}

/// Kinds and flags of the settings built by `catalog_part_6`.
pub open spec fn spec_catalog_kinds_6(env: CatalogDefaults) -> Seq<(KindSpec, bool, bool)> {
    seq![(KindSpec::Bool(PiBuiltinTools::spec_default_for(env.on_windows).ls), false, true), (KindSpec::Bool(PiBuiltinTools::spec_default_for(env.on_windows).eval), false, true), (KindSpec::Bool(false), false, false), (KindSpec::Bool(false), false, true), (KindSpec::Bool(false), false, true), (KindSpec::Bool(true), false, true), (KindSpec::Bool(true), false, true), (KindSpec::Bool(true), false, false), (KindSpec::Bool(true), false, true), (KindSpec::Bool(true), false, true), (KindSpec::Bool(false), false, true), (KindSpec::Bool(false), false, false), (KindSpec::Bool(false), false, true), (KindSpec::Bool(false), false, true)]
}

#[verifier::rlimit(80)]
fn catalog_part_6(ui: &UiConfig, env: &CatalogDefaults) -> (r: Vec<SettingMeta>)
    requires
        catalog_ui(ui, env.on_windows),
    ensures
        heads_of(r@) == spec_catalog_part_6(),
        kinds_of(r@) == spec_catalog_kinds_6(*env),
        texts_of(r@) == spec_catalog_texts_6(env.on_windows),
        forall|i: int| 0 <= i < r@.len() ==> (#[trigger] r@[i]).wf(),
{
    let mut v: Vec<SettingMeta> = Vec::new();
    let ghost mut heads: Seq<(Seq<char>, SettingCategory, Seq<char>)> = Seq::empty();
    let ghost mut kinds: Seq<(KindSpec, bool, bool)> = Seq::empty();
    let ghost mut texts: Seq<(Seq<char>, Seq<Seq<char>>, SettingOwner, bool)> = Seq::empty();
    let m = SettingMeta {
        key: "pi_builtin_tools.ls",
        category: SettingCategory::Agent,
        owner: SettingOwner::Shell,
        label: "Ls",
        description: "Allow Pi to list directory contents.",
        keywords: vec!["pi", "tool", "ls", "list", "directory"],
        kind: SettingKind::Bool { default: ui.pi_builtin_tools.ls },
        restart_required: true,
        hidden_in_minimal: false,
        external_only: true,
    };
    assert(m.wf());
    assert(m.keywords@.map_values(|k: &'static str| k@) =~= seq!["pi"@, "tool"@, "ls"@, "list"@, "directory"@]);
    v.push(m);
    proof {
        heads = heads.push(("pi_builtin_tools.ls"@, SettingCategory::Agent, "Ls"@));
        kinds = kinds.push((KindSpec::Bool(PiBuiltinTools::spec_default_for(env.on_windows).ls), false, true));
        texts = texts.push(("Allow Pi to list directory contents."@, seq!["pi"@, "tool"@, "ls"@, "list"@, "directory"@], SettingOwner::Shell, true));
    }
    assert(heads_of(v@) =~= heads);
    assert(kinds_of(v@) =~= kinds);
    assert(texts_of(v@) =~= texts);
    assert(forall|i: int| 0 <= i < v@.len() ==> (#[trigger] v@[i]).wf());
    let m = SettingMeta {
        key: "pi_builtin_tools.eval",
        category: SettingCategory::Agent,
        owner: SettingOwner::Shell,
        label: "Eval",
        description: "Expose Pi's Eval tool. The grok-pi Eval bridge version is configured separately by Eval bridge version.",
        keywords: vec!["pi", "tool", "eval", "python", "javascript", "kernel", "repl"],
        kind: SettingKind::Bool { default: ui.pi_builtin_tools.eval },
        restart_required: true,
        hidden_in_minimal: false,
        external_only: true,
    };
    assert(m.wf());
    assert(m.keywords@.map_values(|k: &'static str| k@) =~= seq!["pi"@, "tool"@, "eval"@, "python"@, "javascript"@, "kernel"@, "repl"@]);
    v.push(m);
    proof {
        heads = heads.push(("pi_builtin_tools.eval"@, SettingCategory::Agent, "Eval"@));
        kinds = kinds.push((KindSpec::Bool(PiBuiltinTools::spec_default_for(env.on_windows).eval), false, true));
        texts = texts.push(("Expose Pi's Eval tool. The grok-pi Eval bridge version is configured separately by Eval bridge version."@, seq!["pi"@, "tool"@, "eval"@, "python"@, "javascript"@, "kernel"@, "repl"@], SettingOwner::Shell, true));
    }
    assert(heads_of(v@) =~= heads);
    assert(kinds_of(v@) =~= kinds);
    assert(texts_of(v@) =~= texts);
    assert(forall|i: int| 0 <= i < v@.len() ==> (#[trigger] v@[i]).wf());
    let m = SettingMeta {
        key: "psm_resume_index",
        category: SettingCategory::Agent,
        owner: SettingOwner::Shell,
        label: "PSM resume index",
        description: "Use Pi Session Manager (must be running) for Pi /resume: SQLite catalog, Ctrl+F full-text search, and message preview. Off = Pi JSONL list only.",
        keywords: vec!["pi", "psm", "resume", "session", "sqlite", "index"],
        kind: SettingKind::Bool { default: ui.psm_resume_index },
        restart_required: false,
        hidden_in_minimal: false,
        external_only: false,
    };
    assert(m.wf());
    assert(m.keywords@.map_values(|k: &'static str| k@) =~= seq!["pi"@, "psm"@, "resume"@, "session"@, "sqlite"@, "index"@]);
    v.push(m);
    proof {
        heads = heads.push(("psm_resume_index"@, SettingCategory::Agent, "PSM resume index"@));
        kinds = kinds.push((KindSpec::Bool(false), false, false));
        texts = texts.push(("Use Pi Session Manager (must be running) for Pi /resume: SQLite catalog, Ctrl+F full-text search, and message preview. Off = Pi JSONL list only."@, seq!["pi"@, "psm"@, "resume"@, "session"@, "sqlite"@, "index"@], SettingOwner::Shell, false));
    }
    assert(heads_of(v@) =~= heads);
    assert(kinds_of(v@) =~= kinds);
    assert(texts_of(v@) =~= texts);
    assert(forall|i: int| 0 <= i < v@.len() ==> (#[trigger] v@[i]).wf());
    let m = SettingMeta {
        key: "pi_tree_file_rollback",
        category: SettingCategory::Agent,
        owner: SettingOwner::Shell,
        label: "Pi tree file rollback",
        description: "Track write/edit preimages and allow file-only rollback from SessionTree. Takes effect for new grok-pi sessions.",
        keywords: vec!["pi", "tree", "rollback", "rewind", "checkpoint", "file", "undo"],
        kind: SettingKind::Bool { default: ui.pi_tree_file_rollback },
        restart_required: true,
        hidden_in_minimal: false,
        external_only: true,
    };
    assert(m.wf());
    assert(m.keywords@.map_values(|k: &'static str| k@) =~= seq!["pi"@, "tree"@, "rollback"@, "rewind"@, "checkpoint"@, "file"@, "undo"@]);
    v.push(m);
    proof {
        heads = heads.push(("pi_tree_file_rollback"@, SettingCategory::Agent, "Pi tree file rollback"@));
        kinds = kinds.push((KindSpec::Bool(false), false, true));
        texts = texts.push(("Track write/edit preimages and allow file-only rollback from SessionTree. Takes effect for new grok-pi sessions."@, seq!["pi"@, "tree"@, "rollback"@, "rewind"@, "checkpoint"@, "file"@, "undo"@], SettingOwner::Shell, true));
    }
    assert(heads_of(v@) =~= heads);
    assert(kinds_of(v@) =~= kinds);
    assert(texts_of(v@) =~= texts);
    assert(forall|i: int| 0 <= i < v@.len() ==> (#[trigger] v@[i]).wf());
    let m = SettingMeta {
        key: "pi_tree_skip_summary_prompt",
        category: SettingCategory::Agent,
        owner: SettingOwner::Shell,
        label: "Pi tree skip summary prompt",
        description: "Skip the \"Summarize branch?\" prompt when navigating the session tree. When on, Enter navigates immediately without summarization.",
        keywords: vec!["pi", "tree", "summary", "summarize", "branch", "prompt", "navigate", "skip"],
        kind: SettingKind::Bool { default: ui.pi_tree_skip_summary_prompt },
        restart_required: false,
        hidden_in_minimal: false,
        external_only: true,
    };
    assert(m.wf());
    assert(m.keywords@.map_values(|k: &'static str| k@) =~= seq!["pi"@, "tree"@, "summary"@, "summarize"@, "branch"@, "prompt"@, "navigate"@, "skip"@]);
    v.push(m);
    proof {
        heads = heads.push(("pi_tree_skip_summary_prompt"@, SettingCategory::Agent, "Pi tree skip summary prompt"@));
        kinds = kinds.push((KindSpec::Bool(false), false, true));
        texts = texts.push(("Skip the \"Summarize branch?\" prompt when navigating the session tree. When on, Enter navigates immediately without summarization."@, seq!["pi"@, "tree"@, "summary"@, "summarize"@, "branch"@, "prompt"@, "navigate"@, "skip"@], SettingOwner::Shell, false));
    }
    assert(heads_of(v@) =~= heads);
    assert(kinds_of(v@) =~= kinds);
    assert(texts_of(v@) =~= texts);
    assert(forall|i: int| 0 <= i < v@.len() ==> (#[trigger] v@[i]).wf());
    let m = SettingMeta {
        key: "pi_ask_user_question_notifications",
        category: SettingCategory::Agent,
        owner: SettingOwner::Shell,
        label: "Q&A desktop notifications",
        description: "Notify you when a native Q&A question arrives while grok-pi is unfocused. Applies immediately; default on.",
        keywords: vec!["pi", "qa", "q&a", "ask", "question", "notification", "desktop", "focus", "unfocused"],
        kind: SettingKind::Bool { default: ui.pi_ask_user_question_notifications },
        restart_required: false,
        hidden_in_minimal: false,
        external_only: true,
    };
    assert(m.wf());
    assert(m.keywords@.map_values(|k: &'static str| k@) =~= seq!["pi"@, "qa"@, "q&a"@, "ask"@, "question"@, "notification"@, "desktop"@, "focus"@, "unfocused"@]);
    v.push(m);
    proof {
        heads = heads.push(("pi_ask_user_question_notifications"@, SettingCategory::Agent, "Q&A desktop notifications"@));
        kinds = kinds.push((KindSpec::Bool(true), false, true));
        texts = texts.push(("Notify you when a native Q&A question arrives while grok-pi is unfocused. Applies immediately; default on."@, seq!["pi"@, "qa"@, "q&a"@, "ask"@, "question"@, "notification"@, "desktop"@, "focus"@, "unfocused"@], SettingOwner::Shell, false));
    }
    assert(heads_of(v@) =~= heads);
    assert(kinds_of(v@) =~= kinds);
    assert(texts_of(v@) =~= texts);
    assert(forall|i: int| 0 <= i < v@.len() ==> (#[trigger] v@[i]).wf());
    let m = SettingMeta {
        key: "pi_cache_graph",
        category: SettingCategory::Agent,
        owner: SettingOwner::Shell,
        label: "Pi cache graph in Context",
        description: "Show cache hit graph/stats (keys 1/2/3/s/e) inside the Context modal. Matches pi-cache-graph; default on.",
        keywords: vec!["pi", "cache", "graph", "context", "stats", "hit"],
        kind: SettingKind::Bool { default: ui.pi_cache_graph },
        restart_required: false,
        hidden_in_minimal: false,
        external_only: true,
    };
    assert(m.wf());
    assert(m.keywords@.map_values(|k: &'static str| k@) =~= seq!["pi"@, "cache"@, "graph"@, "context"@, "stats"@, "hit"@]);
    v.push(m);
    proof {
        heads = heads.push(("pi_cache_graph"@, SettingCategory::Agent, "Pi cache graph in Context"@));
        kinds = kinds.push((KindSpec::Bool(true), false, true));
        texts = texts.push(("Show cache hit graph/stats (keys 1/2/3/s/e) inside the Context modal. Matches pi-cache-graph; default on."@, seq!["pi"@, "cache"@, "graph"@, "context"@, "stats"@, "hit"@], SettingOwner::Shell, false));
    }
    assert(heads_of(v@) =~= heads);
    assert(kinds_of(v@) =~= kinds);
    assert(texts_of(v@) =~= texts);
    assert(forall|i: int| 0 <= i < v@.len() ==> (#[trigger] v@[i]).wf());
    let m = SettingMeta {
        key: "pi_config_skill",
        category: SettingCategory::Agent,
        owner: SettingOwner::Shell,
        label: "Pi config skill",
        description: "Load grok-pi's embedded configuration skill by default so the agent can explain F2 settings, config.toml, skills, themes, and feature flags. Restart required.",
        keywords: vec!["pi", "grok-pi", "config", "configuration", "skill", "skills", "f2", "settings", "docs", "guide", "default", "disable"],
        kind: SettingKind::Bool { default: ui.pi_config_skill },
        restart_required: true,
        hidden_in_minimal: false,
        external_only: false,
    };
    assert(m.wf());
    assert(m.keywords@.map_values(|k: &'static str| k@) =~= seq!["pi"@, "grok-pi"@, "config"@, "configuration"@, "skill"@, "skills"@, "f2"@, "settings"@, "docs"@, "guide"@, "default"@, "disable"@]);
    v.push(m);
    proof {
        heads = heads.push(("pi_config_skill"@, SettingCategory::Agent, "Pi config skill"@));
        kinds = kinds.push((KindSpec::Bool(true), false, false));
        texts = texts.push(("Load grok-pi's embedded configuration skill by default so the agent can explain F2 settings, config.toml, skills, themes, and feature flags. Restart required."@, seq!["pi"@, "grok-pi"@, "config"@, "configuration"@, "skill"@, "skills"@, "f2"@, "settings"@, "docs"@, "guide"@, "default"@, "disable"@], SettingOwner::Shell, true));
    }
    assert(heads_of(v@) =~= heads);
    assert(kinds_of(v@) =~= kinds);
    assert(texts_of(v@) =~= texts);
    assert(forall|i: int| 0 <= i < v@.len() ==> (#[trigger] v@[i]).wf());
    let m = SettingMeta {
        key: "pi_user_markdown",
        category: SettingCategory::Agent,
        owner: SettingOwner::Shell,
        label: "Markdown user messages",
        description: "Render grok-pi user prompts with the agent markdown renderer (expanded, user chrome preserved). Off restores classic collapsible plain-text prompts. Default on.",
        keywords: vec!["pi", "user", "markdown", "prompt", "message"],
        kind: SettingKind::Bool { default: ui.pi_user_markdown },
        restart_required: false,
        hidden_in_minimal: false,
        external_only: true,
    };
    assert(m.wf());
    assert(m.keywords@.map_values(|k: &'static str| k@) =~= seq!["pi"@, "user"@, "markdown"@, "prompt"@, "message"@]);
    v.push(m);
    proof {
        heads = heads.push(("pi_user_markdown"@, SettingCategory::Agent, "Markdown user messages"@));
        kinds = kinds.push((KindSpec::Bool(true), false, true));
        texts = texts.push(("Render grok-pi user prompts with the agent markdown renderer (expanded, user chrome preserved). Off restores classic collapsible plain-text prompts. Default on."@, seq!["pi"@, "user"@, "markdown"@, "prompt"@, "message"@], SettingOwner::Shell, false));
    }
    assert(heads_of(v@) =~= heads);
    assert(kinds_of(v@) =~= kinds);
    assert(texts_of(v@) =~= texts);
    assert(forall|i: int| 0 <= i < v@.len() ==> (#[trigger] v@[i]).wf());
    let m = SettingMeta {
        key: "pi_at_search_hidden",
        category: SettingCategory::Editor,
        owner: SettingOwner::Shell,
        label: "Hidden files in @ search",
        description: "Include hidden/dotfile entries in plain `@` file search while still respecting ignore rules, matching pi-main's fd `--hidden` behavior. `@!` additionally reveals gitignored project files while `.git`, `node_modules`, and common dependency/package stores remain excluded. Default on.",
        keywords: vec!["pi", "at", "file", "search", "hidden", "dotfile", "gitignore"],
        kind: SettingKind::Bool { default: ui.pi_at_search_hidden },
        restart_required: false,
        hidden_in_minimal: false,
        external_only: true,
    };
    assert(m.wf());
    assert(m.keywords@.map_values(|k: &'static str| k@) =~= seq!["pi"@, "at"@, "file"@, "search"@, "hidden"@, "dotfile"@, "gitignore"@]);
    v.push(m);
    proof {
        heads = heads.push(("pi_at_search_hidden"@, SettingCategory::Editor, "Hidden files in @ search"@));
        kinds = kinds.push((KindSpec::Bool(true), false, true));
        texts = texts.push(("Include hidden/dotfile entries in plain `@` file search while still respecting ignore rules, matching pi-main's fd `--hidden` behavior. `@!` additionally reveals gitignored project files while `.git`, `node_modules`, and common dependency/package stores remain excluded. Default on."@, seq!["pi"@, "at"@, "file"@, "search"@, "hidden"@, "dotfile"@, "gitignore"@], SettingOwner::Shell, false));
    }
    assert(heads_of(v@) =~= heads);
    assert(kinds_of(v@) =~= kinds);
    assert(texts_of(v@) =~= texts);
    assert(forall|i: int| 0 <= i < v@.len() ==> (#[trigger] v@[i]).wf());
    let m = SettingMeta {
        key: "pi_keep_multi_agent",
        category: SettingCategory::Agent,
        owner: SettingOwner::Shell,
        label: "Keep multi-agent on /new",
        description: "When on, `/new` keeps the current agent tab alive so the dashboard can switch back to it (Pi re-loads its session on demand). Default off: `/new` drops the current agent tab and starts fresh — other idle agent tabs in the dashboard are left untouched.",
        keywords: vec!["pi", "new", "session", "multi", "agent", "dashboard", "replace", "keep", "preserve"],
        kind: SettingKind::Bool { default: ui.pi_keep_multi_agent },
        restart_required: false,
        hidden_in_minimal: false,
        external_only: true,
    };
    assert(m.wf());
    assert(m.keywords@.map_values(|k: &'static str| k@) =~= seq!["pi"@, "new"@, "session"@, "multi"@, "agent"@, "dashboard"@, "replace"@, "keep"@, "preserve"@]);
    v.push(m);
    proof {
        heads = heads.push(("pi_keep_multi_agent"@, SettingCategory::Agent, "Keep multi-agent on /new"@));
        kinds = kinds.push((KindSpec::Bool(false), false, true));
        texts = texts.push(("When on, `/new` keeps the current agent tab alive so the dashboard can switch back to it (Pi re-loads its session on demand). Default off: `/new` drops the current agent tab and starts fresh — other idle agent tabs in the dashboard are left untouched."@, seq!["pi"@, "new"@, "session"@, "multi"@, "agent"@, "dashboard"@, "replace"@, "keep"@, "preserve"@], SettingOwner::Shell, false));
    }
    assert(heads_of(v@) =~= heads);
    assert(kinds_of(v@) =~= kinds);
    assert(texts_of(v@) =~= texts);
    assert(forall|i: int| 0 <= i < v@.len() ==> (#[trigger] v@[i]).wf());
    let m = SettingMeta {
        key: "show_other_tool_args",
        category: SettingCategory::Appearance,
        owner: SettingOwner::Shell,
        label: "Other tool args",
        description: "When expanded, show raw_input JSON on all Other/generic tool cards (not just fabric_exec). Collapsed stays name-only. Default off.",
        keywords: vec!["tool", "args", "arguments", "raw_input", "other", "fabric", "fabric_exec", "json"],
        kind: SettingKind::Bool { default: ui.show_other_tool_args },
        restart_required: false,
        hidden_in_minimal: false,
        external_only: false,
    };
    assert(m.wf());
    assert(m.keywords@.map_values(|k: &'static str| k@) =~= seq!["tool"@, "args"@, "arguments"@, "raw_input"@, "other"@, "fabric"@, "fabric_exec"@, "json"@]);
    v.push(m);
    proof {
        heads = heads.push(("show_other_tool_args"@, SettingCategory::Appearance, "Other tool args"@));
        kinds = kinds.push((KindSpec::Bool(false), false, false));
        texts = texts.push(("When expanded, show raw_input JSON on all Other/generic tool cards (not just fabric_exec). Collapsed stays name-only. Default off."@, seq!["tool"@, "args"@, "arguments"@, "raw_input"@, "other"@, "fabric"@, "fabric_exec"@, "json"@], SettingOwner::Shell, false));
    }
    assert(heads_of(v@) =~= heads);
    assert(kinds_of(v@) =~= kinds);
    assert(texts_of(v@) =~= texts);
    assert(forall|i: int| 0 <= i < v@.len() ==> (#[trigger] v@[i]).wf());
    let m = SettingMeta {
        key: "review_file_tree",
        category: SettingCategory::Agent,
        owner: SettingOwner::Shell,
        label: "Review file tree",
        description: "Default /review-* left pane to a cwd-relative tree (compacts Java package chains). Off = flat basenames. Press t in the modal to toggle; persists here.",
        keywords: vec!["review", "tree", "files", "code review", "package", "java"],
        kind: SettingKind::Bool { default: ui.review_file_tree },
        restart_required: false,
        hidden_in_minimal: false,
        external_only: true,
    };
    assert(m.wf());
    assert(m.keywords@.map_values(|k: &'static str| k@) =~= seq!["review"@, "tree"@, "files"@, "code review"@, "package"@, "java"@]);
    v.push(m);
    proof {
        heads = heads.push(("review_file_tree"@, SettingCategory::Agent, "Review file tree"@));
        kinds = kinds.push((KindSpec::Bool(false), false, true));
        texts = texts.push(("Default /review-* left pane to a cwd-relative tree (compacts Java package chains). Off = flat basenames. Press t in the modal to toggle; persists here."@, seq!["review"@, "tree"@, "files"@, "code review"@, "package"@, "java"@], SettingOwner::Shell, false));
    }
    assert(heads_of(v@) =~= heads);
    assert(kinds_of(v@) =~= kinds);
    assert(texts_of(v@) =~= texts);
    assert(forall|i: int| 0 <= i < v@.len() ==> (#[trigger] v@[i]).wf());
    let m = SettingMeta {
        key: "review_include_reads",
        category: SettingCategory::Agent,
        owner: SettingOwner::Shell,
        label: "Review include reads",
        description: "Include session read tool ops in /review-* file list (right pane reuses read viewer, not diff). Off = edit/write only. Press r in the modal to toggle; persists here.",
        keywords: vec!["review", "read", "files", "code review", "filter"],
        kind: SettingKind::Bool { default: ui.review_include_reads },
        restart_required: false,
        hidden_in_minimal: false,
        external_only: true,
    };
    assert(m.wf());
    assert(m.keywords@.map_values(|k: &'static str| k@) =~= seq!["review"@, "read"@, "files"@, "code review"@, "filter"@]);
    v.push(m);
    proof {
        heads = heads.push(("review_include_reads"@, SettingCategory::Agent, "Review include reads"@));
        kinds = kinds.push((KindSpec::Bool(false), false, true));
        texts = texts.push(("Include session read tool ops in /review-* file list (right pane reuses read viewer, not diff). Off = edit/write only. Press r in the modal to toggle; persists here."@, seq!["review"@, "read"@, "files"@, "code review"@, "filter"@], SettingOwner::Shell, false));
    }
    assert(heads_of(v@) =~= heads);
    assert(kinds_of(v@) =~= kinds);
    assert(texts_of(v@) =~= texts);
    assert(forall|i: int| 0 <= i < v@.len() ==> (#[trigger] v@[i]).wf());
    assert(heads =~= spec_catalog_part_6());
    assert(kinds =~= spec_catalog_kinds_6(*env));
    assert(texts =~= spec_catalog_texts_6(env.on_windows));
    v
}

/// Heads of the settings built by `catalog_part_7`.
pub open spec fn spec_catalog_part_7() -> Seq<(Seq<char>, SettingCategory, Seq<char>)> {
    seq![("pi_config"@, SettingCategory::Agent, "Pi resources"@), ("session_recap"@, SettingCategory::Agent, "Session recap"@), ("recap_mermaid"@, SettingCategory::Agent, "Recap Mermaid diagrams"@), ("progress_bar"@, SettingCategory::Appearance, "Terminal tab progress"@), ("remote_tui_footer"@, SettingCategory::Appearance, "Remote TUI footer"@), ("recap_models"@, SettingCategory::Models, "Recap models"@), ("btw_models"@, SettingCategory::Models, "Btw models"@), ("recap_model"@, SettingCategory::Models, "Primary"@), ("recap_model_2"@, SettingCategory::Models, "Fallback 2"@), ("recap_model_3"@, SettingCategory::Models, "Fallback 3"@), ("btw_model"@, SettingCategory::Models, "Primary"@), ("btw_model_2"@, SettingCategory::Models, "Fallback 2"@), ("btw_model_3"@, SettingCategory::Models, "Fallback 3"@)]
}

/// Kinds and flags of the settings built by `catalog_part_7`.
pub open spec fn spec_catalog_kinds_7(env: CatalogDefaults) -> Seq<(KindSpec, bool, bool)> {
    seq![(KindSpec::Group(seq![]), false, false), (KindSpec::Bool(true), false, false), (KindSpec::Bool(false), false, false), (KindSpec::Bool(false), false, false), (KindSpec::Bool(false), false, false), (KindSpec::Group(seq!["recap_model"@, "recap_model_2"@, "recap_model_3"@]), false, false), (KindSpec::Group(seq!["btw_model"@, "btw_model_2"@, "btw_model_3"@]), false, true), (KindSpec::DynamicEnum(""@, DynamicEnumSource::ActiveModelCatalog, false), false, false), (KindSpec::DynamicEnum(""@, DynamicEnumSource::ActiveModelCatalog, false), false, false), (KindSpec::DynamicEnum(""@, DynamicEnumSource::ActiveModelCatalog, false), false, false), (KindSpec::DynamicEnum(""@, DynamicEnumSource::ActiveModelCatalog, false), false, true), (KindSpec::DynamicEnum(""@, DynamicEnumSource::ActiveModelCatalog, false), false, true), (KindSpec::DynamicEnum(""@, DynamicEnumSource::ActiveModelCatalog, false), false, true)]
}

#[verifier::rlimit(80)]
fn catalog_part_7(ui: &UiConfig, env: &CatalogDefaults) -> (r: Vec<SettingMeta>)
    requires
        catalog_ui(ui, env.on_windows),
    ensures
        heads_of(r@) == spec_catalog_part_7(),
        kinds_of(r@) == spec_catalog_kinds_7(*env),
        texts_of(r@) == spec_catalog_texts_7(env.on_windows),
        forall|i: int| 0 <= i < r@.len() ==> (#[trigger] r@[i]).wf(),
{
    let mut v: Vec<SettingMeta> = Vec::new();
    let ghost mut heads: Seq<(Seq<char>, SettingCategory, Seq<char>)> = Seq::empty();
    let ghost mut kinds: Seq<(KindSpec, bool, bool)> = Seq::empty();
    let ghost mut texts: Seq<(Seq<char>, Seq<Seq<char>>, SettingOwner, bool)> = Seq::empty();
    let mut children_pi_config: Vec<&'static str> = Vec::new();
    assert(children_pi_config@.map_values(|c: &'static str| c@) =~= seq![]);
    let m = SettingMeta {
        key: "pi_config",
        category: SettingCategory::Agent,
        owner: SettingOwner::Shell,
        label: "Pi resources",
        description: "Review and enable Pi extensions, skills, prompts, and themes. Project resources require Pi project trust.",
        keywords: vec!["pi", "config", "extensions", "skills", "prompts", "themes", "resources"],
        kind: SettingKind::Group { children: children_pi_config },
        restart_required: false,
        hidden_in_minimal: false,
        external_only: false,
    };
    assert(m.wf());
    assert(m.keywords@.map_values(|k: &'static str| k@) =~= seq!["pi"@, "config"@, "extensions"@, "skills"@, "prompts"@, "themes"@, "resources"@]);
    v.push(m);
    proof {
        heads = heads.push(("pi_config"@, SettingCategory::Agent, "Pi resources"@));
        kinds = kinds.push((KindSpec::Group(seq![]), false, false));
        texts = texts.push(("Review and enable Pi extensions, skills, prompts, and themes. Project resources require Pi project trust."@, seq!["pi"@, "config"@, "extensions"@, "skills"@, "prompts"@, "themes"@, "resources"@], SettingOwner::Shell, false));
    }
    assert(heads_of(v@) =~= heads);
    assert(kinds_of(v@) =~= kinds);
    assert(texts_of(v@) =~= texts);
    assert(forall|i: int| 0 <= i < v@.len() ==> (#[trigger] v@[i]).wf());
    let m = SettingMeta {
        key: "session_recap",
        category: SettingCategory::Agent,
        owner: SettingOwner::Shell,
        label: "Session recap",
        description: "Show an automatic \"where was I\" recap when you return after being away. Manual /recap still works when the agent advertises sessionRecap.",
        keywords: vec!["recap", "session", "summary", "away", "return", "auto"],
        kind: SettingKind::Bool { default: match ui.session_recap { Some(b) => b, None => true } },
        restart_required: false,
        hidden_in_minimal: false,
        external_only: false,
    };
    assert(m.wf());
    assert(m.keywords@.map_values(|k: &'static str| k@) =~= seq!["recap"@, "session"@, "summary"@, "away"@, "return"@, "auto"@]);
    v.push(m);
    proof {
        heads = heads.push(("session_recap"@, SettingCategory::Agent, "Session recap"@));
        kinds = kinds.push((KindSpec::Bool(true), false, false));
        texts = texts.push(("Show an automatic \"where was I\" recap when you return after being away. Manual /recap still works when the agent advertises sessionRecap."@, seq!["recap"@, "session"@, "summary"@, "away"@, "return"@, "auto"@], SettingOwner::Shell, false));
    }
    assert(heads_of(v@) =~= heads);
    assert(kinds_of(v@) =~= kinds);
    assert(texts_of(v@) =~= texts);
    assert(forall|i: int| 0 <= i < v@.len() ==> (#[trigger] v@[i]).wf());
    let m = SettingMeta {
        key: "recap_mermaid",
        category: SettingCategory::Agent,
        owner: SettingOwner::Shell,
        label: "Recap Mermaid diagrams",
        description: "Allow Recap to include an optional Markdown Mermaid diagram. The diagram is rendered when the recap is expanded.",
        keywords: vec!["recap", "mermaid", "diagram", "summary", "graph"],
        kind: SettingKind::Bool { default: match ui.recap_mermaid { Some(b) => b, None => false } },
        restart_required: false,
        hidden_in_minimal: false,
        external_only: false,
    };
    assert(m.wf());
    assert(m.keywords@.map_values(|k: &'static str| k@) =~= seq!["recap"@, "mermaid"@, "diagram"@, "summary"@, "graph"@]);
    v.push(m);
    proof {
        heads = heads.push(("recap_mermaid"@, SettingCategory::Agent, "Recap Mermaid diagrams"@));
        kinds = kinds.push((KindSpec::Bool(false), false, false));
        texts = texts.push(("Allow Recap to include an optional Markdown Mermaid diagram. The diagram is rendered when the recap is expanded."@, seq!["recap"@, "mermaid"@, "diagram"@, "summary"@, "graph"@], SettingOwner::Shell, false));
    }
    assert(heads_of(v@) =~= heads);
    assert(kinds_of(v@) =~= kinds);
    assert(texts_of(v@) =~= texts);
    assert(forall|i: int| 0 <= i < v@.len() ==> (#[trigger] v@[i]).wf());
    let m = SettingMeta {
        key: "progress_bar",
        category: SettingCategory::Appearance,
        owner: SettingOwner::Shell,
        label: "Terminal tab progress",
        description: "Show OSC 9;4 progress indicators in the terminal tab bar.",
        keywords: vec!["progress", "terminal", "tab", "osc", "9;4", "indicator"],
        kind: SettingKind::Bool { default: match ui.progress_bar { Some(b) => b, None => false } },
        restart_required: false,
        hidden_in_minimal: false,
        external_only: false,
    };
    assert(m.wf());
    assert(m.keywords@.map_values(|k: &'static str| k@) =~= seq!["progress"@, "terminal"@, "tab"@, "osc"@, "9;4"@, "indicator"@]);
    v.push(m);
    proof {
        heads = heads.push(("progress_bar"@, SettingCategory::Appearance, "Terminal tab progress"@));
        kinds = kinds.push((KindSpec::Bool(false), false, false));
        texts = texts.push(("Show OSC 9;4 progress indicators in the terminal tab bar."@, seq!["progress"@, "terminal"@, "tab"@, "osc"@, "9;4"@, "indicator"@], SettingOwner::Shell, false));
    }
    assert(heads_of(v@) =~= heads);
    assert(kinds_of(v@) =~= kinds);
    assert(texts_of(v@) =~= texts);
    assert(forall|i: int| 0 <= i < v@.len() ==> (#[trigger] v@[i]).wf());
    let m = SettingMeta {
        key: "remote_tui_footer",
        category: SettingCategory::Appearance,
        owner: SettingOwner::Shell,
        label: "Remote TUI footer",
        description: "Show keyboard hints below experimental Remote TUI frames.",
        keywords: vec!["remote", "tui", "footer", "keyboard", "hints"],
        kind: SettingKind::Bool { default: match ui.remote_tui_footer { Some(b) => b, None => false } },
        restart_required: false,
        hidden_in_minimal: false,
        external_only: false,
    };
    assert(m.wf());
    assert(m.keywords@.map_values(|k: &'static str| k@) =~= seq!["remote"@, "tui"@, "footer"@, "keyboard"@, "hints"@]);
    v.push(m);
    proof {
        heads = heads.push(("remote_tui_footer"@, SettingCategory::Appearance, "Remote TUI footer"@));
        kinds = kinds.push((KindSpec::Bool(false), false, false));
        texts = texts.push(("Show keyboard hints below experimental Remote TUI frames."@, seq!["remote"@, "tui"@, "footer"@, "keyboard"@, "hints"@], SettingOwner::Shell, false));
    }
    assert(heads_of(v@) =~= heads);
    assert(kinds_of(v@) =~= kinds);
    assert(texts_of(v@) =~= texts);
    assert(forall|i: int| 0 <= i < v@.len() ==> (#[trigger] v@[i]).wf());
    let mut children_recap_models: Vec<&'static str> = Vec::new();
    children_recap_models.push("recap_model");
    children_recap_models.push("recap_model_2");
    children_recap_models.push("recap_model_3");
    assert(children_recap_models@.map_values(|c: &'static str| c@) =~= seq!["recap_model"@, "recap_model_2"@, "recap_model_3"@]);
    let m = SettingMeta {
        key: "recap_models",
        category: SettingCategory::Models,
        owner: SettingOwner::Shell,
        label: "Recap models",
        description: "Primary + fallback models for session recap (/recap and auto away-recap). Empty slots use the active session model or skip.",
        keywords: vec!["recap", "model", "summary", "session", "models", "fallback"],
        kind: SettingKind::Group { children: children_recap_models },
        restart_required: false,
        hidden_in_minimal: false,
        external_only: false,
    };
    assert(m.wf());
    assert(m.keywords@.map_values(|k: &'static str| k@) =~= seq!["recap"@, "model"@, "summary"@, "session"@, "models"@, "fallback"@]);
    v.push(m);
    proof {
        heads = heads.push(("recap_models"@, SettingCategory::Models, "Recap models"@));
        kinds = kinds.push((KindSpec::Group(seq!["recap_model"@, "recap_model_2"@, "recap_model_3"@]), false, false));
        texts = texts.push(("Primary + fallback models for session recap (/recap and auto away-recap). Empty slots use the active session model or skip."@, seq!["recap"@, "model"@, "summary"@, "session"@, "models"@, "fallback"@], SettingOwner::Shell, false));
    }
    assert(heads_of(v@) =~= heads);
    assert(kinds_of(v@) =~= kinds);
    assert(texts_of(v@) =~= texts);
    assert(forall|i: int| 0 <= i < v@.len() ==> (#[trigger] v@[i]).wf());
    let mut children_btw_models: Vec<&'static str> = Vec::new();
    children_btw_models.push("btw_model");
    children_btw_models.push("btw_model_2");
    children_btw_models.push("btw_model_3");
    assert(children_btw_models@.map_values(|c: &'static str| c@) =~= seq!["btw_model"@, "btw_model_2"@, "btw_model_3"@]);
    let m = SettingMeta {
        key: "btw_models",
        category: SettingCategory::Models,
        owner: SettingOwner::Shell,
        label: "Btw models",
        description: "Primary + fallback models for /btw side questions. Empty slots use the active session model or skip.",
        keywords: vec!["btw", "model", "side", "question", "fallback"],
        kind: SettingKind::Group { children: children_btw_models },
        restart_required: false,
        hidden_in_minimal: false,
        external_only: true,
    };
    assert(m.wf());
    assert(m.keywords@.map_values(|k: &'static str| k@) =~= seq!["btw"@, "model"@, "side"@, "question"@, "fallback"@]);
    v.push(m);
    proof {
        heads = heads.push(("btw_models"@, SettingCategory::Models, "Btw models"@));
        kinds = kinds.push((KindSpec::Group(seq!["btw_model"@, "btw_model_2"@, "btw_model_3"@]), false, true));
        texts = texts.push(("Primary + fallback models for /btw side questions. Empty slots use the active session model or skip."@, seq!["btw"@, "model"@, "side"@, "question"@, "fallback"@], SettingOwner::Shell, false));
    }
    assert(heads_of(v@) =~= heads);
    assert(kinds_of(v@) =~= kinds);
    assert(texts_of(v@) =~= texts);
    assert(forall|i: int| 0 <= i < v@.len() ==> (#[trigger] v@[i]).wf());
    let m = SettingMeta {
        key: "recap_model",
        category: SettingCategory::Models,
        owner: SettingOwner::Shell,
        label: "Primary",
        description: "Primary recap model. Empty = active session model.",
        keywords: vec!["recap", "model", "summary", "session", "models"],
        kind: SettingKind::DynamicEnum { default: "", source: DynamicEnumSource::ActiveModelCatalog, supports_preview: false },
        restart_required: false,
        hidden_in_minimal: false,
        external_only: false,
    };
    assert(m.wf());
    assert(m.keywords@.map_values(|k: &'static str| k@) =~= seq!["recap"@, "model"@, "summary"@, "session"@, "models"@]);
    v.push(m);
    proof {
        heads = heads.push(("recap_model"@, SettingCategory::Models, "Primary"@));
        kinds = kinds.push((KindSpec::DynamicEnum(""@, DynamicEnumSource::ActiveModelCatalog, false), false, false));
        texts = texts.push(("Primary recap model. Empty = active session model."@, seq!["recap"@, "model"@, "summary"@, "session"@, "models"@], SettingOwner::Shell, false));
    }
    assert(heads_of(v@) =~= heads);
    assert(kinds_of(v@) =~= kinds);
    assert(texts_of(v@) =~= texts);
    assert(forall|i: int| 0 <= i < v@.len() ==> (#[trigger] v@[i]).wf());
    let m = SettingMeta {
        key: "recap_model_2",
        category: SettingCategory::Models,
        owner: SettingOwner::Shell,
        label: "Fallback 2",
        description: "Tried if primary fails. Empty = skip.",
        keywords: vec!["recap", "model", "fallback", "summary"],
        kind: SettingKind::DynamicEnum { default: "", source: DynamicEnumSource::ActiveModelCatalog, supports_preview: false },
        restart_required: false,
        hidden_in_minimal: false,
        external_only: false,
    };
    assert(m.wf());
    assert(m.keywords@.map_values(|k: &'static str| k@) =~= seq!["recap"@, "model"@, "fallback"@, "summary"@]);
    v.push(m);
    proof {
        heads = heads.push(("recap_model_2"@, SettingCategory::Models, "Fallback 2"@));
        kinds = kinds.push((KindSpec::DynamicEnum(""@, DynamicEnumSource::ActiveModelCatalog, false), false, false));
        texts = texts.push(("Tried if primary fails. Empty = skip."@, seq!["recap"@, "model"@, "fallback"@, "summary"@], SettingOwner::Shell, false));
    }
    assert(heads_of(v@) =~= heads);
    assert(kinds_of(v@) =~= kinds);
    assert(texts_of(v@) =~= texts);
    assert(forall|i: int| 0 <= i < v@.len() ==> (#[trigger] v@[i]).wf());
    let m = SettingMeta {
        key: "recap_model_3",
        category: SettingCategory::Models,
        owner: SettingOwner::Shell,
        label: "Fallback 3",
        description: "Tried if primary and fallback 2 fail. Empty = skip.",
        keywords: vec!["recap", "model", "fallback", "summary"],
        kind: SettingKind::DynamicEnum { default: "", source: DynamicEnumSource::ActiveModelCatalog, supports_preview: false },
        restart_required: false,
        hidden_in_minimal: false,
        external_only: false,
    };
    assert(m.wf());
    assert(m.keywords@.map_values(|k: &'static str| k@) =~= seq!["recap"@, "model"@, "fallback"@, "summary"@]);
    v.push(m);
    proof {
        heads = heads.push(("recap_model_3"@, SettingCategory::Models, "Fallback 3"@));
        kinds = kinds.push((KindSpec::DynamicEnum(""@, DynamicEnumSource::ActiveModelCatalog, false), false, false));
        texts = texts.push(("Tried if primary and fallback 2 fail. Empty = skip."@, seq!["recap"@, "model"@, "fallback"@, "summary"@], SettingOwner::Shell, false));
    }
    assert(heads_of(v@) =~= heads);
    assert(kinds_of(v@) =~= kinds);
    assert(texts_of(v@) =~= texts);
    assert(forall|i: int| 0 <= i < v@.len() ==> (#[trigger] v@[i]).wf());
    let m = SettingMeta {
        key: "btw_model",
        category: SettingCategory::Models,
        owner: SettingOwner::Shell,
        label: "Primary",
        description: "Primary /btw model. Empty = active session model.",
        keywords: vec!["btw", "model", "side", "question"],
        kind: SettingKind::DynamicEnum { default: "", source: DynamicEnumSource::ActiveModelCatalog, supports_preview: false },
        restart_required: false,
        hidden_in_minimal: false,
        external_only: true,
    };
    assert(m.wf());
    assert(m.keywords@.map_values(|k: &'static str| k@) =~= seq!["btw"@, "model"@, "side"@, "question"@]);
    v.push(m);
    proof {
        heads = heads.push(("btw_model"@, SettingCategory::Models, "Primary"@));
        kinds = kinds.push((KindSpec::DynamicEnum(""@, DynamicEnumSource::ActiveModelCatalog, false), false, true));
        texts = texts.push(("Primary /btw model. Empty = active session model."@, seq!["btw"@, "model"@, "side"@, "question"@], SettingOwner::Shell, false));
    }
    assert(heads_of(v@) =~= heads);
    assert(kinds_of(v@) =~= kinds);
    assert(texts_of(v@) =~= texts);
    assert(forall|i: int| 0 <= i < v@.len() ==> (#[trigger] v@[i]).wf());
    let m = SettingMeta {
        key: "btw_model_2",
        category: SettingCategory::Models,
        owner: SettingOwner::Shell,
        label: "Fallback 2",
        description: "Tried if primary fails. Empty = skip.",
        keywords: vec!["btw", "model", "fallback"],
        kind: SettingKind::DynamicEnum { default: "", source: DynamicEnumSource::ActiveModelCatalog, supports_preview: false },
        restart_required: false,
        hidden_in_minimal: false,
        external_only: true,
    };
    assert(m.wf());
    assert(m.keywords@.map_values(|k: &'static str| k@) =~= seq!["btw"@, "model"@, "fallback"@]);
    v.push(m);
    proof {
        heads = heads.push(("btw_model_2"@, SettingCategory::Models, "Fallback 2"@));
        kinds = kinds.push((KindSpec::DynamicEnum(""@, DynamicEnumSource::ActiveModelCatalog, false), false, true));
        texts = texts.push(("Tried if primary fails. Empty = skip."@, seq!["btw"@, "model"@, "fallback"@], SettingOwner::Shell, false));
    }
    assert(heads_of(v@) =~= heads);
    assert(kinds_of(v@) =~= kinds);
    assert(texts_of(v@) =~= texts);
    assert(forall|i: int| 0 <= i < v@.len() ==> (#[trigger] v@[i]).wf());
    let m = SettingMeta {
        key: "btw_model_3",
        category: SettingCategory::Models,
        owner: SettingOwner::Shell,
        label: "Fallback 3",
        description: "Tried if primary and fallback 2 fail. Empty = skip.",
        keywords: vec!["btw", "model", "fallback"],
        kind: SettingKind::DynamicEnum { default: "", source: DynamicEnumSource::ActiveModelCatalog, supports_preview: false },
        restart_required: false,
        hidden_in_minimal: false,
        external_only: true,
    };
    assert(m.wf());
    assert(m.keywords@.map_values(|k: &'static str| k@) =~= seq!["btw"@, "model"@, "fallback"@]);
    v.push(m);
    proof {
        heads = heads.push(("btw_model_3"@, SettingCategory::Models, "Fallback 3"@));
        kinds = kinds.push((KindSpec::DynamicEnum(""@, DynamicEnumSource::ActiveModelCatalog, false), false, true));
        texts = texts.push(("Tried if primary and fallback 2 fail. Empty = skip."@, seq!["btw"@, "model"@, "fallback"@], SettingOwner::Shell, false));
    }
    assert(heads_of(v@) =~= heads);
    assert(kinds_of(v@) =~= kinds);
    assert(texts_of(v@) =~= texts);
    assert(forall|i: int| 0 <= i < v@.len() ==> (#[trigger] v@[i]).wf());
    assert(heads =~= spec_catalog_part_7());
    assert(kinds =~= spec_catalog_kinds_7(*env));
    assert(texts =~= spec_catalog_texts_7(env.on_windows));
    v
}

/// Heads of the whole catalog, in declaration order.
pub open spec fn spec_catalog_heads(on_windows: bool) -> Seq<(Seq<char>, SettingCategory, Seq<char>)> {
    spec_catalog_part_1() + spec_catalog_part_2() + spec_catalog_part_3() + spec_catalog_part_4() + spec_catalog_part_5(on_windows) + spec_catalog_part_6() + spec_catalog_part_7()
}

/// Kinds and flags of the whole catalog, in declaration order.
pub open spec fn spec_catalog_kinds(env: CatalogDefaults) -> Seq<(KindSpec, bool, bool)> {
    spec_catalog_kinds_1(env) + spec_catalog_kinds_2(env) + spec_catalog_kinds_3(env) + spec_catalog_kinds_4(env) + spec_catalog_kinds_5(env) + spec_catalog_kinds_6(env) + spec_catalog_kinds_7(env)
}

/// Keys of the whole catalog, in declaration order.
pub open spec fn spec_catalog_keys(on_windows: bool) -> Seq<Seq<char>> {
    spec_catalog_heads(on_windows).map_values(|h: (Seq<char>, SettingCategory, Seq<char>)| h.0)
}

/// Descriptions, search keywords, owners and restart flags of the settings
/// built by `catalog_part_1`.
pub open spec fn spec_catalog_texts_1(on_windows: bool) -> Seq<(Seq<char>, Seq<Seq<char>>, SettingOwner, bool)> {
    seq![("Reduce padding around messages for more content density. Auto-enabled while the terminal is 20 rows or shorter."@, seq!["compact"@, "density"@, "padding"@, "tight"@, "small"@, "screen"@, "auto"@], SettingOwner::Shared, false), ("How plain grok opens next time: Fullscreen (default when unset) or Minimal. Writes [ui] screen_mode in config.toml. Restart required. Switch this session only with /minimal or /fullscreen."@, seq!["screen"@, "mode"@, "minimal"@, "fullscreen"@, "full"@, "scrollback"@, "native"@, "alt-screen"@, "render"@, "default"@], SettingOwner::Shell, true), ("Show clock time next to user messages and agent responses."@, seq!["timestamps"@, "time"@, "clock"@, "date"@], SettingOwner::Shared, false), ("Per-turn tick rail in place of the scrollbar: hover previews a turn, click jumps to it."@, seq!["timeline"@, "sidebar"@, "ticks"@, "turns"@, "navigator"@, "rail"@], SettingOwner::Shared, false), ("When you send a prompt, scroll it to the top of the screen so the response starts on a fresh page (default). Turn off to leave the scroll position unchanged when you send."@, seq!["page"@, "flip"@, "send"@, "prompt"@, "scroll"@, "top"@, "jump"@, "auto"@, "snap"@], SettingOwner::Shared, false), ("Merge consecutive plain follow-ups into one model turn (TUI shows one bubble each). Stops at bash, slash commands, cron, expanded skills, image follow-ups, or a row under edit. Default off; applies on local drain and shell promote."@, seq!["queue"@, "combine"@, "batch"@, "follow-up"@, "merge"@, "pending"@], SettingOwner::Shared, false), ("What to do with messages you send while a turn is running. Queue waits for the turn to finish; Steer injects them mid-turn at the next tool batch or model step. Default: Queue."@, seq!["queue"@, "steer"@, "interject"@, "follow-up"@, "followup"@, "send"@, "immediate"@], SettingOwner::Shared, false), ("Choose whether Esc cancels a running turn or Ctrl+C is required. Default: Esc."@, seq!["cancel"@, "stop"@, "interrupt"@, "esc"@, "escape"@, "ctrl+c"@, "key"@], SettingOwner::Shared, false), ("Ask before rewinding conversation history. Turn off to rewind immediately when you pick a turn."@, seq!["rewind"@, "confirm"@, "undo"@, "history"@, "ask"@, "prompt"@], SettingOwner::Shared, false), ("Use plain readline-style input instead of vim keys in the prompt. Experimental."@, seq!["simple"@, "ascii"@, "minimal"@, "plain"@, "vim"@, "readline"@, "experimental"@, "editor"@, "input"@, "prompt"@], SettingOwner::Shared, false), ("Enable vim keys (h/j/k/l, gg/G, /) for navigating the scrollback. Does not affect the input prompt."@, seq!["vim"@, "scrollback"@, "navigation"@, "hjkl"@, "keys"@, "keybindings"@, "scroll"@], SettingOwner::Shell, false), ("Color theme for the pager UI."@, seq!["theme"@, "color"@, "colour"@, "palette"@, "appearance"@, "dark"@, "light"@], SettingOwner::Shared, false), ("Theme to use when the system is in dark mode (only with theme=auto)."@, seq!["auto"@, "dark"@, "theme"@, "system"@, "appearance"@, "night"@], SettingOwner::Shared, false), ("Theme to use when the system is in light mode (only with theme=auto)."@, seq!["auto"@, "light"@, "theme"@, "system"@, "appearance"@, "day"@], SettingOwner::Shared, false)]
}

/// Descriptions, search keywords, owners and restart flags of the settings
/// built by `catalog_part_2`.
pub open spec fn spec_catalog_texts_2(on_windows: bool) -> Seq<(Seq<char>, Seq<Seq<char>>, SettingOwner, bool)> {
    seq![("How ```mermaid code blocks are shown: auto/on add a clickable row to open the rendered diagram; off shows the raw source."@, seq!["mermaid"@, "diagram"@, "diagrams"@, "render"@, "flowchart"@, "graph"@, "chart"@], SettingOwner::Shell, false), ("Default uses the agent's built-in behavior; Ask prompts for each tool action; Auto uses an LLM classifier for risky tools; Always approve grants all permissions automatically."@, seq!["permission"@, "approve"@, "yolo"@, "agent"@, "always"@, "ask"@, "auto"@, "classifier"@, "tool"@, "danger"@], SettingOwner::Shell, false), ("Show \"Always allow\" options in permission prompts so you can stop being re-asked about a specific command or tool. Applies in ask and auto; Always-approve still skips all prompts. Restart required."@, seq!["permission"@, "approve"@, "approval"@, "always"@, "allow"@, "remember"@, "tool"@, "command"@, "kubectl"@, "ask"@, "again"@, "whitelist"@], SettingOwner::Shell, true), ("When on, Enter inserts a newline and Shift+Enter sends. Resets each session."@, seq!["multiline"@, "newline"@, "input"@, "editor"@, "enter"@], SettingOwner::Pager, false), ("Model used for new sessions. Changing this also switches the active session. Pick `(no override)` to clear."@, seq!["model"@, "default"@, "agent"@, "llm"@, "grok"@, "switch"@], SettingOwner::Shell, false), ("Column width budget for the agent's thoughts panel (40-500, default 120)."@, seq!["thoughts"@, "width"@, "max"@, "thinking"@, "panel"@, "reasoning"@, "columns"@], SettingOwner::Shared, false), ("Show agent thinking/reasoning blocks in the scrollback while streaming."@, seq!["thinking"@, "reasoning"@, "thoughts"@, "blocks"@, "show"@, "hide"@], SettingOwner::Shell, false), ("Color the normal prompt border based on the selected thinking/reasoning level."@, seq!["thinking"@, "reasoning"@, "effort"@, "prompt"@, "border"@, "color"@, "level"@], SettingOwner::Shell, false), ("After each turn, predict your likely next prompt and show it as ghost text in the input (Tab to accept). Uses a small model call per turn."@, seq!["prompt"@, "suggestion"@, "suggestions"@, "autocomplete"@, "ghost"@, "tab"@, "predict"@, "next"@], SettingOwner::Shell, false), ("Cursor in the input box: native, block, underline, bar, or one single-column character."@, seq!["prompt"@, "input"@, "cursor"@, "caret"@, "symbol"@, "glyph"@, "block"@, "bar"@], SettingOwner::Pager, false), ("Keep manually folded blocks as-is while streaming and stop auto-scroll when expanding a block. Experimental."@, seq!["fold"@, "pin"@, "collapse"@, "expand"@, "thinking"@, "follow"@, "scroll"@], SettingOwner::Pager, false), ("Fold consecutive read/search/list tool calls and subagent rows into one summary row; finished thoughts fold into the group too."@, seq!["group"@, "tool"@, "verbs"@, "fold"@, "collapse"@, "read"@, "search"@, "summary"@, "thinking"@, "subagent"@], SettingOwner::Shell, false), ("Show edits as one-line +N/-M diffstat summaries and merge back-to-back edits to the same file into one block; expand a row to see the diffs."@, seq!["edit"@, "edits"@, "diff"@, "diffstat"@, "collapse"@, "collapsed"@, "summary"@, "expand"@, "one-line"@, "merge"@, "coalesce"@], SettingOwner::Shell, false), ("Show old and new edit content in parallel columns when the terminal is wide enough; narrow layouts stay unified."@, seq!["edit"@, "diff"@, "side-by-side"@, "split"@, "parallel"@, "old"@, "new"@, "columns"@, "pi"@], SettingOwner::Pager, false)]
}

/// Descriptions, search keywords, owners and restart flags of the settings
/// built by `catalog_part_3`.
pub open spec fn spec_catalog_texts_3(on_windows: bool) -> Seq<(Seq<char>, Seq<Seq<char>>, SettingOwner, bool)> {
    seq![("Choose whether Ctrl+O expands write/edit diffs or all tool output in grok-pi."@, seq!["ctrl+o"@, "tool"@, "expand"@, "collapse"@, "write"@, "edit"@, "all"@], SettingOwner::Shell, false), ("Choose whether Bash/run cards show Task Name, command, or both."@, seq!["bash"@, "run"@, "command"@, "task"@, "name"@, "header"@, "batch"@, "pi"@], SettingOwner::Shell, false), ("Display Bash commands and Eval code with readable line breaks in permission, run-detail, and Eval popup views. Executed inputs are unchanged. Default off."@, seq!["bash"@, "eval"@, "command"@, "code"@, "format"@, "pretty"@, "operator"@, "line"@, "break"@, "permission"@, "popup"@, "pi"@], SettingOwner::Shell, false), ("Show a bounded hover popup with expanded Write and Edit details from collapsed tool rows. Default on."@, seq!["write"@, "edit"@, "popup"@, "hover"@, "tool"@, "diff"@, "preview"@, "details"@], SettingOwner::Shell, false), ("On high-refresh displays, the TUI will stream/scroll faster to match the display. Off keeps the classic ~60 Hz cadence. Restart required."@, seq!["display"@, "refresh"@, "rate"@, "hz"@, "cadence"@, "fps"@, "smooth"@, "scroll"@, "stream"@, "high"@, "120"@, "144"@], SettingOwner::Shell, true), ("Mouse-wheel and trackpad scroll speed multiplier (1-100). Higher = faster."@, seq!["scroll"@, "speed"@, "mouse"@, "wheel"@, "trackpad"@, "fast"@, "slow"@], SettingOwner::Shell, false), ("Force wheel or trackpad scroll behavior when auto-detection misreads your device."@, seq!["scroll"@, "mode"@, "wheel"@, "trackpad"@, "mouse"@, "detect"@, "force"@, "input"@], SettingOwner::Shell, false), ("Lines per scroll tick for both wheel and trackpad (1-10). Until set, each terminal's own profile applies."@, seq!["scroll"@, "lines"@, "tick"@, "notch"@, "wheel"@, "trackpad"@, "mouse"@], SettingOwner::Shell, false), ("Reverse vertical scroll direction (natural scrolling)."@, seq!["invert"@, "scroll"@, "natural"@, "direction"@, "reverse"@, "mouse"@, "trackpad"@], SettingOwner::Shell, false), ("How long in-app selection stays on screen and what double-click does (fold vs. select & copy a word). For your terminal or multiplexer's own selection, hold Shift while dragging (native copy)."@, seq!["selection"@, "drag"@, "copy"@, "flash"@, "hold"@, "shift"@, "native"@, "mouse"@, "tmux"@, "double"@, "double-click"@, "word"@, "terminal"@], SettingOwner::Shell, false), ("Opt-in to provide SpaceXAI the ability to retain and train on coding data, e.g., prompts, traces, & metrics, for training and debugging purposes. We may still collect simple user metrics, e.g. how many times you use the product or a feature."@, seq!["privacy"@, "data"@, "sharing"@, "coding"@, "retention"@, "training"@, "opt-in"@, "opt-out"@], SettingOwner::Shell, false), ("Which row the cursor preselects on permission prompts."@, seq!["permission"@, "approval"@, "cursor"@, "preselect"@, "default"@, "sticky"@, "last"@, "used"@, "yes"@, "no"@, "reject"@, "allow"@], SettingOwner::Shell, false), ("When on, the ask_user_question tool will time out after a set period of time instead of infinitely blocking."@, seq!["ask"@, "question"@, "questionnaire"@, "timeout"@, "ask_user_question"@, "block"@, "wait"@, "forever"@, "tool"@], SettingOwner::Shell, true), ("When on, the agent summarises a plan before running tools or making edits."@, seq!["plan"@, "mode"@, "agent"@, "summary"@, "approval"@, "review"@, "session"@], SettingOwner::Pager, false)]
}

/// Descriptions, search keywords, owners and restart flags of the settings
/// built by `catalog_part_4`.
pub open spec fn spec_catalog_texts_4(on_windows: bool) -> Seq<(Seq<char>, Seq<Seq<char>>, SettingOwner, bool)> {
    seq![("Show the tip-of-the-day banner on startup. Restart required."@, seq!["tips"@, "tip"@, "show"@, "banner"@, "welcome"@, "startup"@, "launch"@], SettingOwner::Shell, true), ("Show brief, in-context keyboard hints as you work; toggle each one individually."@, seq!["contextual"@, "hints"@, "tips"@, "undo"@, "plan"@, "nudge"@, "image"@, "clipboard"@, "ephemeral"@, "send"@, "interject"@, "queue"@, "ctrl+z"@, "shift+tab"@, "ctrl+z"@, "draft"@, "wipe"@, "mode"@, "shift+tab"@, "paste"@, "input"@, "enter"@, "follow-up"@, "small"@, "screen"@, "compact"@, "ssh"@, "wrap"@, "remote"@], SettingOwner::Shell, false), ("Automatically download and install pager updates on startup. Restart required."@, seq!["auto"@, "update"@, "updates"@, "upgrade"@, "version"@, "install"@, "channel"@], SettingOwner::Shell, true), ("Which file changes the agent tracks as hunks. Off disables tracking (and LOC stats) entirely. Restart required."@, seq!["hunk"@, "tracker"@, "tracking"@, "diff"@, "changes"@, "git"@, "loc"@, "off"@, "disable"@], SettingOwner::Shell, true), ("Enable the Ctrl+Space / F8 shortcut for voice dictation. When off, the keys are ignored; /voice still starts dictation."@, seq!["voice"@, "dictation"@, "mic"@, "microphone"@, "speech"@, "stt"@, "keybinding"@, "hotkey"@, "ctrl+space"@, "f8"@, "disable"@], SettingOwner::Shell, false), ("How the voice chord (Ctrl+Space / F8) behaves: Toggle (press to start/stop) or Hold to talk (hold to record, release to stop; needs a Kitty-protocol terminal)."@, seq!["voice"@, "dictation"@, "dictate"@, "mic"@, "microphone"@, "speech"@, "stt"@, "toggle"@, "hold"@, "ctrl+space"@, "f8"@, "push-to-talk"@], SettingOwner::Shell, false), ("Speech-to-text language for voice dictation (Grok STT). English by default; System uses your locale when supported. Sets formatting language for numbers and currencies."@, seq!["voice"@, "language"@, "locale"@, "dictation"@, "stt"@, "speech"@], SettingOwner::Shell, false), ("Remind you that Ctrl+Z restores the prompt after you clear it."@, seq!["undo"@, "ctrl+z"@, "draft"@, "wipe"@, "hint"@], SettingOwner::Shell, false), (if on_windows { "Suggest plan mode (Ctrl+Alt+T or /plan-mode) when your prompt looks like a planning request."@ } else { "Suggest plan mode (Ctrl+Shift+T or /plan-mode) when your prompt looks like a planning request."@ }, seq!["plan"@, "mode"@, "nudge"@, "ctrl+shift+t"@, "ctrl+alt+t"@, "plan-mode"@, "hint"@], SettingOwner::Shell, false), ("Offer to paste an image when one is on the clipboard and the model accepts images."@, seq!["image"@, "clipboard"@, "paste"@, "input"@, "hint"@], SettingOwner::Shell, false), ("After you queue a follow-up mid-turn, remind you that Enter on an empty prompt sends the top queued item now."@, seq!["send"@, "now"@, "interject"@, "queue"@, "follow-up"@, "enter"@, "empty"@, "hint"@], SettingOwner::Shell, false), ("Suggest /compact-mode once per run when the terminal is short on rows."@, seq!["small"@, "screen"@, "compact"@, "space"@, "rows"@, "hint"@], SettingOwner::Shell, false), ("After double-clicking conversation text while Text selection is fold/nav, remind you that Word select lives in Settings."@, seq!["word"@, "select"@, "double"@, "double-click"@, "click"@, "fold"@, "selection"@, "settings"@, "hint"@], SettingOwner::Shell, false), ("Show a `/doctor` tip when an SSH session is not using `grok wrap`."@, seq!["ssh"@, "wrap"@, "remote"@, "clipboard"@, "restore"@, "startup"@, "hint"@], SettingOwner::Shell, false)]
}

/// Descriptions, search keywords, owners and restart flags of the settings
/// built by `catalog_part_5`.
pub open spec fn spec_catalog_texts_5(on_windows: bool) -> Seq<(Seq<char>, Seq<Seq<char>>, SettingOwner, bool)> {
    if on_windows {
        seq![("Model used for the secondary agent when forking. Pick `(no override)` to clear."@, seq!["fork"@, "secondary"@, "model"@, "agent"@, "subagent"@, "branch"@, "models"@], SettingOwner::Shell, false), ("Enable grok-pi's enhanced Bash bridge for the next session. Off restores stock Pi Bash; Eval remains independent."@, seq!["pi"@, "bash"@, "bridge"@, "extension"@, "runtime"@], SettingOwner::Shell, true), ("Choose the Eval runtime for the next grok-pi session. v1 is the legacy Python + JavaScript runtime; v2 uses the host-RPC runtime and the separate language selector."@, seq!["pi"@, "eval"@, "v1"@, "v2"@, "javascript"@, "python"@, "runtime"@, "bridge"@], SettingOwner::Shell, true), ("Choose which language(s) Eval Bridge v2 exposes next session: js, py, or all."@, seq!["pi"@, "eval"@, "v2"@, "language"@, "javascript"@, "python"@, "all"@], SettingOwner::Shell, true), ("Choose the live Eval v2 presentation: effects hides orchestration source; legacy shows source and results."@, seq!["pi"@, "eval"@, "v2"@, "display"@, "effects"@, "legacy"@, "source"@], SettingOwner::Shell, false), ("Force Eval Bridge v2 and hide every other Pi tool for the next grok-pi session. Explicit CLI --tools/--no-tools still takes precedence."@, seq!["pi"@, "eval"@, "v2"@, "only"@, "isolate"@, "tools"@, "hide"@, "sandbox"@], SettingOwner::Shell, true), ("Choose the Pi built-in tools for the next grok-pi session. Existing extension and custom tools stay enabled."@, seq!["pi"@, "tools"@, "read"@, "bash"@, "powershell"@, "pwsh"@, "edit"@, "write"@, "grep"@, "find"@, "ls"@, "eval"@, "python"@, "javascript"@, "search"@], SettingOwner::Shell, true), ("Allow Pi to read files."@, seq!["pi"@, "tool"@, "read"@], SettingOwner::Shell, true), ("Allow Pi to run shell commands."@, seq!["pi"@, "tool"@, "bash"@, "shell"@], SettingOwner::Shell, true), ("Allow Pi to run PowerShell commands. PowerShell 7 (pwsh) is preferred, with Windows PowerShell as fallback."@, seq!["pi"@, "tool"@, "powershell"@, "pwsh"@, "windows"@, "shell"@], SettingOwner::Shell, true), ("Allow Pi to patch existing files."@, seq!["pi"@, "tool"@, "edit"@], SettingOwner::Shell, true), ("Allow Pi to create or overwrite files."@, seq!["pi"@, "tool"@, "write"@], SettingOwner::Shell, true), ("Allow Pi to search file contents with ripgrep."@, seq!["pi"@, "tool"@, "grep"@, "search"@, "ripgrep"@], SettingOwner::Shell, true), ("Allow Pi to locate files by glob."@, seq!["pi"@, "tool"@, "find"@, "files"@, "glob"@], SettingOwner::Shell, true)]
    } else {
        seq![("Model used for the secondary agent when forking. Pick `(no override)` to clear."@, seq!["fork"@, "secondary"@, "model"@, "agent"@, "subagent"@, "branch"@, "models"@], SettingOwner::Shell, false), ("Enable grok-pi's enhanced Bash bridge for the next session. Off restores stock Pi Bash; Eval remains independent."@, seq!["pi"@, "bash"@, "bridge"@, "extension"@, "runtime"@], SettingOwner::Shell, true), ("Choose the Eval runtime for the next grok-pi session. v1 is the legacy Python + JavaScript runtime; v2 uses the host-RPC runtime and the separate language selector."@, seq!["pi"@, "eval"@, "v1"@, "v2"@, "javascript"@, "python"@, "runtime"@, "bridge"@], SettingOwner::Shell, true), ("Choose which language(s) Eval Bridge v2 exposes next session: js, py, or all."@, seq!["pi"@, "eval"@, "v2"@, "language"@, "javascript"@, "python"@, "all"@], SettingOwner::Shell, true), ("Choose the live Eval v2 presentation: effects hides orchestration source; legacy shows source and results."@, seq!["pi"@, "eval"@, "v2"@, "display"@, "effects"@, "legacy"@, "source"@], SettingOwner::Shell, false), ("Force Eval Bridge v2 and hide every other Pi tool for the next grok-pi session. Explicit CLI --tools/--no-tools still takes precedence."@, seq!["pi"@, "eval"@, "v2"@, "only"@, "isolate"@, "tools"@, "hide"@, "sandbox"@], SettingOwner::Shell, true), ("Choose the Pi built-in tools for the next grok-pi session. Existing extension and custom tools stay enabled."@, seq!["pi"@, "tools"@, "read"@, "bash"@, "powershell"@, "pwsh"@, "edit"@, "write"@, "grep"@, "find"@, "ls"@, "eval"@, "python"@, "javascript"@, "search"@], SettingOwner::Shell, true), ("Allow Pi to read files."@, seq!["pi"@, "tool"@, "read"@], SettingOwner::Shell, true), ("Allow Pi to run shell commands."@, seq!["pi"@, "tool"@, "bash"@, "shell"@], SettingOwner::Shell, true), ("Allow Pi to patch existing files."@, seq!["pi"@, "tool"@, "edit"@], SettingOwner::Shell, true), ("Allow Pi to create or overwrite files."@, seq!["pi"@, "tool"@, "write"@], SettingOwner::Shell, true), ("Allow Pi to search file contents with ripgrep."@, seq!["pi"@, "tool"@, "grep"@, "search"@, "ripgrep"@], SettingOwner::Shell, true), ("Allow Pi to locate files by glob."@, seq!["pi"@, "tool"@, "find"@, "files"@, "glob"@], SettingOwner::Shell, true)]
    }
}

/// Descriptions, search keywords, owners and restart flags of the settings
/// built by `catalog_part_6`.
pub open spec fn spec_catalog_texts_6(on_windows: bool) -> Seq<(Seq<char>, Seq<Seq<char>>, SettingOwner, bool)> {
    seq![("Allow Pi to list directory contents."@, seq!["pi"@, "tool"@, "ls"@, "list"@, "directory"@], SettingOwner::Shell, true), ("Expose Pi's Eval tool. The grok-pi Eval bridge version is configured separately by Eval bridge version."@, seq!["pi"@, "tool"@, "eval"@, "python"@, "javascript"@, "kernel"@, "repl"@], SettingOwner::Shell, true), ("Use Pi Session Manager (must be running) for Pi /resume: SQLite catalog, Ctrl+F full-text search, and message preview. Off = Pi JSONL list only."@, seq!["pi"@, "psm"@, "resume"@, "session"@, "sqlite"@, "index"@], SettingOwner::Shell, false), ("Track write/edit preimages and allow file-only rollback from SessionTree. Takes effect for new grok-pi sessions."@, seq!["pi"@, "tree"@, "rollback"@, "rewind"@, "checkpoint"@, "file"@, "undo"@], SettingOwner::Shell, true), ("Skip the \"Summarize branch?\" prompt when navigating the session tree. When on, Enter navigates immediately without summarization."@, seq!["pi"@, "tree"@, "summary"@, "summarize"@, "branch"@, "prompt"@, "navigate"@, "skip"@], SettingOwner::Shell, false), ("Notify you when a native Q&A question arrives while grok-pi is unfocused. Applies immediately; default on."@, seq!["pi"@, "qa"@, "q&a"@, "ask"@, "question"@, "notification"@, "desktop"@, "focus"@, "unfocused"@], SettingOwner::Shell, false), ("Show cache hit graph/stats (keys 1/2/3/s/e) inside the Context modal. Matches pi-cache-graph; default on."@, seq!["pi"@, "cache"@, "graph"@, "context"@, "stats"@, "hit"@], SettingOwner::Shell, false), ("Load grok-pi's embedded configuration skill by default so the agent can explain F2 settings, config.toml, skills, themes, and feature flags. Restart required."@, seq!["pi"@, "grok-pi"@, "config"@, "configuration"@, "skill"@, "skills"@, "f2"@, "settings"@, "docs"@, "guide"@, "default"@, "disable"@], SettingOwner::Shell, true), ("Render grok-pi user prompts with the agent markdown renderer (expanded, user chrome preserved). Off restores classic collapsible plain-text prompts. Default on."@, seq!["pi"@, "user"@, "markdown"@, "prompt"@, "message"@], SettingOwner::Shell, false), ("Include hidden/dotfile entries in plain `@` file search while still respecting ignore rules, matching pi-main's fd `--hidden` behavior. `@!` additionally reveals gitignored project files while `.git`, `node_modules`, and common dependency/package stores remain excluded. Default on."@, seq!["pi"@, "at"@, "file"@, "search"@, "hidden"@, "dotfile"@, "gitignore"@], SettingOwner::Shell, false), ("When on, `/new` keeps the current agent tab alive so the dashboard can switch back to it (Pi re-loads its session on demand). Default off: `/new` drops the current agent tab and starts fresh — other idle agent tabs in the dashboard are left untouched."@, seq!["pi"@, "new"@, "session"@, "multi"@, "agent"@, "dashboard"@, "replace"@, "keep"@, "preserve"@], SettingOwner::Shell, false), ("When expanded, show raw_input JSON on all Other/generic tool cards (not just fabric_exec). Collapsed stays name-only. Default off."@, seq!["tool"@, "args"@, "arguments"@, "raw_input"@, "other"@, "fabric"@, "fabric_exec"@, "json"@], SettingOwner::Shell, false), ("Default /review-* left pane to a cwd-relative tree (compacts Java package chains). Off = flat basenames. Press t in the modal to toggle; persists here."@, seq!["review"@, "tree"@, "files"@, "code review"@, "package"@, "java"@], SettingOwner::Shell, false), ("Include session read tool ops in /review-* file list (right pane reuses read viewer, not diff). Off = edit/write only. Press r in the modal to toggle; persists here."@, seq!["review"@, "read"@, "files"@, "code review"@, "filter"@], SettingOwner::Shell, false)]
}

/// Descriptions, search keywords, owners and restart flags of the settings
/// built by `catalog_part_7`.
pub open spec fn spec_catalog_texts_7(on_windows: bool) -> Seq<(Seq<char>, Seq<Seq<char>>, SettingOwner, bool)> {
    seq![("Review and enable Pi extensions, skills, prompts, and themes. Project resources require Pi project trust."@, seq!["pi"@, "config"@, "extensions"@, "skills"@, "prompts"@, "themes"@, "resources"@], SettingOwner::Shell, false), ("Show an automatic \"where was I\" recap when you return after being away. Manual /recap still works when the agent advertises sessionRecap."@, seq!["recap"@, "session"@, "summary"@, "away"@, "return"@, "auto"@], SettingOwner::Shell, false), ("Allow Recap to include an optional Markdown Mermaid diagram. The diagram is rendered when the recap is expanded."@, seq!["recap"@, "mermaid"@, "diagram"@, "summary"@, "graph"@], SettingOwner::Shell, false), ("Show OSC 9;4 progress indicators in the terminal tab bar."@, seq!["progress"@, "terminal"@, "tab"@, "osc"@, "9;4"@, "indicator"@], SettingOwner::Shell, false), ("Show keyboard hints below experimental Remote TUI frames."@, seq!["remote"@, "tui"@, "footer"@, "keyboard"@, "hints"@], SettingOwner::Shell, false), ("Primary + fallback models for session recap (/recap and auto away-recap). Empty slots use the active session model or skip."@, seq!["recap"@, "model"@, "summary"@, "session"@, "models"@, "fallback"@], SettingOwner::Shell, false), ("Primary + fallback models for /btw side questions. Empty slots use the active session model or skip."@, seq!["btw"@, "model"@, "side"@, "question"@, "fallback"@], SettingOwner::Shell, false), ("Primary recap model. Empty = active session model."@, seq!["recap"@, "model"@, "summary"@, "session"@, "models"@], SettingOwner::Shell, false), ("Tried if primary fails. Empty = skip."@, seq!["recap"@, "model"@, "fallback"@, "summary"@], SettingOwner::Shell, false), ("Tried if primary and fallback 2 fail. Empty = skip."@, seq!["recap"@, "model"@, "fallback"@, "summary"@], SettingOwner::Shell, false), ("Primary /btw model. Empty = active session model."@, seq!["btw"@, "model"@, "side"@, "question"@], SettingOwner::Shell, false), ("Tried if primary fails. Empty = skip."@, seq!["btw"@, "model"@, "fallback"@], SettingOwner::Shell, false), ("Tried if primary and fallback 2 fail. Empty = skip."@, seq!["btw"@, "model"@, "fallback"@], SettingOwner::Shell, false)]
}

/// Descriptions, search keywords, owners and restart flags of the whole
/// catalog, in declaration order.
pub open spec fn spec_catalog_texts(on_windows: bool) -> Seq<(Seq<char>, Seq<Seq<char>>, SettingOwner, bool)> {
    spec_catalog_texts_1(on_windows) + spec_catalog_texts_2(on_windows) + spec_catalog_texts_3(on_windows) + spec_catalog_texts_4(on_windows) + spec_catalog_texts_5(on_windows) + spec_catalog_texts_6(on_windows) + spec_catalog_texts_7(on_windows)
}

/// The catalog, built from the `[ui]` defaults and the host defaults in
/// `env`: every setting in declaration order, under its category and
/// label, with its kind, default, range or choices, visibility flags,
/// description, search keywords, owner and restart flag, each well-formed.
pub fn default_settings(env: &CatalogDefaults) -> (r: Vec<SettingMeta>)
    ensures
        heads_of(r@) == spec_catalog_heads(env.on_windows),
        kinds_of(r@) == spec_catalog_kinds(*env),
        texts_of(r@) == spec_catalog_texts(env.on_windows),
        keys_of(r@) == spec_catalog_keys(env.on_windows),
        forall|i: int| 0 <= i < r@.len() ==> (#[trigger] r@[i]).wf(),
{
    // Only the `[ui]` fields that the catalog reads matter here, and those
    // do not depend on the default model.
    let ui = UiConfig::new_default("", env.on_windows);
    let mut all: Vec<SettingMeta> = Vec::new();
    let mut part = catalog_part_1(&ui, env);
    let ghost before = all@;
    let ghost added = part@;
    all.append(&mut part);
    assert(heads_of(all@) =~= heads_of(before) + heads_of(added));
    assert(heads_of(all@) =~= spec_catalog_part_1());
    assert(kinds_of(all@) =~= kinds_of(before) + kinds_of(added));
    assert(kinds_of(all@) =~= spec_catalog_kinds_1(*env));
    assert(texts_of(all@) =~= texts_of(before) + texts_of(added));
    assert(texts_of(all@) =~= spec_catalog_texts_1(env.on_windows));
    assert forall|i: int| 0 <= i < all@.len() implies (#[trigger] all@[i]).wf() by {
        if i >= before.len() {
            assert(all@[i] == added[i - before.len()]);
        }
    }
    let mut part = catalog_part_2(&ui, env);
    let ghost before = all@;
    let ghost added = part@;
    all.append(&mut part);
    assert(heads_of(all@) =~= heads_of(before) + heads_of(added));
    assert(heads_of(all@) =~= spec_catalog_part_1() + spec_catalog_part_2());
    assert(kinds_of(all@) =~= kinds_of(before) + kinds_of(added));
    assert(kinds_of(all@) =~= spec_catalog_kinds_1(*env) + spec_catalog_kinds_2(*env));
    assert(texts_of(all@) =~= texts_of(before) + texts_of(added));
    assert(texts_of(all@) =~= spec_catalog_texts_1(env.on_windows) + spec_catalog_texts_2(env.on_windows));
    assert forall|i: int| 0 <= i < all@.len() implies (#[trigger] all@[i]).wf() by {
        if i >= before.len() {
            assert(all@[i] == added[i - before.len()]);
        }
    }
    let mut part = catalog_part_3(&ui, env);
    let ghost before = all@;
    let ghost added = part@;
    all.append(&mut part);
    assert(heads_of(all@) =~= heads_of(before) + heads_of(added));
    assert(heads_of(all@) =~= spec_catalog_part_1() + spec_catalog_part_2() + spec_catalog_part_3());
    assert(kinds_of(all@) =~= kinds_of(before) + kinds_of(added));
    assert(kinds_of(all@) =~= spec_catalog_kinds_1(*env) + spec_catalog_kinds_2(*env) + spec_catalog_kinds_3(*env));
    assert(texts_of(all@) =~= texts_of(before) + texts_of(added));
    assert(texts_of(all@) =~= spec_catalog_texts_1(env.on_windows) + spec_catalog_texts_2(env.on_windows) + spec_catalog_texts_3(env.on_windows));
    assert forall|i: int| 0 <= i < all@.len() implies (#[trigger] all@[i]).wf() by {
        if i >= before.len() {
            assert(all@[i] == added[i - before.len()]);
        }
    }
    let mut part = catalog_part_4(&ui, env);
    let ghost before = all@;
    let ghost added = part@;
    all.append(&mut part);
    assert(heads_of(all@) =~= heads_of(before) + heads_of(added));
    assert(heads_of(all@) =~= spec_catalog_part_1() + spec_catalog_part_2() + spec_catalog_part_3() + spec_catalog_part_4());
    assert(kinds_of(all@) =~= kinds_of(before) + kinds_of(added));
    assert(kinds_of(all@) =~= spec_catalog_kinds_1(*env) + spec_catalog_kinds_2(*env) + spec_catalog_kinds_3(*env) + spec_catalog_kinds_4(*env));
    assert(texts_of(all@) =~= texts_of(before) + texts_of(added));
    assert(texts_of(all@) =~= spec_catalog_texts_1(env.on_windows) + spec_catalog_texts_2(env.on_windows) + spec_catalog_texts_3(env.on_windows) + spec_catalog_texts_4(env.on_windows));
    assert forall|i: int| 0 <= i < all@.len() implies (#[trigger] all@[i]).wf() by {
        if i >= before.len() {
            assert(all@[i] == added[i - before.len()]);
        }
    }
    let mut part = catalog_part_5(&ui, env);
    let ghost before = all@;
    let ghost added = part@;
    all.append(&mut part);
    assert(heads_of(all@) =~= heads_of(before) + heads_of(added));
    assert(heads_of(all@) =~= spec_catalog_part_1() + spec_catalog_part_2() + spec_catalog_part_3() + spec_catalog_part_4() + spec_catalog_part_5(env.on_windows));
    assert(kinds_of(all@) =~= kinds_of(before) + kinds_of(added));
    assert(kinds_of(all@) =~= spec_catalog_kinds_1(*env) + spec_catalog_kinds_2(*env) + spec_catalog_kinds_3(*env) + spec_catalog_kinds_4(*env) + spec_catalog_kinds_5(*env));
    assert(texts_of(all@) =~= texts_of(before) + texts_of(added));
    assert(texts_of(all@) =~= spec_catalog_texts_1(env.on_windows) + spec_catalog_texts_2(env.on_windows) + spec_catalog_texts_3(env.on_windows) + spec_catalog_texts_4(env.on_windows) + spec_catalog_texts_5(env.on_windows));
    assert forall|i: int| 0 <= i < all@.len() implies (#[trigger] all@[i]).wf() by {
        if i >= before.len() {
            assert(all@[i] == added[i - before.len()]);
        }
    }
    let mut part = catalog_part_6(&ui, env);
    let ghost before = all@;
    let ghost added = part@;
    all.append(&mut part);
    assert(heads_of(all@) =~= heads_of(before) + heads_of(added));
    assert(heads_of(all@) =~= spec_catalog_part_1() + spec_catalog_part_2() + spec_catalog_part_3() + spec_catalog_part_4() + spec_catalog_part_5(env.on_windows) + spec_catalog_part_6());
    assert(kinds_of(all@) =~= kinds_of(before) + kinds_of(added));
    assert(kinds_of(all@) =~= spec_catalog_kinds_1(*env) + spec_catalog_kinds_2(*env) + spec_catalog_kinds_3(*env) + spec_catalog_kinds_4(*env) + spec_catalog_kinds_5(*env) + spec_catalog_kinds_6(*env));
    assert(texts_of(all@) =~= texts_of(before) + texts_of(added));
    assert(texts_of(all@) =~= spec_catalog_texts_1(env.on_windows) + spec_catalog_texts_2(env.on_windows) + spec_catalog_texts_3(env.on_windows) + spec_catalog_texts_4(env.on_windows) + spec_catalog_texts_5(env.on_windows) + spec_catalog_texts_6(env.on_windows));
    assert forall|i: int| 0 <= i < all@.len() implies (#[trigger] all@[i]).wf() by {
        if i >= before.len() {
            assert(all@[i] == added[i - before.len()]);
        }
    }
    let mut part = catalog_part_7(&ui, env);
    let ghost before = all@;
    let ghost added = part@;
    all.append(&mut part);
    assert(heads_of(all@) =~= heads_of(before) + heads_of(added));
    assert(heads_of(all@) =~= spec_catalog_part_1() + spec_catalog_part_2() + spec_catalog_part_3() + spec_catalog_part_4() + spec_catalog_part_5(env.on_windows) + spec_catalog_part_6() + spec_catalog_part_7());
    assert(kinds_of(all@) =~= kinds_of(before) + kinds_of(added));
    assert(kinds_of(all@) =~= spec_catalog_kinds_1(*env) + spec_catalog_kinds_2(*env) + spec_catalog_kinds_3(*env) + spec_catalog_kinds_4(*env) + spec_catalog_kinds_5(*env) + spec_catalog_kinds_6(*env) + spec_catalog_kinds_7(*env));
    assert(texts_of(all@) =~= texts_of(before) + texts_of(added));
    assert(texts_of(all@) =~= spec_catalog_texts_1(env.on_windows) + spec_catalog_texts_2(env.on_windows) + spec_catalog_texts_3(env.on_windows) + spec_catalog_texts_4(env.on_windows) + spec_catalog_texts_5(env.on_windows) + spec_catalog_texts_6(env.on_windows) + spec_catalog_texts_7(env.on_windows));
    assert forall|i: int| 0 <= i < all@.len() implies (#[trigger] all@[i]).wf() by {
        if i >= before.len() {
            assert(all@[i] == added[i - before.len()]);
        }
    }
    assert(keys_of(all@) =~= spec_catalog_keys(env.on_windows));
    all
}

impl SettingsRegistry {
    /// The registry over the default catalog.
    pub fn defaults(env: &CatalogDefaults) -> (r: SettingsRegistry)
        ensures
            r.wf(),
            heads_of(r.entries@) == spec_catalog_heads(env.on_windows),
            kinds_of(r.entries@) == spec_catalog_kinds(*env),
            texts_of(r.entries@) == spec_catalog_texts(env.on_windows),
            keys_of(r.entries@) == spec_catalog_keys(env.on_windows),
    {
        SettingsRegistry::new(default_settings(env))
    }
}

} // verus!
