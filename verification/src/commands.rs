//! Actions that commands and the settings panel hand to the dispatcher, and
//! the shapes that slash commands answer with.
use vstd::prelude::*;
use crate::text::str_eq;

verus! {

#[derive(Debug, Clone, Copy, PartialEq, Eq, Structural)]
pub enum PlanModeKind {
    On,
    Off,
}

#[derive(Debug, Clone, Copy, PartialEq, Eq, Structural)]
pub enum PermissionModeKind {
    AlwaysApprove,
    Auto,
    Ask,
    Default,
}

#[derive(Debug, Clone, Copy, PartialEq, Eq, Structural)]
pub enum PiBuiltinTool {
    Read,
    Bash,
    PowerShell,
    Edit,
    Write,
    Grep,
    Find,
    Ls,
    Eval,
}

/// Reasoning effort levels, weakest first.
#[derive(Debug, Clone, Copy, PartialEq, Eq, Structural)]
pub enum ReasoningEffort {
    Low,
    Medium,
    High,
    Xhigh,
}

/// Header content for Bash/run tool cards.
#[derive(Debug, Clone, Copy, PartialEq, Eq, Structural)]
pub enum ExecuteHeaderContent {
    CommandOnly,
    TaskName,
    TaskNameAndCommand,
}

/// How mermaid code blocks render.
#[derive(Debug, Clone, Copy, PartialEq, Eq, Structural)]
pub enum RenderMermaid {
    Auto,
    On,
    Off,
}

/// In-app drag selection highlight.
#[derive(Debug, Clone, Copy, PartialEq, Eq, Structural)]
pub enum TextSelection {
    Flash,
    Hold,
    WordSelect,
}

/// Scroll input classification.
#[derive(Debug, Clone, Copy, PartialEq, Eq, Structural)]
pub enum ScrollMode {
    Auto,
    Wheel,
    Trackpad,
}

impl ExecuteHeaderContent {
    pub open spec fn spec_canonical(&self) -> Seq<char> {
        match self {
            ExecuteHeaderContent::CommandOnly => "command_only"@,
            ExecuteHeaderContent::TaskName => "task_name"@,
            ExecuteHeaderContent::TaskNameAndCommand => "task_name_and_command"@,
        }
    }

    /// Name stored in the config file.
    pub fn as_canonical(&self) -> (r: &'static str)
        ensures
            r@ == self.spec_canonical(),
    {
        match self {
            ExecuteHeaderContent::CommandOnly => "command_only",
            ExecuteHeaderContent::TaskName => "task_name",
            ExecuteHeaderContent::TaskNameAndCommand => "task_name_and_command",
        }
    }

    /// The header content named `s`, if any.
    pub fn from_canonical(s: &str) -> (r: Option<ExecuteHeaderContent>)
        ensures
            match r {
                Some(m) => m.spec_canonical() == s@,
                None => s@ != "command_only"@ && s@ != "task_name"@ && s@ != "task_name_and_command"@,
            },
    {
        if str_eq(s, "command_only") {
            Some(ExecuteHeaderContent::CommandOnly)
        } else if str_eq(s, "task_name") {
            Some(ExecuteHeaderContent::TaskName)
        } else if str_eq(s, "task_name_and_command") {
            Some(ExecuteHeaderContent::TaskNameAndCommand)
        } else {
            None
        }
    }
}
impl RenderMermaid {
    pub open spec fn spec_canonical(&self) -> Seq<char> {
        match self {
            RenderMermaid::Auto => "auto"@,
            RenderMermaid::On => "on"@,
            RenderMermaid::Off => "off"@,
        }
    }

    /// Name stored in the config file.
    pub fn as_canonical(&self) -> (r: &'static str)
        ensures
            r@ == self.spec_canonical(),
    {
        match self {
            RenderMermaid::Auto => "auto",
            RenderMermaid::On => "on",
            RenderMermaid::Off => "off",
        }
    }

    /// The rendering named `s`, if any.
    pub fn from_canonical(s: &str) -> (r: Option<RenderMermaid>)
        ensures
            match r {
                Some(m) => m.spec_canonical() == s@,
                None => s@ != "auto"@ && s@ != "on"@ && s@ != "off"@,
            },
    {
        if str_eq(s, "auto") {
            Some(RenderMermaid::Auto)
        } else if str_eq(s, "on") {
            Some(RenderMermaid::On)
        } else if str_eq(s, "off") {
            Some(RenderMermaid::Off)
        } else {
            None
        }
    }
}
impl TextSelection {
    pub open spec fn spec_canonical(&self) -> Seq<char> {
        match self {
            TextSelection::Flash => "flash"@,
            TextSelection::Hold => "hold"@,
            TextSelection::WordSelect => "word_select"@,
        }
    }

    /// Name stored in the config file.
    pub fn as_canonical(&self) -> (r: &'static str)
        ensures
            r@ == self.spec_canonical(),
    {
        match self {
            TextSelection::Flash => "flash",
            TextSelection::Hold => "hold",
            TextSelection::WordSelect => "word_select",
        }
    }

    /// The selection behavior named `s`, if any.
    pub fn from_canonical(s: &str) -> (r: Option<TextSelection>)
        ensures
            match r {
                Some(m) => m.spec_canonical() == s@,
                None => s@ != "flash"@ && s@ != "hold"@ && s@ != "word_select"@,
            },
    {
        if str_eq(s, "flash") {
            Some(TextSelection::Flash)
        } else if str_eq(s, "hold") {
            Some(TextSelection::Hold)
        } else if str_eq(s, "word_select") {
            Some(TextSelection::WordSelect)
        } else {
            None
        }
    }
}
impl ScrollMode {
    pub open spec fn spec_canonical(&self) -> Seq<char> {
        match self {
            ScrollMode::Auto => "auto"@,
            ScrollMode::Wheel => "wheel"@,
            ScrollMode::Trackpad => "trackpad"@,
        }
    }

    /// Name stored in the config file.
    pub fn as_canonical(&self) -> (r: &'static str)
        ensures
            r@ == self.spec_canonical(),
    {
        match self {
            ScrollMode::Auto => "auto",
            ScrollMode::Wheel => "wheel",
            ScrollMode::Trackpad => "trackpad",
        }
    }

    /// The scroll mode named `s`, if any.
    pub fn from_canonical(s: &str) -> (r: Option<ScrollMode>)
        ensures
            match r {
                Some(m) => m.spec_canonical() == s@,
                None => s@ != "auto"@ && s@ != "wheel"@ && s@ != "trackpad"@,
            },
    {
        if str_eq(s, "auto") {
            Some(ScrollMode::Auto)
        } else if str_eq(s, "wheel") {
            Some(ScrollMode::Wheel)
        } else if str_eq(s, "trackpad") {
            Some(ScrollMode::Trackpad)
        } else {
            None
        }
    }
}
/// A typed request for the dispatcher.
#[derive(Debug, Clone)]
pub enum Action {
    OpenModelPicker,
    NextModel,
    SetDefaultModel(String),
    ClearDefaultModel,
    SwitchModel { model_id: String, effort: Option<ReasoningEffort> },
    SetPlanMode(PlanModeKind),
    OpenPiConfig,
    OpenSideModelPicker { slot_key: String },
    SetHostFeatureBool { key: String, enabled: bool },
    SetCompactMode(bool),
    SetTimestamps(bool),
    SetTimeline(bool),
    SetPiBuiltinTool { tool: PiBuiltinTool, enabled: bool },
    SetPiBash(bool),
    SetPiEvalV2Only(bool),
    SetPsmResumeIndex(bool),
    SetPiTreeFileRollback(bool),
    SetPiTreeSkipSummaryPrompt(bool),
    SetPiAskUserQuestionNotifications(bool),
    SetPiCacheGraph(bool),
    SetPiConfigSkill(bool),
    SetPiUserMarkdown(bool),
    SetPiAtSearchHidden(bool),
    SetPiKeepMultiAgent(bool),
    SetPiBashCommandFormat(bool),
    SetWriteEditHoverPopups(bool),
    SetShowOtherToolArgs(bool),
    SetReviewFileTree(bool),
    SetReviewIncludeReads(bool),
    SetSimpleMode(bool),
    SetContextualHintUndo(bool),
    SetContextualHintPlanMode(bool),
    SetContextualHintImageInput(bool),
    SetContextualHintSendNow(bool),
    SetContextualHintSmallScreen(bool),
    SetContextualHintWordSelect(bool),
    SetContextualHintSshWrap(bool),
    SetMultilineMode(bool),
    SetVimMode(bool),
    SetSessionRecap(bool),
    SetRecapMermaid(bool),
    SetProgressBar(bool),
    SetRemoteTuiFooter(bool),
    SetVoiceKeybindEnabled(bool),
    SetRememberToolApprovals(bool),
    SetAskUserQuestionTimeoutEnabled(bool),
    SetShowThinkingBlocks(bool),
    SetThinkingBorderColors(bool),
    SetGroupToolVerbs(bool),
    SetCollapsedEditBlocks(bool),
    SetSideBySideEdit(bool),
    SetPromptSuggestions(bool),
    SetRespectManualFolds(bool),
    SetPageFlipOnSend(bool),
    SetConfirmBeforeRewind(bool),
    SetCombineQueuedPrompts(bool),
    SetInvertScroll(bool),
    SetShowTips(bool),
    SetAutoUpdate(bool),
    SetDisplayRefreshAutoCadence(bool),
    PreviewTheme(String),
    PreviewAutoDarkTheme(String),
    PreviewAutoLightTheme(String),
    SetTheme(String),
    SetAutoDarkTheme(String),
    SetAutoLightTheme(String),
    SetPermissionMode(PermissionModeKind),
    SetCodingDataSharing { opted_in: bool },
    SetCtrlOToolExpansion(String),
    SetPiEval(String),
    SetPiEvalV2Language(String),
    SetPiEvalV2DisplayMode(String),
    SetPiBashRunDisplay(ExecuteHeaderContent),
    SetHunkTrackerMode(String),
    SetScreenMode(String),
    SetVoiceCaptureMode(String),
    SetVoiceSttLanguage(String),
    SetRenderMermaid(RenderMermaid),
    SetKeepTextSelection(TextSelection),
    SetScrollMode(ScrollMode),
    SetCancelTurnKey(String),
    /// Queue or steer messages sent while a turn runs.
    SetFollowUpBehavior(String),
    SetDefaultSelectedPermission(String),
    SetPromptCursor(String),
    ClearForkSecondaryModel,
    SetForkSecondaryModel(String),
    ClearRecapModel,
    SetRecapModel(String),
    ClearRecapModel2,
    SetRecapModel2(String),
    ClearRecapModel3,
    SetRecapModel3(String),
    ClearBtwModel,
    SetBtwModel(String),
    ClearBtwModel2,
    SetBtwModel2(String),
    ClearBtwModel3,
    SetBtwModel3(String),
    SetMaxThoughtsWidth(i64),
    SetScrollSpeed(i64),
    SetScrollLines(i64),
}

/// An action with its text taken by view.
pub enum ActionView {
    OpenModelPicker,
    NextModel,
    SetDefaultModel(Seq<char>),
    ClearDefaultModel,
    SwitchModel { model_id: Seq<char>, effort: Option<ReasoningEffort> },
    SetPlanMode(PlanModeKind),
    OpenPiConfig,
    OpenSideModelPicker { slot_key: Seq<char> },
    SetHostFeatureBool { key: Seq<char>, enabled: bool },
    SetCompactMode(bool),
    SetTimestamps(bool),
    SetTimeline(bool),
    SetPiBuiltinTool { tool: PiBuiltinTool, enabled: bool },
    SetPiBash(bool),
    SetPiEvalV2Only(bool),
    SetPsmResumeIndex(bool),
    SetPiTreeFileRollback(bool),
    SetPiTreeSkipSummaryPrompt(bool),
    SetPiAskUserQuestionNotifications(bool),
    SetPiCacheGraph(bool),
    SetPiConfigSkill(bool),
    SetPiUserMarkdown(bool),
    SetPiAtSearchHidden(bool),
    SetPiKeepMultiAgent(bool),
    SetPiBashCommandFormat(bool),
    SetWriteEditHoverPopups(bool),
    SetShowOtherToolArgs(bool),
    SetReviewFileTree(bool),
    SetReviewIncludeReads(bool),
    SetSimpleMode(bool),
    SetContextualHintUndo(bool),
    SetContextualHintPlanMode(bool),
    SetContextualHintImageInput(bool),
    SetContextualHintSendNow(bool),
    SetContextualHintSmallScreen(bool),
    SetContextualHintWordSelect(bool),
    SetContextualHintSshWrap(bool),
    SetMultilineMode(bool),
    SetVimMode(bool),
    SetSessionRecap(bool),
    SetRecapMermaid(bool),
    SetProgressBar(bool),
    SetRemoteTuiFooter(bool),
    SetVoiceKeybindEnabled(bool),
    SetRememberToolApprovals(bool),
    SetAskUserQuestionTimeoutEnabled(bool),
    SetShowThinkingBlocks(bool),
    SetThinkingBorderColors(bool),
    SetGroupToolVerbs(bool),
    SetCollapsedEditBlocks(bool),
    SetSideBySideEdit(bool),
    SetPromptSuggestions(bool),
    SetRespectManualFolds(bool),
    SetPageFlipOnSend(bool),
    SetConfirmBeforeRewind(bool),
    SetCombineQueuedPrompts(bool),
    SetInvertScroll(bool),
    SetShowTips(bool),
    SetAutoUpdate(bool),
    SetDisplayRefreshAutoCadence(bool),
    PreviewTheme(Seq<char>),
    PreviewAutoDarkTheme(Seq<char>),
    PreviewAutoLightTheme(Seq<char>),
    SetTheme(Seq<char>),
    SetAutoDarkTheme(Seq<char>),
    SetAutoLightTheme(Seq<char>),
    SetPermissionMode(PermissionModeKind),
    SetCodingDataSharing { opted_in: bool },
    SetCtrlOToolExpansion(Seq<char>),
    SetPiEval(Seq<char>),
    SetPiEvalV2Language(Seq<char>),
    SetPiEvalV2DisplayMode(Seq<char>),
    SetPiBashRunDisplay(ExecuteHeaderContent),
    SetHunkTrackerMode(Seq<char>),
    SetScreenMode(Seq<char>),
    SetVoiceCaptureMode(Seq<char>),
    SetVoiceSttLanguage(Seq<char>),
    SetRenderMermaid(RenderMermaid),
    SetKeepTextSelection(TextSelection),
    SetScrollMode(ScrollMode),
    SetCancelTurnKey(Seq<char>),
    SetFollowUpBehavior(Seq<char>),
    SetDefaultSelectedPermission(Seq<char>),
    SetPromptCursor(Seq<char>),
    ClearForkSecondaryModel,
    SetForkSecondaryModel(Seq<char>),
    ClearRecapModel,
    SetRecapModel(Seq<char>),
    ClearRecapModel2,
    SetRecapModel2(Seq<char>),
    ClearRecapModel3,
    SetRecapModel3(Seq<char>),
    ClearBtwModel,
    SetBtwModel(Seq<char>),
    ClearBtwModel2,
    SetBtwModel2(Seq<char>),
    ClearBtwModel3,
    SetBtwModel3(Seq<char>),
    SetMaxThoughtsWidth(i64),
    SetScrollSpeed(i64),
    SetScrollLines(i64),
}

impl View for Action {
    type V = ActionView;

    open spec fn view(&self) -> ActionView {
        match self {
            Action::OpenModelPicker => ActionView::OpenModelPicker,
            Action::NextModel => ActionView::NextModel,
            Action::SetDefaultModel(a0) => ActionView::SetDefaultModel(a0@),
            Action::ClearDefaultModel => ActionView::ClearDefaultModel,
            Action::SwitchModel { model_id, effort } => ActionView::SwitchModel { model_id: model_id@, effort: *effort },
            Action::SetPlanMode(a0) => ActionView::SetPlanMode(*a0),
            Action::OpenPiConfig => ActionView::OpenPiConfig,
            Action::OpenSideModelPicker { slot_key } => ActionView::OpenSideModelPicker { slot_key: slot_key@ },
            Action::SetHostFeatureBool { key, enabled } => ActionView::SetHostFeatureBool { key: key@, enabled: *enabled },
            Action::SetCompactMode(a0) => ActionView::SetCompactMode(*a0),
            Action::SetTimestamps(a0) => ActionView::SetTimestamps(*a0),
            Action::SetTimeline(a0) => ActionView::SetTimeline(*a0),
            Action::SetPiBuiltinTool { tool, enabled } => ActionView::SetPiBuiltinTool { tool: *tool, enabled: *enabled },
            Action::SetPiBash(a0) => ActionView::SetPiBash(*a0),
            Action::SetPiEvalV2Only(a0) => ActionView::SetPiEvalV2Only(*a0),
            Action::SetPsmResumeIndex(a0) => ActionView::SetPsmResumeIndex(*a0),
            Action::SetPiTreeFileRollback(a0) => ActionView::SetPiTreeFileRollback(*a0),
            Action::SetPiTreeSkipSummaryPrompt(a0) => ActionView::SetPiTreeSkipSummaryPrompt(*a0),
            Action::SetPiAskUserQuestionNotifications(a0) => ActionView::SetPiAskUserQuestionNotifications(*a0),
            Action::SetPiCacheGraph(a0) => ActionView::SetPiCacheGraph(*a0),
            Action::SetPiConfigSkill(a0) => ActionView::SetPiConfigSkill(*a0),
            Action::SetPiUserMarkdown(a0) => ActionView::SetPiUserMarkdown(*a0),
            Action::SetPiAtSearchHidden(a0) => ActionView::SetPiAtSearchHidden(*a0),
            Action::SetPiKeepMultiAgent(a0) => ActionView::SetPiKeepMultiAgent(*a0),
            Action::SetPiBashCommandFormat(a0) => ActionView::SetPiBashCommandFormat(*a0),
            Action::SetWriteEditHoverPopups(a0) => ActionView::SetWriteEditHoverPopups(*a0),
            Action::SetShowOtherToolArgs(a0) => ActionView::SetShowOtherToolArgs(*a0),
            Action::SetReviewFileTree(a0) => ActionView::SetReviewFileTree(*a0),
            Action::SetReviewIncludeReads(a0) => ActionView::SetReviewIncludeReads(*a0),
            Action::SetSimpleMode(a0) => ActionView::SetSimpleMode(*a0),
            Action::SetContextualHintUndo(a0) => ActionView::SetContextualHintUndo(*a0),
            Action::SetContextualHintPlanMode(a0) => ActionView::SetContextualHintPlanMode(*a0),
            Action::SetContextualHintImageInput(a0) => ActionView::SetContextualHintImageInput(*a0),
            Action::SetContextualHintSendNow(a0) => ActionView::SetContextualHintSendNow(*a0),
            Action::SetContextualHintSmallScreen(a0) => ActionView::SetContextualHintSmallScreen(*a0),
            Action::SetContextualHintWordSelect(a0) => ActionView::SetContextualHintWordSelect(*a0),
            Action::SetContextualHintSshWrap(a0) => ActionView::SetContextualHintSshWrap(*a0),
            Action::SetMultilineMode(a0) => ActionView::SetMultilineMode(*a0),
            Action::SetVimMode(a0) => ActionView::SetVimMode(*a0),
            Action::SetSessionRecap(a0) => ActionView::SetSessionRecap(*a0),
            Action::SetRecapMermaid(a0) => ActionView::SetRecapMermaid(*a0),
            Action::SetProgressBar(a0) => ActionView::SetProgressBar(*a0),
            Action::SetRemoteTuiFooter(a0) => ActionView::SetRemoteTuiFooter(*a0),
            Action::SetVoiceKeybindEnabled(a0) => ActionView::SetVoiceKeybindEnabled(*a0),
            Action::SetRememberToolApprovals(a0) => ActionView::SetRememberToolApprovals(*a0),
            Action::SetAskUserQuestionTimeoutEnabled(a0) => ActionView::SetAskUserQuestionTimeoutEnabled(*a0),
            Action::SetShowThinkingBlocks(a0) => ActionView::SetShowThinkingBlocks(*a0),
            Action::SetThinkingBorderColors(a0) => ActionView::SetThinkingBorderColors(*a0),
            Action::SetGroupToolVerbs(a0) => ActionView::SetGroupToolVerbs(*a0),
            Action::SetCollapsedEditBlocks(a0) => ActionView::SetCollapsedEditBlocks(*a0),
            Action::SetSideBySideEdit(a0) => ActionView::SetSideBySideEdit(*a0),
            Action::SetPromptSuggestions(a0) => ActionView::SetPromptSuggestions(*a0),
            Action::SetRespectManualFolds(a0) => ActionView::SetRespectManualFolds(*a0),
            Action::SetPageFlipOnSend(a0) => ActionView::SetPageFlipOnSend(*a0),
            Action::SetConfirmBeforeRewind(a0) => ActionView::SetConfirmBeforeRewind(*a0),
            Action::SetCombineQueuedPrompts(a0) => ActionView::SetCombineQueuedPrompts(*a0),
            Action::SetInvertScroll(a0) => ActionView::SetInvertScroll(*a0),
            Action::SetShowTips(a0) => ActionView::SetShowTips(*a0),
            Action::SetAutoUpdate(a0) => ActionView::SetAutoUpdate(*a0),
            Action::SetDisplayRefreshAutoCadence(a0) => ActionView::SetDisplayRefreshAutoCadence(*a0),
            Action::PreviewTheme(a0) => ActionView::PreviewTheme(a0@),
            Action::PreviewAutoDarkTheme(a0) => ActionView::PreviewAutoDarkTheme(a0@),
            Action::PreviewAutoLightTheme(a0) => ActionView::PreviewAutoLightTheme(a0@),
            Action::SetTheme(a0) => ActionView::SetTheme(a0@),
            Action::SetAutoDarkTheme(a0) => ActionView::SetAutoDarkTheme(a0@),
            Action::SetAutoLightTheme(a0) => ActionView::SetAutoLightTheme(a0@),
            Action::SetPermissionMode(a0) => ActionView::SetPermissionMode(*a0),
            Action::SetCodingDataSharing { opted_in } => ActionView::SetCodingDataSharing { opted_in: *opted_in },
            Action::SetCtrlOToolExpansion(a0) => ActionView::SetCtrlOToolExpansion(a0@),
            Action::SetPiEval(a0) => ActionView::SetPiEval(a0@),
            Action::SetPiEvalV2Language(a0) => ActionView::SetPiEvalV2Language(a0@),
            Action::SetPiEvalV2DisplayMode(a0) => ActionView::SetPiEvalV2DisplayMode(a0@),
            Action::SetPiBashRunDisplay(a0) => ActionView::SetPiBashRunDisplay(*a0),
            Action::SetHunkTrackerMode(a0) => ActionView::SetHunkTrackerMode(a0@),
            Action::SetScreenMode(a0) => ActionView::SetScreenMode(a0@),
            Action::SetVoiceCaptureMode(a0) => ActionView::SetVoiceCaptureMode(a0@),
            Action::SetVoiceSttLanguage(a0) => ActionView::SetVoiceSttLanguage(a0@),
            Action::SetRenderMermaid(a0) => ActionView::SetRenderMermaid(*a0),
            Action::SetKeepTextSelection(a0) => ActionView::SetKeepTextSelection(*a0),
            Action::SetScrollMode(a0) => ActionView::SetScrollMode(*a0),
            Action::SetCancelTurnKey(a0) => ActionView::SetCancelTurnKey(a0@),
            Action::SetFollowUpBehavior(a0) => ActionView::SetFollowUpBehavior(a0@),
            Action::SetDefaultSelectedPermission(a0) => ActionView::SetDefaultSelectedPermission(a0@),
            Action::SetPromptCursor(a0) => ActionView::SetPromptCursor(a0@),
            Action::ClearForkSecondaryModel => ActionView::ClearForkSecondaryModel,
            Action::SetForkSecondaryModel(a0) => ActionView::SetForkSecondaryModel(a0@),
            Action::ClearRecapModel => ActionView::ClearRecapModel,
            Action::SetRecapModel(a0) => ActionView::SetRecapModel(a0@),
            Action::ClearRecapModel2 => ActionView::ClearRecapModel2,
            Action::SetRecapModel2(a0) => ActionView::SetRecapModel2(a0@),
            Action::ClearRecapModel3 => ActionView::ClearRecapModel3,
            Action::SetRecapModel3(a0) => ActionView::SetRecapModel3(a0@),
            Action::ClearBtwModel => ActionView::ClearBtwModel,
            Action::SetBtwModel(a0) => ActionView::SetBtwModel(a0@),
            Action::ClearBtwModel2 => ActionView::ClearBtwModel2,
            Action::SetBtwModel2(a0) => ActionView::SetBtwModel2(a0@),
            Action::ClearBtwModel3 => ActionView::ClearBtwModel3,
            Action::SetBtwModel3(a0) => ActionView::SetBtwModel3(a0@),
            Action::SetMaxThoughtsWidth(a0) => ActionView::SetMaxThoughtsWidth(*a0),
            Action::SetScrollSpeed(a0) => ActionView::SetScrollSpeed(*a0),
            Action::SetScrollLines(a0) => ActionView::SetScrollLines(*a0),
        }
    }
}

/// An optional action, taken by view.
pub open spec fn opt_action_view(a: Option<Action>) -> Option<ActionView> {
    match a {
        Some(x) => Some(x@),
        None => None,
    }
}

/// One row of an argument dropdown.
#[derive(Debug, Clone)]
pub struct ArgItem {
    pub display: String,
    pub match_text: String,
    pub insert_text: String,
    pub description: String,
}

pub struct ArgItemView {
    pub display: Seq<char>,
    pub match_text: Seq<char>,
    pub insert_text: Seq<char>,
    pub description: Seq<char>,
}

impl View for ArgItem {
    type V = ArgItemView;

    open spec fn view(&self) -> ArgItemView {
        ArgItemView {
            display: self.display@,
            match_text: self.match_text@,
            insert_text: self.insert_text@,
            description: self.description@,
        }
    }
}

/// What running a slash command produced.
#[derive(Debug, Clone)]
pub enum CommandResult {
    Action(Action),
    Error(String),
    /// Hand the text to the shell unchanged.
    PassThrough(String),
    /// Execute before the streaming queue.
    DirectPiCommand(String),
    /// A skill invocation: the shell expands the raw slash text, which is
    /// also what the transcript shows.
    InjectSkill { display_text: String, prompt_text: String, display_as_skill: bool },
}

/// Where a slash command comes from.
#[derive(Debug, Clone, PartialEq, Eq)]
pub enum CommandProvenance {
    Shell,
    Skill { source: String },
}

} // verus!
