//! State of the settings panel.
//!
//! `rows` holds the complete page in render order (see `rows`); what is on
//! screen is `visible`, a list of indices into `rows`: every row while
//! browsing, the search results while a query is set.
//!
//! Modes: `Browse` to `Search` on `/`; `Browse` to `Picking`,
//! `PickingGroup`, `EditingString` or `EditingInt` on Enter over the
//! matching row kind; `Browse` to `ConfirmReset` on `d`. Every sub-mode
//! returns to `Browse`.
use vstd::prelude::*;
use crate::commands::Action;
use crate::pi_settings::editor::LineEditor;
use crate::pi_settings::keys::Rect;
use crate::pi_settings::rows::{
    all_rows, build_rows, lemma_scan_headings, lemma_scan_matches, lemma_scan_wf, page_laid_out,
    row_key, rows_wf, scan, scan_vis, spec_row_key, spec_visible, visible_wf, Row, RuntimeGates,
};
use crate::settings::registry::{
    opt_view, OwnedEnumChoice, SettingMeta, SettingValue, SettingsRegistry, StringValidator,
    ValueView,
};
use crate::text::{chars_of, eq_ignore_ascii_case, eq_ignore_case, lower_chars, lower_seq, str_eq};

verus! {

/// Panel title, shown on the modal's top border.
pub const MODAL_TITLE: &'static str = "Settings";

/// What the panel is doing right now.
#[derive(Debug)]
pub enum Mode {
    Browse,
    /// `/` was pressed; the query filters settings across every category.
    Search,
    /// Enum / dynamic-enum chooser.
    Picking {
        key: &'static str,
        index: usize,
        /// Value on entry, restored when Esc reverts a live preview.
        original: SettingValue,
        supports_preview: bool,
        scroll: usize,
    },
    /// Sub-sheet listing a Group setting's child toggles.
    PickingGroup { key: &'static str, child: usize },
    EditingString {
        key: &'static str,
        editor: LineEditor,
        validator: StringValidator,
        error: Option<String>,
    },
    EditingInt { key: &'static str, buffer: String, min: i64, max: i64 },
    /// `d` was pressed; y/n confirms resetting the focused row to its default.
    ConfirmReset { key: &'static str },
}

/// Read-only projection of `Mode`.
#[derive(Debug, Clone, Copy, PartialEq, Eq, Structural)]
pub enum ModeKind {
    Browse,
    Search,
    Picking,
    PickingGroup,
    EditingString,
    EditingInt,
    ConfirmReset,
}

impl Mode {
    pub open spec fn spec_kind(&self) -> ModeKind {
        match self {
            Mode::Browse => ModeKind::Browse,
            Mode::Search => ModeKind::Search,
            Mode::Picking { .. } => ModeKind::Picking,
            Mode::PickingGroup { .. } => ModeKind::PickingGroup,
            Mode::EditingString { .. } => ModeKind::EditingString,
            Mode::EditingInt { .. } => ModeKind::EditingInt,
            Mode::ConfirmReset { .. } => ModeKind::ConfirmReset,
        }
    }

    pub fn kind(&self) -> (r: ModeKind)
        ensures
            r == self.spec_kind(),
    {
        match self {
            Mode::Browse => ModeKind::Browse,
            Mode::Search => ModeKind::Search,
            Mode::Picking { .. } => ModeKind::Picking,
            Mode::PickingGroup { .. } => ModeKind::PickingGroup,
            Mode::EditingString { .. } => ModeKind::EditingString,
            Mode::EditingInt { .. } => ModeKind::EditingInt,
            Mode::ConfirmReset { .. } => ModeKind::ConfirmReset,
        }
    }

    pub open spec fn spec_is_sub_pane(&self) -> bool {
        !(self is Browse || self is Search)
    }

    /// Sub-panes take over the whole window; Browse and Search share the
    /// single-page list surface.
    pub fn is_sub_pane(&self) -> (r: bool)
        ensures
            r == self.spec_is_sub_pane(),
    {
        match self {
            Mode::Browse | Mode::Search => false,
            _ => true,
        }
    }

    pub open spec fn spec_subject(&self) -> Option<Seq<char>> {
        match self {
            Mode::Picking { key, .. } => Some(key@),
            Mode::PickingGroup { key, .. } => Some(key@),
            Mode::EditingString { key, .. } => Some(key@),
            Mode::EditingInt { key, .. } => Some(key@),
            Mode::ConfirmReset { key } => Some(key@),
            Mode::Browse | Mode::Search => None,
        }
    }

    /// The setting a sub-pane is operating on.
    pub fn subject(&self) -> (r: Option<&'static str>)
        ensures
            match r {
                Some(k) => self.spec_subject() == Some(k@),
                None => self.spec_subject() is None,
            },
    {
        match self {
            Mode::Picking { key, .. } => Some(*key),
            Mode::PickingGroup { key, .. } => Some(*key),
            Mode::EditingString { key, .. } => Some(*key),
            Mode::EditingInt { key, .. } => Some(*key),
            Mode::ConfirmReset { key } => Some(*key),
            Mode::Browse | Mode::Search => None,
        }
    }

    /// The Int stepper's bounds are ordered; the String editor's cursor is
    /// inside its text.
    pub open spec fn wf(&self) -> bool {
        match self {
            Mode::EditingInt { min, max, .. } => *min <= *max,
            Mode::EditingString { editor, .. } => editor.wf(),
            _ => true,
        }
    }
}

/// Outcome of a key or mouse event. The panel does not own the modal stack,
/// so closing is the caller's job.
#[derive(Debug)]
pub enum Outcome {
    /// Close the panel.
    Close,
    /// Forward to dispatch.
    Action(Action),
    /// Forward both, in order.
    ActionPair(Action, Action),
    /// Close the panel and forward the action. Used by deep-link opens, where
    /// the chooser is the whole interaction.
    ActionThenClose(Action),
    /// Internal state change; repaint.
    Changed,
    /// Nothing happened.
    Unchanged,
}

impl Outcome {
    /// `Changed` when `moved`, else `Unchanged`.
    pub fn changed_if(moved: bool) -> (r: Outcome)
        ensures
            moved ==> r is Changed,
            !moved ==> r is Unchanged,
    {
        if moved {
            Outcome::Changed
        } else {
            Outcome::Unchanged
        }
    }
}

/// Why the data-sharing row cannot be edited.
#[derive(Debug, Clone, Copy, PartialEq, Eq, Structural)]
pub enum CodingDataSharingLock {
    /// Zero data retention applies.
    Zdr,
    /// A team administrator manages it.
    TeamManaged,
}

/// A model of the catalog: display name and id.
#[derive(Debug, Clone)]
pub struct ModelEntry {
    pub name: String,
    pub id: String,
}

/// A host feature whose on/off state a Bool setting controls.
#[derive(Debug, Clone)]
pub struct HostFeature {
    pub setting_key: String,
    pub key: String,
}

/// What the panel reads from the pager besides the settings' values.
#[derive(Debug, Clone)]
pub struct PagerSnapshot {
    pub coding_data_sharing_lock: Option<CodingDataSharingLock>,
    /// Whether the Auto permission mode may be chosen.
    pub auto_mode_gate: bool,
    pub available_models: Vec<ModelEntry>,
    /// Choices of a DynamicEnum setting: the live model catalog.
    pub model_choices: Vec<OwnedEnumChoice>,
    pub host_features: Vec<HostFeature>,
}

impl PagerSnapshot {
    /// A snapshot with nothing locked, no Auto mode and empty catalogs.
    pub fn empty() -> (r: PagerSnapshot)
        ensures
            r.coding_data_sharing_lock is None,
            !r.auto_mode_gate,
            r.available_models@.len() == 0,
            r.model_choices@.len() == 0,
            r.host_features@.len() == 0,
    {
        PagerSnapshot {
            coding_data_sharing_lock: None,
            auto_mode_gate: false,
            available_models: Vec::new(),
            model_choices: Vec::new(),
            host_features: Vec::new(),
        }
    }

    /// The id of the first model whose name equals `name`, ignoring ASCII
    /// case.
    pub fn resolve_model_name(&self, name: &str) -> (r: Option<String>)
        ensures
            match r {
                Some(id) => crate::pi_settings::actions::spec_resolve_model(
                    self.available_models@,
                    name@,
                ) == Some(id@),
                None => crate::pi_settings::actions::spec_resolve_model(
                    self.available_models@,
                    name@,
                ) is None,
            },
    {
        let n = chars_of(name);
        let mut i: usize = 0;
        assert(self.available_models@.skip(0) =~= self.available_models@);
        while i < self.available_models.len()
            invariant
                n@ == name@,
                i <= self.available_models@.len(),
                crate::pi_settings::actions::spec_resolve_model(self.available_models@, name@)
                    == crate::pi_settings::actions::spec_resolve_model(
                    self.available_models@.skip(i as int),
                    name@,
                ),
            decreases self.available_models.len() - i,
        {
            assert(self.available_models@.skip(i as int).skip(1) =~= self.available_models@.skip(
                i + 1,
            ));
            if eq_ignore_ascii_case(&chars_of(self.available_models[i].name.as_str()), &n) {
                return Some(self.available_models[i].id.clone());
            }
            i = i + 1;
        }
        None
    }
}

/// The live value of one setting.
#[derive(Debug, Clone)]
pub struct LiveValue {
    pub key: &'static str,
    pub value: SettingValue,
}

/// A copy of `v`.
pub fn copy_value(v: &SettingValue) -> (r: SettingValue)
    ensures
        r@ == v@,
{
    match v {
        SettingValue::Bool(b) => SettingValue::Bool(*b),
        SettingValue::Enum(s) => SettingValue::Enum(s.clone()),
        SettingValue::String(s) => SettingValue::String(s.clone()),
        SettingValue::Int(n) => SettingValue::Int(*n),
        SettingValue::PiBuiltinTools(t) => SettingValue::PiBuiltinTools(*t),
    }
}

/// The value recorded first for `key`.
pub open spec fn spec_value_of(values: Seq<LiveValue>, key: Seq<char>) -> Option<ValueView>
    decreases values.len(),
{
    if values.len() == 0 {
        None
    } else if values[0].key@ == key {
        Some(values[0].value@)
    } else {
        spec_value_of(values.skip(1), key)
    }
}

/// Each entry of `entries` that has a default, as `(key, default)`, in
/// order; Groups have none.
pub open spec fn defaults_of(entries: Seq<SettingMeta>) -> Seq<(Seq<char>, ValueView)>
    decreases entries.len(),
{
    if entries.len() == 0 {
        Seq::empty()
    } else {
        let rest = defaults_of(entries.drop_last());
        match crate::settings::registry::spec_default_value(entries.last().kind) {
            Some(v) => rest.push((entries.last().key@, v)),
            None => rest,
        }
    }
}

/// A live value as `(key, value)`.
pub open spec fn live_view(v: LiveValue) -> (Seq<char>, ValueView) {
    (v.key@, v.value@)
}

/// Every registered setting at its default; Groups have no value.
pub fn live_defaults(registry: &SettingsRegistry) -> (r: Vec<LiveValue>)
    ensures
        r@.map_values(|v: LiveValue| live_view(v)) == defaults_of(registry.entries@),
{
    let mut out: Vec<LiveValue> = Vec::new();
    let mut i: usize = 0;
    while i < registry.entries.len()
        invariant
            i <= registry.entries@.len(),
            out@.map_values(|v: LiveValue| live_view(v)) == defaults_of(
                registry.entries@.take(i as int),
            ),
        decreases registry.entries.len() - i,
    {
        let ghost before = out@;
        assert(registry.entries@.take(i + 1).drop_last() =~= registry.entries@.take(i as int));
        match crate::settings::registry::default_value_for(&registry.entries[i]) {
            Some(v) => {
                out.push(LiveValue { key: registry.entries[i].key, value: v });
                assert(out@.map_values(|v: LiveValue| live_view(v)) =~= before.map_values(
                    |v: LiveValue| live_view(v),
                ).push(live_view(out@.last())));
            },
            None => {},
        }
        i = i + 1;
    }
    assert(registry.entries@.take(registry.entries@.len() as int) =~= registry.entries@);
    out
}

/// Position of `x` in `vis`, if it occurs.
pub open spec fn spec_position(vis: Seq<usize>, x: usize) -> Option<int> {
    if vis.contains(x) {
        Some(choose|k: int| 0 <= k < vis.len() && vis[k] == x)
    } else {
        None
    }
}

/// From position `cursor`, moving by `delta`, the first position of `vis`
/// that shows a setting row.
pub open spec fn next_setting(rows: Seq<Row>, vis: Seq<usize>, cursor: int, delta: int) -> Option<
    int,
>
    decreases (if delta > 0 {
        vis.len() - cursor
    } else {
        cursor + 1
    }),
{
    if delta == 0 || cursor < 0 || cursor >= vis.len() {
        None
    } else if rows[vis[cursor] as int] is Setting {
        Some(cursor)
    } else if cursor + delta < 0 || cursor + delta >= vis.len() {
        None
    } else {
        next_setting(rows, vis, cursor + delta, delta)
    }
}

/// Index of the first row showing setting `key`.
pub open spec fn first_row_of(rows: Seq<Row>, key: Seq<char>) -> Option<int>
    decreases rows.len(),
{
    if rows.len() == 0 {
        None
    } else if spec_row_key(rows[0]) == Some(key) {
        Some(0)
    } else {
        match first_row_of(rows.skip(1), key) {
            Some(j) => Some(j + 1),
            None => None,
        }
    }
}

/// The settings panel.
pub struct PiSettingsState {
    pub registry: SettingsRegistry,
    /// Live values, refreshed by the dispatcher on every mutation.
    pub values: Vec<LiveValue>,
    pub pager_snapshot: PagerSnapshot,
    pub gates: RuntimeGates,
    /// Every category's rows, in single-page render order.
    pub rows: Vec<Row>,
    /// Indices into `rows` that are currently on screen.
    pub visible: Vec<usize>,
    /// Index into `rows` of the focused row.
    pub selected: usize,
    /// First visible row, as a position within `visible`.
    pub scroll: usize,
    pub mode: Mode,
    pub query: LineEditor,
    pub list_area: Rect,
    /// Click rect per row, parallel to `rows`; zero-sized when off screen.
    pub row_rects: Vec<Rect>,
    /// Click rect for each row's value column.
    pub value_rects: Vec<Rect>,
    /// Click rect per choice in `Picking` / `PickingGroup`.
    pub choice_rects: Vec<Rect>,
    /// `(decrement, increment)` rects for the Int stepper.
    pub stepper_rects: (Rect, Rect),
    /// Row under the pointer: indexes `rows` while browsing, `choice_rects`
    /// inside a chooser.
    pub hover: Option<usize>,
    /// Esc/Enter out of a chooser closes the panel instead of returning to
    /// Browse. Set by deep-link opens.
    pub close_on_picker_exit: bool,
}

impl PiSettingsState {
    /// The lower-cased query the rows are filtered by.
    pub open spec fn spec_query(&self) -> Seq<char> {
        lower_seq(self.query.text@)
    }

    /// The panel's invariant: the registry is well formed, the rows point at
    /// it, and the visible rows are exactly those the query leaves.
    pub open spec fn wf(&self) -> bool {
        &&& self.registry.wf()
        &&& rows_wf(self.rows@, self.registry.entries@)
        &&& self.rows@.len() <= usize::MAX
        &&& self.query.wf()
        &&& self.mode.wf()
        &&& self.visible@ == spec_visible(self.rows@, self.registry.entries@, self.spec_query())
    }

    /// The first visible setting row, if any.
    pub open spec fn first_setting(&self) -> Option<int> {
        next_setting(self.rows@, self.visible@, 0, 1)
    }

    /// A panel over `registry` with live `values`, opened in Browse mode on
    /// the complete page, focused on its first setting.
    pub fn new(
        registry: SettingsRegistry,
        values: Vec<LiveValue>,
        pager_snapshot: PagerSnapshot,
        gates: RuntimeGates,
    ) -> (r: PiSettingsState)
        requires
            registry.wf(),
        ensures
            r.wf(),
            page_laid_out(r.rows@, r.registry.entries@, gates),
            r.registry == registry,
            r.gates == gates,
            r.mode is Browse,
            r.query.text@.len() == 0,
            r.visible@ == all_rows(r.rows@.len()),
            match r.first_setting() {
                Some(p) => r.selected == r.visible@[p],
                None => r.selected == 0,
            },
            !r.close_on_picker_exit,
            r.hover is None,
    {
        let rows = build_rows(&registry, &gates);
        let mut state = Self::assemble(registry, values, pager_snapshot, gates, rows);
        let _n = state.rows.len();
        state.refresh_visible();
        assert(lower_seq(state.query.text@).len() == 0);
        state.select_first_visible();
        state
    }

    /// The fields of a fresh panel, before its rows are filtered.
    fn assemble(
        registry: SettingsRegistry,
        values: Vec<LiveValue>,
        pager_snapshot: PagerSnapshot,
        gates: RuntimeGates,
        rows: Vec<Row>,
    ) -> (r: PiSettingsState)
        ensures
            r.registry == registry,
            r.values == values,
            r.pager_snapshot == pager_snapshot,
            r.gates == gates,
            r.rows == rows,
            r.selected == 0,
            r.mode is Browse,
            r.query.wf(),
            r.query.text@.len() == 0,
            !r.close_on_picker_exit,
            r.hover is None,
    {
        PiSettingsState {
            registry,
            values,
            pager_snapshot,
            gates,
            rows,
            visible: Vec::new(),
            selected: 0,
            scroll: 0,
            mode: Mode::Browse,
            query: LineEditor::new(),
            list_area: Rect::zero(),
            row_rects: Vec::new(),
            value_rects: Vec::new(),
            choice_rects: Vec::new(),
            stepper_rects: (Rect::zero(), Rect::zero()),
            hover: None,
            close_on_picker_exit: false,
        }
    }

    // -- Queries ------------------------------------------------------------
    /// The search text.
    pub fn query(&self) -> (r: String)
        ensures
            r@ == self.query.text@,
    {
        self.query.text_string()
    }

    /// The search cursor, in characters.
    pub fn query_cursor(&self) -> (r: usize)
        ensures
            r == self.query.cursor,
    {
        self.query.cursor
    }

    /// Whether a query is filtering the page.
    pub fn searching(&self) -> (r: bool)
        ensures
            r == (self.query.text@.len() > 0),
    {
        !self.query.is_empty()
    }

    pub open spec fn spec_owns_escape(&self) -> bool {
        self.mode.spec_is_sub_pane() || self.mode is Search || self.query.text@.len() > 0
    }

    /// Whether Esc means something inside the panel rather than "close it":
    /// backing out of a search or a sub-pane never dismisses the panel.
    /// Search counts even with an empty query.
    pub fn owns_escape(&self) -> (r: bool)
        ensures
            r == self.spec_owns_escape(),
    {
        self.mode.is_sub_pane() || self.mode.kind() == ModeKind::Search || self.searching()
    }

    /// The focused setting row's key and metadata, if the focus is on one.
    pub fn focused(&self) -> (r: Option<(&'static str, &SettingMeta)>)
        requires
            self.wf(),
        ensures
            match r {
                Some((k, m)) => self.selected < self.rows@.len() && self.rows@[self.selected as int]
                    is Setting && k@ == self.rows@[self.selected as int]->key@ && *m
                    == self.registry.entries@[self.rows@[self.selected as int]->meta as int],
                None => !(self.selected < self.rows@.len() && self.rows@[self.selected as int]
                    is Setting),
            },
    {
        if self.selected >= self.rows.len() {
            return None;
        }
        match self.rows[self.selected] {
            Row::Setting { key, meta } => Some((key, &self.registry.entries[meta])),
            _ => None,
        }
    }

    /// Metadata for a key, or `None` on registry skew.
    pub fn meta(&self, key: &str) -> (r: Option<&SettingMeta>)
        ensures
            match r {
                Some(m) => exists|i: int|
                    0 <= i < self.registry.entries@.len() && self.registry.entries@[i] == *m
                        && m.key@ == key@ && forall|j: int|
                        0 <= j < i ==> (#[trigger] self.registry.entries@[j]).key@ != key@,
                None => forall|j: int|
                    0 <= j < self.registry.entries@.len() ==> (
                    #[trigger] self.registry.entries@[j]).key@ != key@,
            },
    {
        self.registry.find(key)
    }

    /// Live value for a key.
    pub fn value_of(&self, key: &str) -> (r: Option<SettingValue>)
        ensures
            opt_view(r) == spec_value_of(self.values@, key@),
    {
        let mut i: usize = 0;
        assert(self.values@.skip(0) =~= self.values@);
        while i < self.values.len()
            invariant
                i <= self.values@.len(),
                spec_value_of(self.values@, key@) == spec_value_of(
                    self.values@.skip(i as int),
                    key@,
                ),
            decreases self.values.len() - i,
        {
            assert(self.values@.skip(i as int).skip(1) =~= self.values@.skip(i + 1));
            if str_eq(self.values[i].key, key) {
                return Some(copy_value(&self.values[i].value));
            }
            i = i + 1;
        }
        None
    }

    /// Registered default for a key.
    pub fn default_of(&self, key: &str) -> (r: Option<SettingValue>)
        ensures
            match self.registry.find_spec(key@) {
                Some(i) => opt_view(r) == crate::settings::registry::spec_default_value(
                    self.registry.entries@[i].kind,
                ),
                None => r is None,
            },
    {
        match self.registry.position(key) {
            Some(i) => crate::settings::registry::default_value_for(&self.registry.entries[i]),
            None => None,
        }
    }

    pub open spec fn spec_lock(&self, key: Seq<char>) -> Option<CodingDataSharingLock> {
        if key == "coding_data_sharing"@ {
            self.pager_snapshot.coding_data_sharing_lock
        } else {
            None
        }
    }

    /// Why a row cannot be edited (`None` = editable).
    pub fn lock(&self, key: &str) -> (r: Option<CodingDataSharingLock>)
        ensures
            r == self.spec_lock(key@),
    {
        if str_eq(key, "coding_data_sharing") {
            self.pager_snapshot.coding_data_sharing_lock
        } else {
            None
        }
    }

    // -- Row table ----------------------------------------------------------
    /// Recompute `visible` from the query across the complete page.
    pub fn refresh_visible(&mut self)
        requires
            rows_wf(old(self).rows@, old(self).registry.entries@),
            old(self).rows@.len() <= usize::MAX,
        ensures
            final(self).visible@ == spec_visible(
                old(self).rows@,
                old(self).registry.entries@,
                old(self).spec_query(),
            ),
            visible_wf(final(self).visible@, old(self).rows@.len()),
            final(self).rows == old(self).rows,
            final(self).registry == old(self).registry,
            final(self).query == old(self).query,
            final(self).mode == old(self).mode,
            final(self).selected == old(self).selected,
            final(self).values == old(self).values,
            final(self).pager_snapshot == old(self).pager_snapshot,
            final(self).gates == old(self).gates,
            final(self).hover == old(self).hover,
            final(self).close_on_picker_exit == old(self).close_on_picker_exit,
    {
        let q = lower_chars(&self.query.text);
        let n = self.rows.len();
        if q.len() == 0 {
            let mut vis: Vec<usize> = Vec::new();
            let mut i: usize = 0;
            while i < n
                invariant
                    i <= n,
                    vis@ =~= all_rows(i as nat),
                decreases n - i,
            {
                vis.push(i);
                i = i + 1;
            }
            self.visible = vis;
            return;
        }
        let ghost rows = self.rows@;
        let ghost reg = self.registry.entries@;
        let mut vis: Vec<usize> = Vec::new();
        let mut pending: Option<usize> = None;
        let mut i: usize = 0;
        while i < n
            invariant
                n == rows.len(),
                rows == self.rows@,
                reg == self.registry.entries@,
                rows_wf(rows, reg),
                i <= n,
                (vis@, pending) == scan(rows, reg, q@, i as nat),
            decreases n - i,
        {
            match self.rows[i] {
                Row::Category { .. } => {
                    pending = Some(i);
                },
                Row::Section { .. } => {},
                Row::Setting { meta, .. } => {
                    if self.registry.entries[meta].matches_lowered(&q) {
                        match pending {
                            Some(c) => {
                                vis.push(c);
                            },
                            None => {},
                        }
                        vis.push(i);
                        pending = None;
                    }
                },
            }
            i = i + 1;
        }
        proof {
            lemma_scan_wf(rows, reg, q@, n as nat);
        }
        self.visible = vis;
    }

    // -- Navigation ---------------------------------------------------------
    /// Focus the first visible setting row, if there is one.
    pub fn select_first_visible(&mut self)
        requires
            old(self).wf(),
        ensures
            final(self).wf(),
            match old(self).first_setting() {
                Some(p) => final(self).selected == old(self).visible@[p],
                None => final(self).selected == old(self).selected,
            },
            final(self).rows == old(self).rows,
            final(self).visible == old(self).visible,
            final(self).query == old(self).query,
            final(self).mode == old(self).mode,
            final(self).registry == old(self).registry,
            final(self).values == old(self).values,
            final(self).pager_snapshot == old(self).pager_snapshot,
            final(self).gates == old(self).gates,
            final(self).hover == old(self).hover,
            final(self).close_on_picker_exit == old(self).close_on_picker_exit,
    {
        match self.find_setting_from(0, 1) {
            Some(p) => {
                self.selected = self.visible[p];
            },
            None => {},
        }
        proof {
            lemma_visible_wf(self);
        }
    }

    /// Walk `visible` from position `start` by `delta` to the first setting
    /// row.
    fn find_setting_from(&self, start: i128, delta: isize) -> (r: Option<usize>)
        requires
            self.wf(),
            delta != 0,
        ensures
            match r {
                Some(p) => next_setting(self.rows@, self.visible@, start as int, delta as int)
                    == Some(p as int) && p < self.visible@.len(),
                None => next_setting(self.rows@, self.visible@, start as int, delta as int) is None,
            },
    {
        proof {
            lemma_visible_wf(self);
        }
        let n = self.visible.len();
        if start < 0 || start >= n as i128 {
            return None;
        }
        let mut cursor: i128 = start;
        loop
            invariant
                self.wf(),
                n == self.visible@.len(),
                visible_wf(self.visible@, self.rows@.len()),
                delta != 0,
                0 <= cursor < n,
                next_setting(self.rows@, self.visible@, start as int, delta as int) == next_setting(
                    self.rows@,
                    self.visible@,
                    cursor as int,
                    delta as int,
                ),
            decreases (if delta > 0 {
                n - cursor
            } else {
                cursor + 1
            }),
        {
            let row = self.visible[cursor as usize];
            if self.rows[row].is_setting() {
                return Some(cursor as usize);
            }
            let next: i128 = cursor + delta as i128;
            if next < 0 || next >= n as i128 {
                return None;
            }
            cursor = next;
        }
    }

    /// Snap the focus back into the visible set if filtering pushed it out.
    pub fn clamp_selection(&mut self)
        requires
            old(self).wf(),
        ensures
            final(self).wf(),
            old(self).visible@.len() == 0 || old(self).visible@.contains(old(self).selected)
                ==> final(self).selected == old(self).selected,
            !(old(self).visible@.len() == 0 || old(self).visible@.contains(old(self).selected))
                ==> match old(self).first_setting() {
                Some(p) => final(self).selected == old(self).visible@[p],
                None => final(self).selected == old(self).selected,
            },
            final(self).rows == old(self).rows,
            final(self).visible == old(self).visible,
            final(self).query == old(self).query,
            final(self).mode == old(self).mode,
            final(self).registry == old(self).registry,
            final(self).values == old(self).values,
            final(self).pager_snapshot == old(self).pager_snapshot,
            final(self).gates == old(self).gates,
            final(self).hover == old(self).hover,
            final(self).close_on_picker_exit == old(self).close_on_picker_exit,
    {
        if self.visible.len() == 0 || self.visible_contains(self.selected) {
            return;
        }
        self.select_first_visible();
    }

    fn visible_contains(&self, row: usize) -> (r: bool)
        ensures
            r == self.visible@.contains(row),
    {
        self.position_of(row).is_some()
    }

    /// Position of `row` within `visible`.
    pub fn position_of(&self, row: usize) -> (r: Option<usize>)
        ensures
            match r {
                Some(p) => p < self.visible@.len() && self.visible@[p as int] == row,
                None => !self.visible@.contains(row),
            },
    {
        let mut i: usize = 0;
        while i < self.visible.len()
            invariant
                i <= self.visible@.len(),
                forall|k: int| 0 <= k < i ==> self.visible@[k] != row,
            decreases self.visible.len() - i,
        {
            if self.visible[i] == row {
                return Some(i);
            }
            i = i + 1;
        }
        None
    }

    /// Where a step from the focus by `delta` starts looking: past the
    /// focus, or at the end the step heads toward when the focus is hidden.
    pub open spec fn step_start(&self, delta: int) -> int {
        match spec_position(self.visible@, self.selected) {
            Some(p) => p + delta,
            None => if delta > 0 {
                0
            } else {
                self.visible@.len() - 1
            },
        }
    }

    /// The row one step from the focus, in the direction of `delta` (the
    /// focus itself when no setting lies that way).
    pub open spec fn stepped(&self, delta: int) -> usize {
        match next_setting(self.rows@, self.visible@, self.step_start(delta), delta) {
            Some(p) => self.visible@[p],
            None => self.selected,
        }
    }

    /// The first (`delta <= 0`) or last (`delta > 0`) setting row on screen
    /// (the focus itself when there is none).
    pub open spec fn end_target(&self, delta: int) -> usize {
        match (if delta > 0 {
            next_setting(self.rows@, self.visible@, self.visible@.len() - 1, -1)
        } else {
            self.first_setting()
        }) {
            Some(p) => self.visible@[p],
            None => self.selected,
        }
    }

    /// Move the focus by one selectable row, in the direction of `delta`.
    /// Returns whether it moved. The focus lands only on setting rows and
    /// stays put at either end.
    pub fn step(&mut self, delta: isize) -> (moved: bool)
        requires
            old(self).wf(),
            delta != 0,
        ensures
            final(self).wf(),
            match next_setting(
                old(self).rows@,
                old(self).visible@,
                old(self).step_start(delta as int),
                delta as int,
            ) {
                Some(p) => final(self).selected == old(self).visible@[p] && moved == (old(self).selected != old(self).visible@[p]),
                None => final(self).selected == old(self).selected && !moved,
            },
            *final(self) == (PiSettingsState { selected: old(self).stepped(delta as int), ..*old(self) }),
            moved == (old(self).stepped(delta as int) != old(self).selected),
            final(self).rows == old(self).rows,
            final(self).visible == old(self).visible,
            final(self).query == old(self).query,
            final(self).mode == old(self).mode,
            final(self).registry == old(self).registry,
            final(self).values == old(self).values,
            final(self).pager_snapshot == old(self).pager_snapshot,
            final(self).gates == old(self).gates,
            final(self).hover == old(self).hover,
            final(self).close_on_picker_exit == old(self).close_on_picker_exit,
    {
        proof {
            lemma_visible_wf(self);
        }
        let start: i128 = match self.position_of(self.selected) {
            Some(p) => {
                proof {
                    lemma_position_unique(self.visible@, self.selected, p as int);
                }
                p as i128 + delta as i128
            },
            None => if delta > 0 {
                0
            } else {
                self.visible.len() as i128 - 1
            },
        };
        match self.find_setting_from(start, delta) {
            Some(p) => {
                let row = self.visible[p];
                let moved = self.selected != row;
                self.selected = row;
                moved
            },
            None => false,
        }
    }

    /// Focus the first (`delta <= 0`) or last (`delta > 0`) selectable row.
    pub fn jump_end(&mut self, delta: isize) -> (moved: bool)
        requires
            old(self).wf(),
        ensures
            final(self).wf(),
            match (if delta > 0 {
                next_setting(old(self).rows@, old(self).visible@, old(self).visible@.len() - 1, -1)
            } else {
                old(self).first_setting()
            }) {
                Some(p) => final(self).selected == old(self).visible@[p] && moved == (old(self).selected != old(self).visible@[p]),
                None => final(self).selected == old(self).selected && !moved,
            },
            *final(self) == (PiSettingsState { selected: old(self).end_target(delta as int), ..*old(self) }),
            moved == (old(self).end_target(delta as int) != old(self).selected),
            final(self).rows == old(self).rows,
            final(self).visible == old(self).visible,
            final(self).query == old(self).query,
            final(self).mode == old(self).mode,
            final(self).registry == old(self).registry,
            final(self).values == old(self).values,
            final(self).pager_snapshot == old(self).pager_snapshot,
            final(self).gates == old(self).gates,
            final(self).hover == old(self).hover,
            final(self).close_on_picker_exit == old(self).close_on_picker_exit,
    {
        let target = if delta > 0 {
            self.find_setting_from(self.visible.len() as i128 - 1, -1)
        } else {
            self.find_setting_from(0, 1)
        };
        match target {
            Some(p) => {
                let row = self.visible[p];
                if row != self.selected {
                    self.selected = row;
                    true
                } else {
                    false
                }
            },
            None => false,
        }
    }

    /// Focus row `row` when it is a setting. Returns whether the focus moved.
    pub fn select_row(&mut self, row: usize) -> (moved: bool)
        requires
            old(self).wf(),
        ensures
            final(self).wf(),
            moved == (row < old(self).rows@.len() && old(self).rows@[row as int] is Setting && old(self).selected != row),
            moved ==> final(self).selected == row,
            !moved ==> final(self).selected == old(self).selected,
            moved ==> *final(self) == (PiSettingsState { selected: row, ..*old(self) }),
            !moved ==> *final(self) == *old(self),
            final(self).rows == old(self).rows,
            final(self).visible == old(self).visible,
            final(self).query == old(self).query,
            final(self).mode == old(self).mode,
            final(self).registry == old(self).registry,
            final(self).values == old(self).values,
            final(self).pager_snapshot == old(self).pager_snapshot,
            final(self).gates == old(self).gates,
            final(self).hover == old(self).hover,
            final(self).close_on_picker_exit == old(self).close_on_picker_exit,
    {
        if row < self.rows.len() && self.rows[row].is_setting() && self.selected != row {
            self.selected = row;
            true
        } else {
            false
        }
    }

    /// Index of the first row showing setting `key`.
    pub fn row_of_key(&self, key: &str) -> (r: Option<usize>)
        ensures
            match r {
                Some(i) => first_row_of(self.rows@, key@) == Some(i as int),
                None => first_row_of(self.rows@, key@) is None,
            },
    {
        let mut i: usize = 0;
        assert(self.rows@.skip(0) =~= self.rows@);
        while i < self.rows.len()
            invariant
                i <= self.rows@.len(),
                first_row_of(self.rows@, key@) == match first_row_of(self.rows@.skip(i as int), key@) {
                    Some(j) => Some(j + i),
                    None => None,
                },
            decreases self.rows.len() - i,
        {
            assert(self.rows@.skip(i as int).skip(1) =~= self.rows@.skip(i + 1));
            match row_key(&self.rows[i]) {
                Some(k) => {
                    if str_eq(k, key) {
                        return Some(i);
                    }
                },
                None => {},
            }
            i = i + 1;
        }
        None
    }

    /// Focus a setting by key. Returns whether the key has a row. A row the
    /// query filters out gives way to the first visible setting.
    pub fn focus_key(&mut self, key: &str) -> (found: bool)
        requires
            old(self).wf(),
        ensures
            final(self).wf(),
            found == first_row_of(old(self).rows@, key@) is Some,
            match first_row_of(old(self).rows@, key@) {
                Some(idx) => if old(self).visible@.len() == 0 || old(self).visible@.contains(
                    idx as usize,
                ) {
                    final(self).selected == idx
                } else {
                    match old(self).first_setting() {
                        Some(p) => final(self).selected == old(self).visible@[p],
                        None => final(self).selected == idx,
                    }
                },
                None => final(self).selected == old(self).selected,
            },
            final(self).rows == old(self).rows,
            final(self).visible == old(self).visible,
            final(self).query == old(self).query,
            final(self).mode == old(self).mode,
            final(self).registry == old(self).registry,
            final(self).values == old(self).values,
            final(self).pager_snapshot == old(self).pager_snapshot,
            final(self).gates == old(self).gates,
            final(self).hover == old(self).hover,
            final(self).close_on_picker_exit == old(self).close_on_picker_exit,
    {
        match self.row_of_key(key) {
            Some(idx) => {
                self.selected = idx;
                self.clamp_selection();
                true
            },
            None => false,
        }
    }

    // -- Mode transitions ---------------------------------------------------
    /// Back to Browse, dropping sub-pane state.
    pub fn to_browse(&mut self)
        requires
            old(self).wf(),
        ensures
            final(self).wf(),
            final(self).mode is Browse,
            final(self).hover is None,
            !final(self).close_on_picker_exit,
            final(self).choice_rects@.len() == 0,
            final(self).rows == old(self).rows,
            final(self).visible == old(self).visible,
            final(self).selected == old(self).selected,
            final(self).query == old(self).query,
            final(self).registry == old(self).registry,
            final(self).values == old(self).values,
            final(self).pager_snapshot == old(self).pager_snapshot,
            final(self).gates == old(self).gates,
    {
        self.mode = Mode::Browse;
        self.hover = None;
        self.choice_rects = Vec::new();
        self.stepper_rects = (Rect::zero(), Rect::zero());
        self.close_on_picker_exit = false;
    }

    /// Into Search mode.
    pub fn to_search(&mut self)
        requires
            old(self).wf(),
        ensures
            final(self).wf(),
            final(self).mode is Search,
            final(self).rows == old(self).rows,
            final(self).visible == old(self).visible,
            final(self).selected == old(self).selected,
            final(self).query == old(self).query,
            final(self).registry == old(self).registry,
            final(self).values == old(self).values,
            final(self).pager_snapshot == old(self).pager_snapshot,
            final(self).gates == old(self).gates,
            final(self).hover == old(self).hover,
            final(self).close_on_picker_exit == old(self).close_on_picker_exit,
    {
        self.mode = Mode::Search;
    }

    /// Seed the query directly, then filter and keep the focus visible.
    pub fn set_query(&mut self, text: &str)
        requires
            old(self).wf(),
        ensures
            final(self).wf(),
            final(self).query.text@ == text@,
            final(self).rows == old(self).rows,
            final(self).mode == old(self).mode,
            final(self).registry == old(self).registry,
            final(self).values == old(self).values,
    {
        self.query.set_text(text);
        self.refresh_visible();
        self.clamp_selection();
    }
}

/// A well-formed panel's visible rows are in range and increasing.
pub proof fn lemma_visible_wf(s: &PiSettingsState)
    requires
        s.wf(),
    ensures
        visible_wf(s.visible@, s.rows@.len()),
{
    if s.spec_query().len() > 0 {
        lemma_scan_wf(s.rows@, s.registry.entries@, s.spec_query(), s.rows@.len());
    }
}

/// In an increasing sequence, a value's position is unique.
pub proof fn lemma_position_unique(vis: Seq<usize>, x: usize, p: int)
    requires
        forall|k: int, l: int| 0 <= k < l < vis.len() ==> vis[k] < vis[l],
        0 <= p < vis.len(),
        vis[p] == x,
    ensures
        spec_position(vis, x) == Some(p),
{
    assert(vis.contains(x));
    let q = choose|k: int| 0 <= k < vis.len() && vis[k] == x;
    if q < p {
        assert(vis[q] < vis[p]);
    }
    if p < q {
        assert(vis[p] < vis[q]);
    }
}

/// What `next_setting` finds: a position in range showing a setting row,
/// on the side of the start that `delta` points to; stepping one row at a
/// time, no setting row lies between the start and it, and when it finds
/// nothing there is no setting row from the start to that end.
pub proof fn lemma_next_setting(rows: Seq<Row>, vis: Seq<usize>, cursor: int, delta: int)
    ensures
        next_setting(rows, vis, cursor, delta) matches Some(p) ==> 0 <= p < vis.len() && rows[vis[p] as int] is Setting
            && (delta > 0 ==> cursor <= p) && (delta < 0 ==> p <= cursor),
        next_setting(rows, vis, cursor, delta) matches Some(p) ==> (delta == 1 ==> forall|k: int|
            cursor <= k < p ==> !(rows[#[trigger] vis[k] as int] is Setting)) && (delta == -1
            ==> forall|k: int| p < k <= cursor ==> !(rows[#[trigger] vis[k] as int] is Setting)),
        next_setting(rows, vis, cursor, delta) is None ==> (delta == 1 && 0 <= cursor ==> forall|
            k: int,
        | cursor <= k < vis.len() ==> !(rows[#[trigger] vis[k] as int] is Setting)) && (delta == -1
            && cursor < vis.len() ==> forall|k: int|
            0 <= k <= cursor ==> !(rows[#[trigger] vis[k] as int] is Setting)),
    decreases (if delta > 0 {
        vis.len() - cursor
    } else {
        cursor + 1
    }),
{
    if delta != 0 && 0 <= cursor < vis.len() && !(rows[vis[cursor] as int] is Setting) && !(
    cursor + delta < 0 || cursor + delta >= vis.len()) {
        lemma_next_setting(rows, vis, cursor + delta, delta);
    }
}

} // verus!
