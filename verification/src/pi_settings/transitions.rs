//! Choices, sub-pane openers and the actions the focused row leads to.
use vstd::prelude::*;
use crate::commands::{opt_action_view, Action, ActionView};
use crate::decimal::{dec_text, i64_text};
use crate::pi_settings::actions::{
    action_for_bool, action_for_enum_commit, action_for_int, action_for_string,
    side_model_picker_action, spec_bool_action_with, spec_enum_commit, spec_int_action,
    spec_is_side_model_slot, spec_string_action, spec_validate, validate_string,
};
use crate::pi_settings::editor::LineEditor;
use crate::pi_settings::keys::Rect;
use crate::pi_settings::rows::{build_rows, row_key, rows_wf, spec_row_key, Row, RuntimeGates};
use crate::pi_settings::state::{
    copy_value, first_row_of, lemma_visible_wf, next_setting, spec_value_of, Mode, PiSettingsState,
};
use crate::settings::registry::{
    opt_view, spec_default_value, EnumChoice, OwnedEnumChoice, SettingKind, SettingMeta,
    SettingValue, ValueView,
};
use crate::text::{chars_of, str_eq, string_of};

verus! {

/// A choice's canonical name, display label and description.
pub open spec fn choice_view(c: EnumChoice) -> (Seq<char>, Seq<char>, Seq<char>) {
    (c.canonical@, c.display@, c.description@)
}

/// An owned choice's canonical name, display label and description.
pub open spec fn owned_view(c: OwnedEnumChoice) -> (Seq<char>, Seq<char>, Seq<char>) {
    (c.canonical@, c.display@, c.description@)
}

/// Choices the setter would silently ignore: the Auto permission mode
/// without its gate, and hold-to-talk without key-release reporting.
pub open spec fn spec_choice_gated_off(
    key: Seq<char>,
    canonical: Seq<char>,
    auto_mode_gate: bool,
    kitty_releases: bool,
) -> bool {
    (key == "permission_mode"@ && canonical == "auto"@ && !auto_mode_gate) || (key
        == "voice_capture_mode"@ && canonical == "hold"@ && !kitty_releases)
}

/// Whether `(key, canonical)` is gated off and must not be offered.
pub fn choice_gated_off(key: &str, canonical: &str, auto_mode_gate: bool, kitty_releases: bool) -> (r:
    bool)
    ensures
        r == spec_choice_gated_off(key@, canonical@, auto_mode_gate, kitty_releases),
{
    (str_eq(key, "permission_mode") && str_eq(canonical, "auto") && !auto_mode_gate) || (str_eq(
        key,
        "voice_capture_mode",
    ) && str_eq(canonical, "hold") && !kitty_releases)
}

/// The choices of `choices` that are not gated off, in order.
pub open spec fn enabled_choices(
    choices: Seq<EnumChoice>,
    key: Seq<char>,
    auto_mode_gate: bool,
    kitty_releases: bool,
) -> Seq<EnumChoice>
    decreases choices.len(),
{
    if choices.len() == 0 {
        Seq::empty()
    } else {
        let rest = enabled_choices(choices.drop_last(), key, auto_mode_gate, kitty_releases);
        if spec_choice_gated_off(key, choices.last().canonical@, auto_mode_gate, kitty_releases) {
            rest
        } else {
            rest.push(choices.last())
        }
    }
}

/// A copy of `c`.
pub fn copy_choice(c: &OwnedEnumChoice) -> (r: OwnedEnumChoice)
    ensures
        owned_view(r) == owned_view(*c),
{
    OwnedEnumChoice {
        canonical: c.canonical.clone(),
        display: c.display.clone(),
        description: c.description.clone(),
    }
}

/// The first position of `x` in `s`.
pub open spec fn first_index(s: Seq<Seq<char>>, x: Seq<char>) -> Option<int>
    decreases s.len(),
{
    if s.len() == 0 {
        None
    } else if s[0] == x {
        Some(0)
    } else {
        match first_index(s.skip(1), x) {
            Some(j) => Some(j + 1),
            None => None,
        }
    }
}

/// The canonical names of a list of choice views.
pub open spec fn view_canonicals(s: Seq<(Seq<char>, Seq<char>, Seq<char>)>) -> Seq<Seq<char>> {
    s.map_values(|c: (Seq<char>, Seq<char>, Seq<char>)| c.0)
}

/// Where a chooser opens: on the live value's choice. An Enum value that
/// matches no choice opens on the first. A DynamicEnum value that no
/// longer resolves opens on the first real choice rather than the leading
/// "(no override)" entry, so Enter cannot silently clear it.
pub open spec fn chooser_index(
    cans: Seq<Seq<char>>,
    current: Option<ValueView>,
    is_dynamic: bool,
) -> int {
    let fallback = if is_dynamic && cans.len() > 1 {
        1int
    } else {
        0int
    };
    match current {
        Some(ValueView::Enum(c)) => match first_index(cans, c) {
            Some(i) => i,
            None => 0,
        },
        Some(ValueView::String(c)) => if c.len() > 0 {
            match first_index(cans, c) {
                Some(i) => i,
                None => fallback,
            }
        } else {
            0
        },
        _ => 0,
    }
}

fn position_in(choices: &Vec<OwnedEnumChoice>, x: &str) -> (r: Option<usize>)
    ensures
        match r {
            Some(i) => first_index(choices@.map_values(|c: OwnedEnumChoice| c.canonical@), x@)
                == Some(i as int) && i < choices@.len(),
            None => first_index(choices@.map_values(|c: OwnedEnumChoice| c.canonical@), x@) is None,
        },
{
    let ghost cans = choices@.map_values(|c: OwnedEnumChoice| c.canonical@);
    let mut i: usize = 0;
    assert(cans.skip(0) =~= cans);
    while i < choices.len()
        invariant
            i <= choices@.len(),
            cans == choices@.map_values(|c: OwnedEnumChoice| c.canonical@),
            first_index(cans, x@) == match first_index(cans.skip(i as int), x@) {
                Some(j) => Some(j + i),
                None => None,
            },
        decreases choices.len() - i,
    {
        assert(cans.skip(i as int).skip(1) =~= cans.skip(i + 1));
        assert(cans.skip(i as int)[0] == choices@[i as int].canonical@);
        if str_eq(choices[i].canonical.as_str(), x) {
            return Some(i);
        }
        i = i + 1;
    }
    assert(cans.skip(i as int).len() == 0);
    None
}

impl PiSettingsState {
    /// The choices offered for `key`: an Enum's static choices minus the
    /// gated-off ones, a DynamicEnum's live catalog, nothing otherwise.
    pub open spec fn spec_choices(&self, key: Seq<char>) -> Seq<(Seq<char>, Seq<char>, Seq<char>)> {
        match self.registry.find_spec(key) {
            Some(i) => match self.registry.entries@[i].kind {
                SettingKind::Enum { choices, .. } => enabled_choices(
                    choices@,
                    key,
                    self.pager_snapshot.auto_mode_gate,
                    self.gates.kitty_releases,
                ).map_values(|c: EnumChoice| choice_view(c)),
                SettingKind::DynamicEnum { .. } => self.pager_snapshot.model_choices@.map_values(
                    |c: OwnedEnumChoice| owned_view(c),
                ),
                _ => Seq::empty(),
            },
            None => Seq::empty(),
        }
    }

    /// Enum choices for a key, with gated-off options removed. Covers static
    /// Enum catalogs and the runtime DynamicEnum catalog.
    pub fn choices_for(&self, key: &str) -> (r: Vec<OwnedEnumChoice>)
        ensures
            r@.map_values(|c: OwnedEnumChoice| owned_view(c)) == self.spec_choices(key@),
    {
        let pos = self.registry.position(key);
        match pos {
            Some(i) => match &self.registry.entries[i].kind {
                SettingKind::Enum { choices, .. } => {
                    let mut out: Vec<OwnedEnumChoice> = Vec::new();
                    let mut j: usize = 0;
                    while j < choices.len()
                        invariant
                            j <= choices@.len(),
                            out@.map_values(|c: OwnedEnumChoice| owned_view(c)) == enabled_choices(
                                choices@.take(j as int),
                                key@,
                                self.pager_snapshot.auto_mode_gate,
                                self.gates.kitty_releases,
                            ).map_values(|c: EnumChoice| choice_view(c)),
                        decreases choices.len() - j,
                    {
                        let c = choices[j];
                        assert(choices@.take(j + 1).drop_last() =~= choices@.take(j as int));
                        assert(choices@.take(j + 1).last() == c);
                        if !choice_gated_off(
                            key,
                            c.canonical,
                            self.pager_snapshot.auto_mode_gate,
                            self.gates.kitty_releases,
                        ) {
                            let ghost before = out@;
                            out.push(
                                OwnedEnumChoice {
                                    canonical: c.canonical.to_owned(),
                                    display: c.display.to_owned(),
                                    description: c.description.to_owned(),
                                },
                            );
                            assert(out@.map_values(|c: OwnedEnumChoice| owned_view(c)) =~= before.map_values(
                                |c: OwnedEnumChoice| owned_view(c),
                            ).push(choice_view(c)));
                        }
                        j = j + 1;
                    }
                    assert(choices@.take(choices@.len() as int) =~= choices@);
                    out
                },
                SettingKind::DynamicEnum { .. } => {
                    let src = &self.pager_snapshot.model_choices;
                    let mut out: Vec<OwnedEnumChoice> = Vec::new();
                    let mut j: usize = 0;
                    while j < src.len()
                        invariant
                            j <= src@.len(),
                            out@.map_values(|c: OwnedEnumChoice| owned_view(c)) =~= src@.take(
                                j as int,
                            ).map_values(|c: OwnedEnumChoice| owned_view(c)),
                        decreases src.len() - j,
                    {
                        let ghost before = out@;
                        out.push(copy_choice(&src[j]));
                        assert(out@.map_values(|c: OwnedEnumChoice| owned_view(c)) =~= before.map_values(
                            |c: OwnedEnumChoice| owned_view(c),
                        ).push(owned_view(src@[j as int])));
                        assert(src@.take(j + 1) =~= src@.take(j as int).push(src@[j as int]));
                        assert(src@.take(j + 1).map_values(|c: OwnedEnumChoice| owned_view(c)) =~= src@.take(
                            j as int,
                        ).map_values(|c: OwnedEnumChoice| owned_view(c)).push(owned_view(src@[j as int])));
                        j = j + 1;
                    }
                    assert(src@.take(src@.len() as int) =~= src@);
                    out
                },
                _ => Vec::new(),
            },
            None => Vec::new(),
        }
    }

    /// Children of a Group setting, or none for other kinds.
    pub fn group_children(&self, key: &str) -> (r: Vec<&'static str>)
        ensures
            match self.registry.find_spec(key@) {
                Some(i) => match self.registry.entries@[i].kind {
                    SettingKind::Group { children } => r@ == children@,
                    _ => r@.len() == 0,
                },
                None => r@.len() == 0,
            },
    {
        match self.registry.position(key) {
            Some(i) => match &self.registry.entries[i].kind {
                SettingKind::Group { children } => {
                    let mut out: Vec<&'static str> = Vec::new();
                    let mut j: usize = 0;
                    while j < children.len()
                        invariant
                            j <= children@.len(),
                            out@ =~= children@.take(j as int),
                        decreases children.len() - j,
                    {
                        out.push(children[j]);
                        j = j + 1;
                    }
                    assert(children@.take(children@.len() as int) =~= children@);
                    out
                },
                _ => Vec::new(),
            },
            None => Vec::new(),
        }
    }

    /// The focused setting's key and registry entry, when the focus is on a
    /// setting row.
    pub open spec fn spec_focused(&self) -> Option<(Seq<char>, SettingMeta)> {
        if self.selected < self.rows@.len() && self.rows@[self.selected as int] is Setting {
            Some(
                (
                    self.rows@[self.selected as int]->key@,
                    self.registry.entries@[self.rows@[self.selected as int]->meta as int],
                ),
            )
        } else {
            None
        }
    }

    /// The focused setting's registry entry (meaningful when the focus is on
    /// a setting).
    pub open spec fn spec_focused_meta(&self) -> SettingMeta {
        match self.spec_focused() {
            Some((_, m)) => m,
            None => arbitrary(),
        }
    }

    /// The focused setting's key.
    pub open spec fn spec_focused_key(&self) -> Option<Seq<char>> {
        match self.spec_focused() {
            Some((k, _)) => Some(k),
            None => None,
        }
    }

    /// The action that flips the focused Bool row.
    pub open spec fn spec_toggle(&self) -> Option<ActionView> {
        match self.spec_focused() {
            Some((key, meta)) => if meta.kind is Bool {
                match spec_value_of(self.values@, key) {
                    Some(ValueView::Bool(b)) => spec_bool_action_with(
                        self.pager_snapshot.host_features@,
                        key,
                        !b,
                    ),
                    _ => None,
                }
            } else {
                None
            },
            None => None,
        }
    }

    /// Build the action that flips the focused Bool row; `None` for other
    /// rows, or when the row's value is not a Bool.
    pub fn toggle_focused_bool(&self) -> (r: Option<Action>)
        requires
            self.wf(),
        ensures
            opt_action_view(r) == self.spec_toggle(),
    {
        let (key, meta) = match self.focused() {
            Some(f) => f,
            None => return None,
        };
        match meta.kind {
            SettingKind::Bool { .. } => {},
            _ => return None,
        }
        let current = match self.value_of(key) {
            Some(SettingValue::Bool(b)) => b,
            _ => return None,
        };
        action_for_bool(key, !current, &self.pager_snapshot.host_features)
    }

    /// The action that resets `key` to its registered default.
    pub open spec fn spec_reset(&self, key: Seq<char>) -> Option<ActionView> {
        match self.registry.find_spec(key) {
            Some(i) => match spec_default_value(self.registry.entries@[i].kind) {
                Some(ValueView::Bool(b)) => spec_bool_action_with(
                    self.pager_snapshot.host_features@,
                    key,
                    b,
                ),
                Some(ValueView::Enum(c)) => spec_enum_commit(key, c),
                Some(ValueView::String(t)) => spec_string_action(
                    self.pager_snapshot.available_models@,
                    key,
                    t,
                ),
                Some(ValueView::Int(v)) => spec_int_action(key, v),
                _ => None,
            },
            None => None,
        }
    }

    /// The action that resets `key` to its registered default.
    pub fn reset_action(&self, key: &str) -> (r: Option<Action>)
        ensures
            opt_action_view(r) == self.spec_reset(key@),
    {
        match self.default_of(key) {
            Some(SettingValue::Bool(b)) => action_for_bool(key, b, &self.pager_snapshot.host_features),
            Some(SettingValue::Enum(canonical)) => action_for_enum_commit(key, canonical.as_str()),
            Some(SettingValue::String(text)) => action_for_string(key, text, &self.pager_snapshot),
            Some(SettingValue::Int(v)) => action_for_int(key, v),
            _ => None,
        }
    }

    /// Open the sub-sheet of the focused Group row. Returns `false`, leaving
    /// everything as it was, for any other row.
    pub fn open_group(&mut self) -> (opened: bool)
        requires
            old(self).wf(),
        ensures
            final(self).wf(),
            opened == (old(self).spec_focused() matches Some((_, m)) && m.kind is Group),
            opened ==> (final(self).mode matches Mode::PickingGroup { key, child } && Some(key@)
                == old(self).spec_focused_key() && child == 0),
            opened ==> final(self).hover is None,
            !opened ==> final(self).mode == old(self).mode,
            final(self).rows == old(self).rows,
            final(self).visible == old(self).visible,
            final(self).selected == old(self).selected,
            final(self).query == old(self).query,
            final(self).registry == old(self).registry,
            final(self).values == old(self).values,
            final(self).pager_snapshot == old(self).pager_snapshot,
            final(self).gates == old(self).gates,
            final(self).close_on_picker_exit == old(self).close_on_picker_exit,
    {
        let (key, is_group) = match self.focused() {
            Some((key, meta)) => (
                key,
                match meta.kind {
                    SettingKind::Group { .. } => true,
                    _ => false,
                },
            ),
            None => return false,
        };
        if !is_group {
            return false;
        }
        self.mode = Mode::PickingGroup { key, child: 0 };
        self.hover = None;
        true
    }

    /// The value a chooser starts from: the live value, or else the first
    /// choice.
    pub open spec fn chooser_original(&self, key: Seq<char>, kind: SettingKind) -> ValueView {
        match spec_value_of(self.values@, key) {
            Some(v) => v,
            None => match kind {
                SettingKind::Enum { choices, .. } => ValueView::Enum(
                    if choices@.len() > 0 {
                        choices@[0].canonical@
                    } else {
                        Seq::empty()
                    },
                ),
                _ => ValueView::String(
                    if self.spec_choices(key).len() > 0 {
                        self.spec_choices(key)[0].0
                    } else {
                        Seq::empty()
                    },
                ),
            },
        }
    }

    /// Whether Enter on the focused row opens the chooser: an Enum or
    /// DynamicEnum row that is not locked and is not a side-model slot.
    pub open spec fn spec_can_choose(&self) -> bool {
        match self.spec_focused() {
            Some((key, meta)) => self.spec_lock(key) is None && !spec_is_side_model_slot(key) && (
            meta.kind is Enum || meta.kind is DynamicEnum),
            None => false,
        }
    }

    /// Open the chooser for the focused Enum / DynamicEnum row, on the live
    /// value. Returns `false`, leaving everything as it was, for any other
    /// row, a locked row, or a side-model slot (those use the model picker).
    pub fn open_chooser(&mut self) -> (opened: bool)
        requires
            old(self).wf(),
        ensures
            final(self).wf(),
            opened == old(self).spec_can_choose(),
            opened ==> (final(self).mode matches Mode::Picking {
                key,
                index,
                original,
                supports_preview,
                scroll,
            } && Some(key@) == old(self).spec_focused_key() && scroll == 0 && index
                == chooser_index(
                view_canonicals(old(self).spec_choices(key@)),
                spec_value_of(old(self).values@, key@),
                old(self).spec_focused_meta().kind is DynamicEnum,
            ) && original@ == old(self).chooser_original(key@, old(self).spec_focused_meta().kind)
                && supports_preview == match old(self).spec_focused_meta().kind {
                SettingKind::Enum { supports_preview, .. } => supports_preview,
                SettingKind::DynamicEnum { supports_preview, .. } => supports_preview,
                _ => false,
            }),
            opened ==> final(self).hover is None,
            !opened ==> final(self).mode == old(self).mode && final(self).hover == old(self).hover,
            final(self).rows == old(self).rows,
            final(self).visible == old(self).visible,
            final(self).selected == old(self).selected,
            final(self).query == old(self).query,
            final(self).registry == old(self).registry,
            final(self).values == old(self).values,
            final(self).pager_snapshot == old(self).pager_snapshot,
            final(self).gates == old(self).gates,
            final(self).close_on_picker_exit == old(self).close_on_picker_exit,
    {
        let (key, meta) = match self.focused() {
            Some(f) => f,
            None => return false,
        };
        if self.lock(key).is_some() {
            return false;
        }
        if side_model_picker_action(key).is_some() {
            return false;
        }
        let (supports_preview, is_dynamic) = match &meta.kind {
            SettingKind::Enum { supports_preview, .. } => (*supports_preview, false),
            SettingKind::DynamicEnum { supports_preview, .. } => (*supports_preview, true),
            _ => return false,
        };
        let first_static: &'static str = match &meta.kind {
            SettingKind::Enum { choices, .. } => if choices.len() > 0 {
                choices[0].canonical
            } else {
                ""
            },
            _ => "",
        };
        let ghost kind = meta.kind;
        let choices = self.choices_for(key);
        let current = self.value_of(key);
        proof {
            assert(view_canonicals(choices@.map_values(|c: OwnedEnumChoice| owned_view(c)))
                =~= choices@.map_values(|c: OwnedEnumChoice| c.canonical@));
        }
        let unknown_fallback: usize = if is_dynamic && choices.len() > 1 {
            1
        } else {
            0
        };
        let index: usize = match &current {
            Some(SettingValue::Enum(cur)) => match position_in(&choices, cur.as_str()) {
                Some(i) => i,
                None => 0,
            },
            Some(SettingValue::String(cur)) => if chars_of(cur.as_str()).len() > 0 {
                match position_in(&choices, cur.as_str()) {
                    Some(i) => i,
                    None => unknown_fallback,
                }
            } else {
                0
            },
            _ => 0,
        };
        let original = match current {
            Some(v) => v,
            None => if is_dynamic {
                if choices.len() > 0 {
                    SettingValue::String(choices[0].canonical.clone())
                } else {
                    SettingValue::String(String::new())
                }
            } else {
                proof {
                    reveal_strlit("");
                }
                SettingValue::Enum(first_static.to_owned())
            },
        };
        proof {
            if !is_dynamic && choices@.len() == 0 {
                reveal_strlit("");
            }
        }
        self.mode = Mode::Picking { key, index, original, supports_preview, scroll: 0 };
        self.hover = None;
        true
    }

    /// The text a String editor opens with: the live value, or else the
    /// registered default.
    pub open spec fn editor_text(&self, key: Seq<char>, default: Seq<char>) -> Seq<char> {
        match spec_value_of(self.values@, key) {
            Some(ValueView::String(t)) => t,
            _ => default,
        }
    }

    /// The value an Int stepper opens with: the live value, or else the
    /// registered default.
    pub open spec fn stepper_value(&self, key: Seq<char>, default: i64) -> i64 {
        match spec_value_of(self.values@, key) {
            Some(ValueView::Int(v)) => v,
            _ => default,
        }
    }

    /// Open the inline editor for the focused String or Int row. Returns
    /// `false`, leaving everything as it was, for any other row.
    pub fn open_editor(&mut self) -> (opened: bool)
        requires
            old(self).wf(),
        ensures
            final(self).wf(),
            opened == (old(self).spec_focused() matches Some((_, m)) && (m.kind is String
                || m.kind is Int)),
            opened ==> match old(self).spec_focused_meta().kind {
                SettingKind::String { default, validator } => final(self).mode matches Mode::EditingString {
                    key,
                    editor,
                    validator: v,
                    error,
                } && Some(key@) == old(self).spec_focused_key() && v == validator && editor.text@
                    == old(self).editor_text(key@, default@) && match error {
                    Some(e) => spec_validate(
                        validator,
                        editor.text@,
                        old(self).pager_snapshot.available_models@,
                    ) == Some(e@),
                    None => spec_validate(
                        validator,
                        editor.text@,
                        old(self).pager_snapshot.available_models@,
                    ) is None,
                },
                SettingKind::Int { default, min, max } => final(self).mode matches Mode::EditingInt {
                    key,
                    buffer,
                    min: lo,
                    max: hi,
                } && Some(key@) == old(self).spec_focused_key() && lo == min && hi == max
                    && buffer@ == dec_text(old(self).stepper_value(key@, default) as int),
                _ => false,
            },
            opened ==> final(self).hover is None,
            !opened ==> final(self).mode == old(self).mode && final(self).hover == old(self).hover,
            final(self).rows == old(self).rows,
            final(self).visible == old(self).visible,
            final(self).selected == old(self).selected,
            final(self).query == old(self).query,
            final(self).registry == old(self).registry,
            final(self).values == old(self).values,
            final(self).pager_snapshot == old(self).pager_snapshot,
            final(self).gates == old(self).gates,
            final(self).close_on_picker_exit == old(self).close_on_picker_exit,
    {
        let (key, meta) = match self.focused() {
            Some(f) => f,
            None => return false,
        };
        proof {
            let i = self.rows@[self.selected as int]->meta as int;
            assert(self.registry.entries@[i].wf());
        }
        let value = self.value_of(key);
        match &meta.kind {
            SettingKind::String { default, validator } => {
                let validator = *validator;
                let mut editor = LineEditor::new();
                match value {
                    Some(SettingValue::String(text)) => editor.set_text(text.as_str()),
                    _ => editor.set_text(default),
                }
                let text = editor.text_string();
                let error = validate_string(
                    validator,
                    text.as_str(),
                    &self.pager_snapshot.available_models,
                );
                self.mode = Mode::EditingString { key, editor, validator, error };
            },
            SettingKind::Int { default, min, max } => {
                let v: i64 = match value {
                    Some(SettingValue::Int(v)) => v,
                    _ => *default,
                };
                let buffer = string_of(&i64_text(v));
                self.mode = Mode::EditingInt { key, buffer, min: *min, max: *max };
            },
            _ => return false,
        }
        self.hover = None;
        true
    }

    /// Reset hit-test geometry so mouse handlers degrade gracefully when a
    /// render is skipped. Hover survives.
    pub fn reset_hit_rects(&mut self)
        ensures
            final(self).list_area == Rect::spec_zero(),
            final(self).row_rects@.len() == 0,
            final(self).value_rects@.len() == 0,
            final(self).choice_rects@.len() == 0,
            final(self).stepper_rects == (Rect::spec_zero(), Rect::spec_zero()),
            final(self).hover == old(self).hover,
            final(self).mode == old(self).mode,
            final(self).rows == old(self).rows,
            final(self).visible == old(self).visible,
            final(self).selected == old(self).selected,
            final(self).scroll == old(self).scroll,
            final(self).query == old(self).query,
            final(self).registry == old(self).registry,
            final(self).values == old(self).values,
            final(self).pager_snapshot == old(self).pager_snapshot,
            final(self).gates == old(self).gates,
            final(self).close_on_picker_exit == old(self).close_on_picker_exit,
    {
        self.list_area = Rect::zero();
        self.row_rects = Vec::new();
        self.value_rects = Vec::new();
        self.choice_rects = Vec::new();
        self.stepper_rects = (Rect::zero(), Rect::zero());
    }

    /// The Int stepper's text, when it is open.
    pub fn mode_int_buffer(&self) -> (r: Option<String>)
        ensures
            match self.mode {
                Mode::EditingInt { buffer, .. } => r matches Some(b) && b@ == buffer@,
                _ => r is None,
            },
    {
        match &self.mode {
            Mode::EditingInt { buffer, .. } => Some(buffer.clone()),
            _ => None,
        }
    }

    /// Rebuild the row table after a runtime gate flips. The focused setting
    /// keeps the focus when it still has a row the query shows; a sub-pane
    /// whose setting vanished closes.
    pub fn rebuild_rows(&mut self, gates: RuntimeGates)
        requires
            old(self).wf(),
        ensures
            final(self).wf(),
            final(self).gates == gates,
            crate::pi_settings::rows::page_laid_out(final(self).rows@, old(self).registry.entries@, gates),
            match old(self).mode.spec_subject() {
                Some(k) => if first_row_of(final(self).rows@, k) is None {
                    final(self).mode is Browse
                } else {
                    final(self).mode == old(self).mode
                },
                None => final(self).mode == old(self).mode,
            },
            match (match old(self).spec_focused_key() {
                Some(k) => first_row_of(final(self).rows@, k),
                None => None,
            }) {
                Some(idx) => if final(self).visible@.len() == 0 || final(self).visible@.contains(
                    idx as usize,
                ) {
                    final(self).selected == idx
                } else {
                    match next_setting(final(self).rows@, final(self).visible@, 0, 1) {
                        Some(p) => final(self).selected == final(self).visible@[p],
                        None => final(self).selected == idx,
                    }
                },
                None => match next_setting(final(self).rows@, final(self).visible@, 0, 1) {
                    Some(p) => final(self).selected == final(self).visible@[p],
                    None => final(self).selected == old(self).selected,
                },
            },
            final(self).query == old(self).query,
            final(self).registry == old(self).registry,
            final(self).values == old(self).values,
            final(self).pager_snapshot == old(self).pager_snapshot,
    {
        let previous_key: Option<&'static str> = match self.focused() {
            Some((k, _)) => Some(k),
            None => None,
        };
        let sub_pane_key = self.mode.subject();
        self.gates = gates;
        self.rows = build_rows(&self.registry, &gates);
        // Reading the length records that the table fits in memory.
        let _row_count = self.rows.len();
        self.refresh_visible();
        match sub_pane_key {
            Some(k) => {
                if self.row_of_key(k).is_none() {
                    self.to_browse();
                }
            },
            None => {},
        }
        let target = match previous_key {
            Some(k) => self.row_of_key(k),
            None => None,
        };
        match target {
            Some(idx) => {
                self.selected = idx;
            },
            None => self.select_first_visible(),
        }
        self.clamp_selection();
    }
}

} // verus!
