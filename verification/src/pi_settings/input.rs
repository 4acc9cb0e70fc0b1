//! Keyboard and mouse handling for the settings panel.
//!
//! F2 and Ctrl/Cmd+`,` close from any mode. Esc is mode-dependent: Browse
//! leaves it to the modal chrome unless a query is set, every sub-mode
//! returns to Browse.
use vstd::prelude::*;
use crate::commands::{opt_action_view, Action, ActionView};
use crate::decimal::{dec_text, i64_text, parse_i64, spec_parse_i64};
use crate::pi_settings::actions::{
    action_for_bool, action_for_enum_commit, action_for_enum_preview, action_for_int,
    action_for_string, side_model_picker_action, spec_bool_action_with, spec_enum_commit,
    spec_is_side_model_slot, spec_validate,
    spec_enum_preview, spec_int_action, spec_string_action, validate_string,
};
use crate::pi_settings::editor::{edited, printable, LineEditOutcome, LineEditor};
use crate::pi_settings::keys::{KeyCode, KeyPress, MouseButton, MouseKind, Rect};
use crate::pi_settings::rows::{all_rows, Row};
use crate::pi_settings::state::{
    copy_value, lemma_visible_wf, spec_value_of, Mode, ModeKind, Outcome, PiSettingsState,
};
use crate::pi_settings::transitions::{owned_view, view_canonicals};
use crate::settings::registry::{OwnedEnumChoice, SettingKind, SettingValue, ValueView};
use crate::text::{chars_of, concat, one_char, str_eq, string_of};

verus! {

/// Fast-scroll distance for PageUp/PageDown.
pub const PAGE_STEP: usize = 10;

/// F2, or `,` with Control or Super.
pub open spec fn spec_is_close_key(key: KeyPress) -> bool {
    key.code == KeyCode::F(2) || (key.code == KeyCode::Char(',') && (key.modifiers.control
        || key.modifiers.super_key))
}

fn is_close_key(key: &KeyPress) -> (r: bool)
    ensures
        r == spec_is_close_key(*key),
{
    key.code == KeyCode::F(2) || (key.code == KeyCode::Char(',') && (key.modifiers.control
        || key.modifiers.super_key))
}

/// `v` held inside `[lo, hi]`.
pub open spec fn spec_clamp(v: int, lo: int, hi: int) -> int {
    if v < lo {
        lo
    } else if v > hi {
        hi
    } else {
        v
    }
}

/// Stepper increments: wide ranges step by 5/10, narrow ones by 1/5.
pub open spec fn spec_step_sizes(min: int, max: int) -> (int, int) {
    if max - min >= 100 {
        (5, 10)
    } else {
        (1, 5)
    }
}

/// Stepper increments derived from the range.
pub fn step_sizes(min: i64, max: i64) -> (r: (i64, i64))
    requires
        min <= max,
    ensures
        r.0 == spec_step_sizes(min as int, max as int).0,
        r.1 == spec_step_sizes(min as int, max as int).1,
{
    if (max as i128) - (min as i128) >= 100 {
        (5, 10)
    } else {
        (1, 5)
    }
}

/// The rows on screen after a query edit left the query empty.
pub open spec fn shows_whole_page(s: PiSettingsState) -> bool {
    s.visible@ == all_rows(s.rows@.len())
}

/// Handle a key press.
pub fn handle_key(state: &mut PiSettingsState, key: &KeyPress) -> (r: Outcome)
    requires
        old(state).wf(),
    ensures
        final(state).wf(),
        spec_is_close_key(*key) ==> r is Close && *final(state) == *old(state),
        !spec_is_close_key(*key) && old(state).mode is Search && key.code == KeyCode::Esc ==> (
        final(state).mode is Browse && final(state).query.text@.len() == 0 && shows_whole_page(
            *final(state),
        )),
        !spec_is_close_key(*key) && old(state).mode is Browse && key.code == KeyCode::Esc && old(state).query.text@.len() > 0 ==> (final(state).mode is Browse && final(state).query.text@.len()
            == 0 && shows_whole_page(*final(state)) && r is Changed),
        !spec_is_close_key(*key) && old(state).mode is Browse && (key.code == KeyCode::Char('/')
            || key.code == KeyCode::Char('i')) && key.modifiers.spec_is_empty() ==> (final(state).mode is Search && r is Changed),
        !spec_is_close_key(*key) && old(state).mode is Browse && key.code == KeyCode::Char(' ')
            ==> match old(state).spec_toggle() {
            Some(a) => (r matches Outcome::Action(x) && x@ == a),
            None => r is Unchanged,
        },
        old(state).mode is EditingInt && !spec_is_close_key(*key) && (key.code == KeyCode::Left
            || key.code == KeyCode::Right || key.code == KeyCode::Up || key.code == KeyCode::Down
            || key.code == KeyCode::Home || key.code == KeyCode::End || key.code
            == KeyCode::PageUp || key.code == KeyCode::PageDown || key.code == KeyCode::Char('h')
            || key.code == KeyCode::Char('l')) ==> (final(state).mode matches Mode::EditingInt {
            buffer,
            min,
            max,
            ..
        } && exists|v: int| min <= v <= max && buffer@ == dec_text(v)),
        !spec_is_close_key(*key) ==> match old(state).mode.spec_kind() {
            ModeKind::Browse => browse_answer(*old(state), *final(state), *key, r),
            ModeKind::Search => search_answer(*old(state), *final(state), *key, r),
            ModeKind::Picking => picker_answer(*old(state), *final(state), *key, r),
            ModeKind::PickingGroup => sheet_answer(*old(state), *final(state), *key, r),
            ModeKind::EditingString => text_answer(*old(state), *final(state), *key, r),
            ModeKind::EditingInt => number_answer(*old(state), *final(state), *key, r),
            ModeKind::ConfirmReset => confirm_answer(*old(state), *final(state), *key, r),
        },
        !spec_is_close_key(*key) && (old(state).mode is Picking || old(state).mode is PickingGroup
            || old(state).mode is EditingString || old(state).mode is EditingInt || old(state).mode is ConfirmReset) && key.code == KeyCode::Esc ==> final(state).mode is Browse,
        final(state).registry == old(state).registry,
        final(state).values == old(state).values,
        final(state).pager_snapshot == old(state).pager_snapshot,
        final(state).gates == old(state).gates,
{
    if is_close_key(key) {
        return Outcome::Close;
    }
    match state.mode.kind() {
        ModeKind::Browse => browse_key(state, key),
        ModeKind::Search => search_key(state, key),
        ModeKind::Picking => chooser_key(state, key),
        ModeKind::PickingGroup => group_key(state, key),
        ModeKind::EditingString => string_key(state, key),
        ModeKind::EditingInt => int_key(state, key),
        ModeKind::ConfirmReset => confirm_key(state, key),
    }
}

/// Whether browsing has a use for `key`.
pub open spec fn browse_binds(key: KeyPress) -> bool {
    match key.code {
        KeyCode::Esc | KeyCode::Down | KeyCode::Up | KeyCode::PageDown | KeyCode::PageUp
        | KeyCode::Enter | KeyCode::Backspace => true,
        KeyCode::Char(c) => c == ' ' || c == 'j' || c == 'k' || c == 'G' || ((c == 'g' || c == '/'
            || c == 'i' || c == 'd') && key.modifiers.spec_is_empty()),
        _ => false,
    }
}

/// What a key answers while browsing.
pub open spec fn browse_answer(s: PiSettingsState, f: PiSettingsState, key: KeyPress, r: Outcome) -> bool {
    &&& (key.code == KeyCode::Esc && s.query.text@.len() > 0 ==> (f.mode is Browse
            && f.query.text@.len() == 0 && shows_whole_page(f)
            && r is Changed))
    &&& ((key.code == KeyCode::Char('/') || key.code == KeyCode::Char('i'))
            && key.modifiers.spec_is_empty() ==> (f.mode is Search && r is Changed))
    &&& (key.code == KeyCode::Char(' ') ==> match s.spec_toggle() {
            Some(a) => (r matches Outcome::Action(x) && x@ == a),
            None => r is Unchanged,
        })
    &&& (key.code == KeyCode::Char(' ') ==> f == s)
    &&& (key.code == KeyCode::Enter ==> activation(s, f, r))
    &&& (key.code == KeyCode::Esc && s.query.text@.len() == 0 ==> r is Unchanged
            && f == s)
    &&& ((key.code == KeyCode::Down || key.code == KeyCode::Char('j')) ==> focus_stepped(
            s,
            f,
            1,
            r,
        ))
    &&& ((key.code == KeyCode::Up || key.code == KeyCode::Char('k')) ==> focus_stepped(
            s,
            f,
            -1,
            r,
        ))
    &&& (key.code == KeyCode::PageDown ==> focus_paged(s, f, 1, r))
    &&& (key.code == KeyCode::PageUp ==> focus_paged(s, f, -1, r))
    &&& (key.code == KeyCode::Char('g') && key.modifiers.spec_is_empty() ==> focus_jumped(
            s,
            f,
            -1,
            r,
        ))
    &&& (key.code == KeyCode::Char('G') ==> focus_jumped(s, f, 1, r))
    &&& (key.code == KeyCode::Char('d') && key.modifiers.spec_is_empty() ==> match s.spec_focused() {
            Some((k, m)) => if m.kind is Group || s.spec_lock(k) is Some {
                r is Unchanged && f == s
            } else {
                r is Changed && (f.mode matches Mode::ConfirmReset { key } && key@ == k)
            },
            None => r is Unchanged && f == s,
        })
    &&& ((key.code == KeyCode::Left || key.code == KeyCode::Right) ==> r is Unchanged && f == s)
    &&& (key.code == KeyCode::Backspace ==> if s.query.text@.len() == 0 {
        r is Unchanged && f == s
    } else {
        r is Changed && f.mode is Browse && f.query.text@ == edited(s.query, key).0
            && f.query.cursor == edited(s.query, key).1
    })
    &&& (!browse_binds(key) ==> r is Unchanged && f == s)
}

/// What a key answers while typing a search query.
pub open spec fn search_answer(s: PiSettingsState, f: PiSettingsState, key: KeyPress, r: Outcome) -> bool {
    &&& (key.code == KeyCode::Esc ==> (f.mode is Browse && f.query.text@.len()
            == 0 && shows_whole_page(f) && r is Changed))
    &&& (key.code == KeyCode::Enter ==> f.mode is Browse && f.query == s.query)
    &&& (key.code == KeyCode::Down ==> focus_stepped(s, f, 1, r))
    &&& (key.code == KeyCode::Up ==> focus_stepped(s, f, -1, r))
    &&& (key.code == KeyCode::PageDown ==> focus_paged(s, f, 1, r))
    &&& (key.code == KeyCode::PageUp ==> focus_paged(s, f, -1, r))
    &&& (key.code == KeyCode::Char('u') && key.modifiers.spec_is_control_only() ==> r is Changed
            && f.mode is Search && f.query.text@.len() == 0
            && shows_whole_page(f))
    &&& (!(key.code == KeyCode::Esc || key.code == KeyCode::Enter || key.code == KeyCode::Down
        || key.code == KeyCode::Up || key.code == KeyCode::PageDown || key.code == KeyCode::PageUp
        || (key.code == KeyCode::Char('u') && key.modifiers.spec_is_control_only())) ==> {
        let e = edited(s.query, key);
        &&& f.mode is Search
        &&& f.query.text@ == e.0
        &&& f.query.cursor == e.1
        &&& (if e.2 == LineEditOutcome::Unhandled {
            r is Unchanged
        } else {
            r is Changed
        })
    })
}

/// What a key answers in a chooser.
pub open spec fn picker_answer(s: PiSettingsState, f: PiSettingsState, key: KeyPress, r: Outcome) -> bool {
    &&& (key.code == KeyCode::Esc ==> f.mode is Browse)
    &&& (key.code == KeyCode::Enter ==> f.mode is Browse)
    &&& (picker_choices(s).len() == 0 ==> f.mode is Browse && r is Changed)
    &&& (picker_choices(s).len() > 0 && (key.code == KeyCode::Down || key.code
            == KeyCode::Char('j')) ==> picker_step(s, f, 1, r))
    &&& (picker_choices(s).len() > 0 && (key.code == KeyCode::Up || key.code
            == KeyCode::Char('k')) ==> picker_step(s, f, -1, r))
    &&& (picker_choices(s).len() > 0 && key.code == KeyCode::Enter ==> picker_exit(
            s.close_on_picker_exit,
            picker_commit(s),
            r,
        ))
    &&& (picker_choices(s).len() > 0 && key.code == KeyCode::Esc ==> picker_exit(
            s.close_on_picker_exit,
            picker_revert(s),
            r,
        ))
    &&& (picker_choices(s).len() > 0 && !(key.code == KeyCode::Down || key.code == KeyCode::Up
        || key.code == KeyCode::Char('j') || key.code == KeyCode::Char('k') || key.code
        == KeyCode::Enter || key.code == KeyCode::Esc) ==> r is Unchanged && f == s)
}

/// The group sheet's cursor stepped by `delta` and held on the list: only a
/// move repaints.
pub open spec fn sheet_moved(s: PiSettingsState, f: PiSettingsState, delta: int, r: Outcome) -> bool {
    match s.mode {
        Mode::PickingGroup { key, child } => {
            let next = moved_index(child as int, sheet_children(s).len() as int, delta);
            if next == child {
                r is Unchanged && f == s
            } else {
                r is Changed && f == (PiSettingsState {
                    mode: Mode::PickingGroup { key, child: next as usize },
                    ..s
                })
            }
        },
        _ => true,
    }
}

/// What a key answers in a group sheet.
pub open spec fn sheet_answer(s: PiSettingsState, f: PiSettingsState, key: KeyPress, r: Outcome) -> bool {
    &&& (key.code == KeyCode::Esc ==> f.mode is Browse)
    &&& (sheet_children(s).len() == 0 ==> f.mode is Browse && r is Changed)
    &&& (sheet_children(s).len() > 0 && (key.code == KeyCode::Enter || key.code
            == KeyCode::Char(' ')) ==> (s.mode matches Mode::PickingGroup { child, .. }
            && (child < sheet_children(s).len() ==> child_toggle_answer(
            s,
            sheet_children(s)[child as int]@,
            r,
        ))) && f == s)
    &&& (sheet_children(s).len() > 0 && (key.code == KeyCode::Down || key.code == KeyCode::Char(
        'j',
    )) ==> sheet_moved(s, f, 1, r))
    &&& (sheet_children(s).len() > 0 && (key.code == KeyCode::Up || key.code == KeyCode::Char(
        'k',
    )) ==> sheet_moved(s, f, -1, r))
    &&& (sheet_children(s).len() > 0 && !(key.code == KeyCode::Down || key.code == KeyCode::Up
        || key.code == KeyCode::Char('j') || key.code == KeyCode::Char('k') || key.code
        == KeyCode::Enter || key.code == KeyCode::Char(' ') || key.code == KeyCode::Esc) ==> r is Unchanged
        && f == s)
}

/// What a key answers in the text editor.
pub open spec fn text_answer(s: PiSettingsState, f: PiSettingsState, key: KeyPress, r: Outcome) -> bool {
    &&& (key.code == KeyCode::Esc ==> f.mode is Browse)
    &&& (key.code == KeyCode::Enter && (s.mode matches Mode::EditingString { error, .. }
            && error is Some) ==> r is Unchanged && f == s)
    &&& (key.code == KeyCode::Enter && (s.mode matches Mode::EditingString { error, .. }
            && error is None) ==> f.mode is Browse && match string_commit(
            s,
        ) {
            Some(a) => (r matches Outcome::Action(x) && x@ == a),
            None => r is Changed,
        })
    &&& (!(key.code == KeyCode::Esc || key.code == KeyCode::Enter) ==> match s.mode {
        Mode::EditingString { key: k, editor, validator, error } => {
            let e = edited(editor, key);
            &&& (f.mode matches Mode::EditingString {
                key: k2,
                editor: ed2,
                validator: v2,
                error: err2,
            } && k2 == k && v2 == validator && ed2.text@ == e.0 && ed2.cursor == e.1 && (if e.2
                == LineEditOutcome::TextChanged {
                match err2 {
                    Some(m) => spec_validate(validator, e.0, s.pager_snapshot.available_models@)
                        == Some(m@),
                    None => spec_validate(validator, e.0, s.pager_snapshot.available_models@) is None,
                }
            } else {
                err2 == error
            }))
            &&& (if e.2 == LineEditOutcome::Unhandled {
                r is Unchanged
            } else {
                r is Changed
            })
        },
        _ => true,
    })
}

/// What a key answers in the number editor.
pub open spec fn number_answer(s: PiSettingsState, f: PiSettingsState, key: KeyPress, r: Outcome) -> bool {
    &&& (key.code == KeyCode::Esc ==> f.mode is Browse)
    &&& ((key.code == KeyCode::Left || key.code == KeyCode::Right || key.code == KeyCode::Up
            || key.code == KeyCode::Down || key.code == KeyCode::Home || key.code == KeyCode::End
            || key.code == KeyCode::PageUp || key.code == KeyCode::PageDown || key.code
            == KeyCode::Char('h') || key.code == KeyCode::Char('l')) ==> (f.mode matches Mode::EditingInt {
            buffer,
            min,
            max,
            ..
        } && exists|v: int| min <= v <= max && buffer@ == dec_text(v)))
    &&& (key.code == KeyCode::Enter ==> f.mode is Browse && match int_commit(
            s,
        ) {
            Some(a) => (r matches Outcome::Action(x) && x@ == a),
            None => r is Changed,
        })
    &&& ((key.code == KeyCode::Left || key.code == KeyCode::Char('h')) ==> int_set(
            s,
            f,
            int_current(s) - int_steps(s).0,
            r,
        ))
    &&& ((key.code == KeyCode::Right || key.code == KeyCode::Char('l')) ==> int_set(
            s,
            f,
            int_current(s) + int_steps(s).0,
            r,
        ))
    &&& ((key.code == KeyCode::Down || key.code == KeyCode::PageDown) ==> int_set(
            s,
            f,
            int_current(s) - int_steps(s).1,
            r,
        ))
    &&& ((key.code == KeyCode::Up || key.code == KeyCode::PageUp) ==> int_set(
            s,
            f,
            int_current(s) + int_steps(s).1,
            r,
        ))
    &&& (key.code == KeyCode::Home ==> int_set(
            s,
            f,
            int_bounds(s).0,
            r,
        ))
    &&& (key.code == KeyCode::End ==> int_set(
            s,
            f,
            int_bounds(s).1,
            r,
        ))
    &&& (key.code == KeyCode::Backspace ==> r is Changed && int_typed(
            s,
            f,
            if int_buffer(s).len() > 0 {
                int_buffer(s).drop_last()
            } else {
                int_buffer(s)
            },
        ))
    &&& (match key.code {
            KeyCode::Char(c) => '0' <= c <= '9' ==> int_digit(s, f, c, r),
            _ => true,
        })
    &&& (!(key.code == KeyCode::Esc || key.code == KeyCode::Enter || key.code == KeyCode::Left
        || key.code == KeyCode::Right || key.code == KeyCode::Down || key.code == KeyCode::PageDown
        || key.code == KeyCode::Up || key.code == KeyCode::PageUp || key.code == KeyCode::Home
        || key.code == KeyCode::End || key.code == KeyCode::Backspace || key.code == KeyCode::Char(
        'h',
    ) || key.code == KeyCode::Char('l') || (key.code matches KeyCode::Char(c) && '0' <= c <= '9'))
        ==> r is Unchanged && f == s)
}

/// What a key answers while a reset waits for confirmation.
pub open spec fn confirm_answer(s: PiSettingsState, f: PiSettingsState, key: KeyPress, r: Outcome) -> bool {
    &&& ((key.code == KeyCode::Char('y') || key.code == KeyCode::Char('Y') || key.code
            == KeyCode::Enter) ==> f.mode is Browse && match s.spec_reset(
            s.mode.spec_subject()->0,
        ) {
            Some(a) => (r matches Outcome::Action(x) && x@ == a),
            None => r is Changed,
        })
    &&& ((key.code == KeyCode::Char('n') || key.code == KeyCode::Char('N') || key.code
            == KeyCode::Esc) ==> f.mode is Browse && r is Changed)
    &&& (!(key.code == KeyCode::Char('y') || key.code == KeyCode::Char('Y') || key.code
        == KeyCode::Enter || key.code == KeyCode::Char('n') || key.code == KeyCode::Char('N')
        || key.code == KeyCode::Esc) ==> r is Unchanged && f == s)
}

/// The text of editor `e` after pasting `text` at its cursor; characters
/// that cannot be shown in a field are dropped.
pub open spec fn pasted(e: LineEditor, text: Seq<char>) -> Seq<char> {
    e.text@.take(e.cursor as int) + printable(text) + e.text@.skip(e.cursor as int)
}

/// Paste into the String editor or the search query.
pub fn handle_paste(state: &mut PiSettingsState, text: &str) -> (r: Outcome)
    requires
        old(state).wf(),
    ensures
        final(state).wf(),
        !(old(state).mode is EditingString || old(state).mode is Search) ==> r is Unchanged
            && *final(state) == *old(state),
        old(state).mode is Search ==> r is Changed && final(state).query.text@ == pasted(
            old(state).query,
            text@,
        ),
        match old(state).mode {
            Mode::EditingString { key, editor, validator, .. } => r is Changed && (final(state).mode matches Mode::EditingString { key: k, editor: e, validator: v, error }
                && k == key && v == validator && e.text@ == pasted(editor, text@) && match error {
                Some(m) => spec_validate(
                    validator,
                    e.text@,
                    old(state).pager_snapshot.available_models@,
                ) == Some(m@),
                None => spec_validate(
                    validator,
                    e.text@,
                    old(state).pager_snapshot.available_models@,
                ) is None,
            }),
            _ => true,
        },
        final(state).mode.spec_kind() == old(state).mode.spec_kind(),
        final(state).registry == old(state).registry,
        final(state).values == old(state).values,
        final(state).pager_snapshot == old(state).pager_snapshot,
        final(state).gates == old(state).gates,
{
    match state.mode.kind() {
        ModeKind::EditingString => {
            let mut mode = Mode::Browse;
            std::mem::swap(&mut mode, &mut state.mode);
            match mode {
                Mode::EditingString { key, mut editor, validator, .. } => {
                    editor.insert_paste(text);
                    let t = editor.text_string();
                    let error = validate_string(
                        validator,
                        t.as_str(),
                        &state.pager_snapshot.available_models,
                    );
                    state.mode = Mode::EditingString { key, editor, validator, error };
                },
                other => {
                    state.mode = other;
                },
            }
            Outcome::Changed
        },
        ModeKind::Search => {
            let outcome = state.query.insert_paste(text);
            apply_query_edit(state, outcome)
        },
        _ => Outcome::Unchanged,
    }
}

/// After the query was edited: refilter when its text changed.
fn apply_query_edit(state: &mut PiSettingsState, outcome: LineEditOutcome) -> (r: Outcome)
    requires
        old(state).registry.wf(),
        crate::pi_settings::rows::rows_wf(old(state).rows@, old(state).registry.entries@),
        old(state).rows@.len() <= usize::MAX,
        old(state).query.wf(),
        old(state).mode.wf(),
        outcome != LineEditOutcome::TextChanged ==> old(state).visible@
            == crate::pi_settings::rows::spec_visible(
            old(state).rows@,
            old(state).registry.entries@,
            old(state).spec_query(),
        ),
    ensures
        final(state).wf(),
        outcome == LineEditOutcome::Unhandled ==> r is Unchanged,
        outcome != LineEditOutcome::Unhandled ==> r is Changed,
        final(state).mode == old(state).mode,
        final(state).query == old(state).query,
        final(state).rows == old(state).rows,
        final(state).registry == old(state).registry,
        final(state).values == old(state).values,
        final(state).pager_snapshot == old(state).pager_snapshot,
        final(state).gates == old(state).gates,
{
    match outcome {
        LineEditOutcome::TextChanged => {
            state.refresh_visible();
            state.clamp_selection();
            Outcome::Changed
        },
        LineEditOutcome::HandledNoChange | LineEditOutcome::CursorChanged => Outcome::Changed,
        LineEditOutcome::Unhandled => Outcome::Unchanged,
    }
}

/// Clear the query and show the whole page again.
fn clear_query(state: &mut PiSettingsState)
    requires
        old(state).wf(),
    ensures
        final(state).wf(),
        final(state).query.text@.len() == 0,
        shows_whole_page(*final(state)),
        final(state).mode == old(state).mode,
        final(state).rows == old(state).rows,
        final(state).registry == old(state).registry,
        final(state).values == old(state).values,
        final(state).pager_snapshot == old(state).pager_snapshot,
        final(state).gates == old(state).gates,
        final(state).hover == old(state).hover,
        final(state).close_on_picker_exit == old(state).close_on_picker_exit,
{
    state.query.reset();
    state.refresh_visible();
    assert(crate::text::lower_seq(state.query.text@).len() == 0);
    state.clamp_selection();
}

/// Step the focus `PAGE_STEP` times by `delta`.
/// The focus after `n` single steps in the direction of `delta`, and whether
/// any of them moved it.
pub open spec fn multi_step(s: PiSettingsState, delta: int, n: int) -> (usize, bool)
    decreases n,
{
    if n <= 0 {
        (s.selected, false)
    } else {
        let t = s.stepped(delta);
        let rest = multi_step(PiSettingsState { selected: t, ..s }, delta, n - 1);
        (rest.0, rest.1 || t != s.selected)
    }
}

/// The focus moved to `target`; only a move repaints.
pub open spec fn focus_moved(s: PiSettingsState, f: PiSettingsState, target: usize, moved: bool, r: Outcome) -> bool {
    f == (PiSettingsState { selected: target, ..s }) && (if moved {
        r is Changed
    } else {
        r is Unchanged
    })
}

/// One step of the focus.
pub open spec fn focus_stepped(s: PiSettingsState, f: PiSettingsState, delta: int, r: Outcome) -> bool {
    focus_moved(s, f, s.stepped(delta), s.stepped(delta) != s.selected, r)
}

/// A page of steps of the focus.
pub open spec fn focus_paged(s: PiSettingsState, f: PiSettingsState, delta: int, r: Outcome) -> bool {
    focus_moved(s, f, multi_step(s, delta, PAGE_STEP as int).0, multi_step(s, delta, PAGE_STEP as int).1, r)
}

/// The focus jumped to the first (`delta <= 0`) or last setting on screen.
pub open spec fn focus_jumped(s: PiSettingsState, f: PiSettingsState, delta: int, r: Outcome) -> bool {
    focus_moved(s, f, s.end_target(delta), s.end_target(delta) != s.selected, r)
}

fn step_rows(state: &mut PiSettingsState, delta: isize) -> (moved: bool)
    requires
        old(state).wf(),
        delta != 0,
    ensures
        final(state).wf(),
        *final(state) == (PiSettingsState {
            selected: multi_step(*old(state), delta as int, PAGE_STEP as int).0,
            ..*old(state)
        }),
        moved == multi_step(*old(state), delta as int, PAGE_STEP as int).1,
        final(state).mode == old(state).mode,
        final(state).query == old(state).query,
        final(state).rows == old(state).rows,
        final(state).visible == old(state).visible,
        final(state).registry == old(state).registry,
        final(state).values == old(state).values,
        final(state).pager_snapshot == old(state).pager_snapshot,
        final(state).gates == old(state).gates,
        final(state).hover == old(state).hover,
        final(state).close_on_picker_exit == old(state).close_on_picker_exit,
{
    let mut moved = false;
    let mut i: usize = 0;
    while i < PAGE_STEP
        invariant
            state.wf(),
            delta != 0,
            i <= PAGE_STEP,
            *state == (PiSettingsState { selected: state.selected, ..*old(state) }),
            multi_step(*old(state), delta as int, PAGE_STEP as int).0 == multi_step(
                *state,
                delta as int,
                PAGE_STEP - i,
            ).0,
            multi_step(*old(state), delta as int, PAGE_STEP as int).1 == (moved || multi_step(
                *state,
                delta as int,
                PAGE_STEP - i,
            ).1),
            state.mode == old(state).mode,
            state.query == old(state).query,
            state.rows == old(state).rows,
            state.visible == old(state).visible,
            state.registry == old(state).registry,
            state.values == old(state).values,
            state.pager_snapshot == old(state).pager_snapshot,
            state.gates == old(state).gates,
            state.hover == old(state).hover,
            state.close_on_picker_exit == old(state).close_on_picker_exit,
        decreases PAGE_STEP - i,
    {
        let m = state.step(delta);
        moved = moved || m;
        i = i + 1;
    }
    moved
}

fn browse_key(state: &mut PiSettingsState, key: &KeyPress) -> (r: Outcome)
    requires
        old(state).wf(),
        old(state).mode is Browse,
    ensures
        final(state).wf(),
        browse_answer(*old(state), *final(state), *key, r),
        final(state).registry == old(state).registry,
        final(state).values == old(state).values,
        final(state).pager_snapshot == old(state).pager_snapshot,
        final(state).gates == old(state).gates,
{
    match key.code {
        KeyCode::Esc => {
            if state.searching() {
                clear_query(state);
                Outcome::Changed
            } else {
                Outcome::Unchanged
            }
        },
        KeyCode::Down => Outcome::changed_if(state.step(1)),
        KeyCode::Up => Outcome::changed_if(state.step(-1)),
        KeyCode::PageDown => Outcome::changed_if(step_rows(state, 1)),
        KeyCode::PageUp => Outcome::changed_if(step_rows(state, -1)),
        KeyCode::Char(' ') => match state.toggle_focused_bool() {
            Some(action) => Outcome::Action(action),
            None => Outcome::Unchanged,
        },
        KeyCode::Enter => activate_focused(state),
        KeyCode::Backspace => {
            // Keep editing a committed query without re-entering search mode.
            if !state.searching() {
                return Outcome::Unchanged;
            }
            let changed = state.query.delete_back();
            let outcome = if changed {
                LineEditOutcome::TextChanged
            } else {
                LineEditOutcome::HandledNoChange
            };
            apply_query_edit(state, outcome)
        },
        KeyCode::Char(c) => {
            if c == 'j' {
                Outcome::changed_if(state.step(1))
            } else if c == 'k' {
                Outcome::changed_if(state.step(-1))
            } else if c == 'g' && key.modifiers.is_empty() {
                Outcome::changed_if(state.jump_end(-1))
            } else if c == 'G' {
                Outcome::changed_if(state.jump_end(1))
            } else if (c == '/' || c == 'i') && key.modifiers.is_empty() {
                state.to_search();
                Outcome::Changed
            } else if c == 'd' && key.modifiers.is_empty() {
                confirm_reset_request(state)
            } else {
                Outcome::Unchanged
            }
        },
        _ => Outcome::Unchanged,
    }
}

/// `d` over a row: ask before resetting it, unless it is a Group (no
/// scalar default) or locked.
fn confirm_reset_request(state: &mut PiSettingsState) -> (r: Outcome)
    requires
        old(state).wf(),
    ensures
        final(state).wf(),
        match old(state).spec_focused() {
            Some((k, m)) => if m.kind is Group || old(state).spec_lock(k) is Some {
                r is Unchanged && *final(state) == *old(state)
            } else {
                r is Changed && (final(state).mode matches Mode::ConfirmReset { key } && key@ == k)
            },
            None => r is Unchanged && *final(state) == *old(state),
        },
        final(state).registry == old(state).registry,
        final(state).values == old(state).values,
        final(state).pager_snapshot == old(state).pager_snapshot,
        final(state).gates == old(state).gates,
{
    let (key, is_group) = match state.focused() {
        Some((k, meta)) => (
            k,
            match meta.kind {
                SettingKind::Group { .. } => true,
                _ => false,
            },
        ),
        None => return Outcome::Unchanged,
    };
    if is_group || state.lock(key).is_some() {
        return Outcome::Unchanged;
    }
    state.mode = Mode::ConfirmReset { key };
    Outcome::Changed
}

/// Open whatever the focused row leads to: the Pi resources modal, a
/// sub-sheet, the model picker, a toggle, a chooser or an editor.
/// What Enter on the focused row answers, in order of precedence: the pi
/// config row opens that config; a Group opens its sheet on the first child;
/// a side-model slot opens the model picker for it; a Bool flips; an
/// unlocked enum opens its chooser; a String or Int opens its editor.
pub open spec fn activation(s: PiSettingsState, f: PiSettingsState, r: Outcome) -> bool {
    match s.spec_focused() {
        None => r is Unchanged && f == s,
        Some((k, m)) => if k == "pi_config"@ {
            r matches Outcome::Action(x) && x@ == ActionView::OpenPiConfig
        } else if m.kind is Group {
            r is Changed && (f.mode matches Mode::PickingGroup { key, child } && key@ == k && child
                == 0)
        } else if spec_is_side_model_slot(k) {
            r matches Outcome::Action(x) && x@ == (ActionView::OpenSideModelPicker { slot_key: k })
        } else if s.spec_toggle() is Some {
            r matches Outcome::Action(x) && x@ == s.spec_toggle()->0
        } else if s.spec_can_choose() {
            r is Changed && (f.mode matches Mode::Picking { key, .. } && key@ == k)
        } else if m.kind is String {
            r is Changed && (f.mode matches Mode::EditingString { key, .. } && key@ == k)
        } else if m.kind is Int {
            r is Changed && (f.mode matches Mode::EditingInt { key, .. } && key@ == k)
        } else {
            r is Unchanged
        },
    }
}

fn activate_focused(state: &mut PiSettingsState) -> (r: Outcome)
    requires
        old(state).wf(),
    ensures
        final(state).wf(),
        old(state).spec_focused() is None ==> r is Unchanged && *final(state) == *old(state),
        activation(*old(state), *final(state), r),
        final(state).registry == old(state).registry,
        final(state).values == old(state).values,
        final(state).pager_snapshot == old(state).pager_snapshot,
        final(state).gates == old(state).gates,
{
    let key = match state.focused() {
        Some((k, _)) => k,
        None => return Outcome::Unchanged,
    };
    if str_eq(key, "pi_config") {
        return Outcome::Action(Action::OpenPiConfig);
    }
    if state.open_group() {
        return Outcome::Changed;
    }
    match side_model_picker_action(key) {
        Some(action) => return Outcome::Action(action),
        None => {},
    }
    match state.toggle_focused_bool() {
        Some(action) => return Outcome::Action(action),
        None => {},
    }
    if state.open_chooser() {
        return Outcome::Changed;
    }
    if state.open_editor() {
        return Outcome::Changed;
    }
    Outcome::Unchanged
}

fn search_key(state: &mut PiSettingsState, key: &KeyPress) -> (r: Outcome)
    requires
        old(state).wf(),
        old(state).mode is Search,
    ensures
        final(state).wf(),
        search_answer(*old(state), *final(state), *key, r),
        final(state).registry == old(state).registry,
        final(state).values == old(state).values,
        final(state).pager_snapshot == old(state).pager_snapshot,
        final(state).gates == old(state).gates,
{
    match key.code {
        KeyCode::Esc => {
            clear_query(state);
            state.to_browse();
            Outcome::Changed
        },
        // Commit the query and return to Browse with it still applied.
        KeyCode::Enter => {
            state.to_browse();
            Outcome::Changed
        },
        KeyCode::Down => Outcome::changed_if(state.step(1)),
        KeyCode::Up => Outcome::changed_if(state.step(-1)),
        KeyCode::PageDown => Outcome::changed_if(step_rows(state, 1)),
        KeyCode::PageUp => Outcome::changed_if(step_rows(state, -1)),
        KeyCode::Char('u') if key.modifiers.is_control_only() => {
            if state.searching() {
                clear_query(state);
            }
            Outcome::Changed
        },
        _ => {
            let outcome = state.query.handle_key(key);
            apply_query_edit(state, outcome)
        },
    }
}

/// Position `index + delta` held inside `[0, len - 1]`.
pub open spec fn moved_index(index: int, len: int, delta: int) -> int {
    spec_clamp(index + delta, 0, len - 1)
}

/// The chooser `m` with its cursor on `next`, scrolled so the cursor stays
/// in the window.
pub open spec fn picker_at(m: Mode, next: int) -> Mode {
    match m {
        Mode::Picking { key, original, supports_preview, scroll, .. } => Mode::Picking {
            key,
            index: next as usize,
            original,
            supports_preview,
            scroll: if next < scroll {
                next as usize
            } else {
                scroll
            },
        },
        _ => m,
    }
}

/// What moving the chooser cursor to `next` answers: a live preview of that
/// choice when the setting previews, else a repaint.
pub open spec fn picker_move_answer(s: PiSettingsState, next: int, preview: bool, r: Outcome) -> bool {
    match s.mode {
        Mode::Picking { key, .. } => {
            let cs = s.spec_choices(key@);
            if preview && next < cs.len() {
                match spec_enum_preview(key@, cs[next].0) {
                    Some(a) => (r matches Outcome::Action(x) && x@ == a),
                    None => r is Changed,
                }
            } else {
                r is Changed
            }
        },
        _ => r is Unchanged,
    }
}

/// Moving the chooser cursor to `next` from `index`: nothing when it stays
/// put, else the cursor moves and the move is answered.
pub open spec fn picker_moved(
    s: PiSettingsState,
    f: PiSettingsState,
    index: int,
    next: int,
    preview: bool,
    r: Outcome,
) -> bool {
    if next == index {
        r is Unchanged && f == s
    } else {
        f == (PiSettingsState { mode: picker_at(s.mode, next), ..s }) && picker_move_answer(
            s,
            next,
            preview,
            r,
        )
    }
}

/// Stepping the chooser in `s` by `delta` (the cursor stays on the list).
pub open spec fn picker_step(s: PiSettingsState, f: PiSettingsState, delta: int, r: Outcome) -> bool {
    match s.mode {
        Mode::Picking { index, supports_preview, .. } => picker_moved(
            s,
            f,
            index as int,
            moved_index(index as int, picker_choices(s).len() as int, delta),
            supports_preview,
            r,
        ),
        _ => true,
    }
}

/// What leaving a chooser answers: its action, if any, and the panel closes
/// too when the chooser was opened by a deep link.
pub open spec fn picker_exit(close: bool, a: Option<ActionView>, r: Outcome) -> bool {
    match a {
        Some(x) => if close {
            r matches Outcome::ActionThenClose(y) && y@ == x
        } else {
            r matches Outcome::Action(y) && y@ == x
        },
        None => if close {
            r is Close
        } else {
            r is Changed
        },
    }
}

/// The choices a chooser in `s` lists (empty outside a chooser).
pub open spec fn picker_choices(s: PiSettingsState) -> Seq<(Seq<char>, Seq<char>, Seq<char>)> {
    match s.mode {
        Mode::Picking { key, .. } => s.spec_choices(key@),
        _ => Seq::empty(),
    }
}

/// What Enter in a chooser commits: the choice under the cursor (the last
/// one when the cursor is past the end).
pub open spec fn picker_commit(s: PiSettingsState) -> Option<ActionView> {
    match s.mode {
        Mode::Picking { key, index, .. } => {
            let cs = s.spec_choices(key@);
            let at = if index < cs.len() {
                index as int
            } else {
                cs.len() - 1
            };
            spec_enum_commit(key@, cs[at].0)
        },
        _ => None,
    }
}

/// What Esc in a chooser sends: a preview of the value it started from, for
/// settings that preview live.
pub open spec fn picker_revert(s: PiSettingsState) -> Option<ActionView> {
    match s.mode {
        Mode::Picking { key, original, supports_preview, .. } => if supports_preview {
            match original@ {
                ValueView::Enum(c) => spec_enum_preview(key@, c),
                ValueView::String(t) => spec_enum_preview(key@, t),
                _ => None,
            }
        } else {
            None
        },
        _ => None,
    }
}

/// What Enter in the number editor commits: the buffer's value (the minimum
/// when the buffer holds no number), clamped to the bounds.
pub open spec fn int_commit(s: PiSettingsState) -> Option<ActionView> {
    match s.mode {
        Mode::EditingInt { key, buffer, min, max } => {
            let current: int = match spec_parse_i64(buffer@) {
                Some(v) => v as int,
                None => min as int,
            };
            spec_int_action(key@, spec_clamp(current, min as int, max as int) as i64)
        },
        _ => None,
    }
}

/// What Enter in the text editor commits, when the text passed validation.
pub open spec fn string_commit(s: PiSettingsState) -> Option<ActionView> {
    match s.mode {
        Mode::EditingString { key, editor, .. } => spec_string_action(
            s.pager_snapshot.available_models@,
            key@,
            editor.text@,
        ),
        _ => None,
    }
}

/// The children listed by the group sheet open in `s`.
pub open spec fn sheet_children(s: PiSettingsState) -> Seq<&'static str> {
    match s.mode {
        Mode::PickingGroup { key, .. } => match s.registry.find_spec(key@) {
            Some(i) => match s.registry.entries@[i].kind {
                SettingKind::Group { children } => children@,
                _ => Seq::empty(),
            },
            None => Seq::empty(),
        },
        _ => Seq::empty(),
    }
}

/// What flipping group child `child` answers: the action that sets it to the
/// opposite of its current Bool value, or nothing.
pub open spec fn child_toggle_answer(s: PiSettingsState, child: Seq<char>, r: Outcome) -> bool {
    match spec_value_of(s.values@, child) {
        Some(ValueView::Bool(b)) => match spec_bool_action_with(
            s.pager_snapshot.host_features@,
            child,
            !b,
        ) {
            Some(a) => (r matches Outcome::Action(x) && x@ == a),
            None => r is Unchanged,
        },
        _ => r is Unchanged,
    }
}

fn chooser_key(state: &mut PiSettingsState, key: &KeyPress) -> (r: Outcome)
    requires
        old(state).wf(),
        old(state).mode is Picking,
    ensures
        final(state).wf(),
        picker_answer(*old(state), *final(state), *key, r),
        final(state).registry == old(state).registry,
        final(state).values == old(state).values,
        final(state).pager_snapshot == old(state).pager_snapshot,
        final(state).gates == old(state).gates,
{
    let (setting, index, original, supports_preview) = match &state.mode {
        Mode::Picking { key, index, original, supports_preview, .. } => (
            *key,
            *index,
            copy_value(original),
            *supports_preview,
        ),
        _ => return Outcome::Unchanged,
    };
    let choices = state.choices_for(setting);
    if choices.len() == 0 {
        state.to_browse();
        return Outcome::Changed;
    }
    match key.code {
        KeyCode::Down => move_choice(state, index, choices.len(), 1, supports_preview),
        KeyCode::Up => move_choice(state, index, choices.len(), -1, supports_preview),
        KeyCode::Char(c) => {
            if c == 'j' {
                move_choice(state, index, choices.len(), 1, supports_preview)
            } else if c == 'k' {
                move_choice(state, index, choices.len(), -1, supports_preview)
            } else {
                Outcome::Unchanged
            }
        },
        KeyCode::Enter => {
            let at = if index < choices.len() {
                index
            } else {
                choices.len() - 1
            };
            let canonical = choices[at].canonical.clone();
            // A deep-link open is only about this one choice, so committing
            // it dismisses the panel.
            let close = state.close_on_picker_exit;
            state.to_browse();
            match action_for_enum_commit(setting, canonical.as_str()) {
                Some(action) => if close {
                    Outcome::ActionThenClose(action)
                } else {
                    Outcome::Action(action)
                },
                None => if close {
                    Outcome::Close
                } else {
                    Outcome::Changed
                },
            }
        },
        KeyCode::Esc => {
            let close = state.close_on_picker_exit;
            let revert = if supports_preview {
                revert_action(setting, &original)
            } else {
                None
            };
            state.to_browse();
            match revert {
                Some(action) => if close {
                    Outcome::ActionThenClose(action)
                } else {
                    Outcome::Action(action)
                },
                None => if close {
                    Outcome::Close
                } else {
                    Outcome::Changed
                },
            }
        },
        _ => Outcome::Unchanged,
    }
}

/// Step the chooser cursor, firing a live preview when the setting supports
/// it. The cursor stays inside `[0, len - 1]`.
fn move_choice(
    state: &mut PiSettingsState,
    index: usize,
    len: usize,
    delta: isize,
    supports_preview: bool,
) -> (r: Outcome)
    requires
        old(state).wf(),
        old(state).mode is Picking,
        len > 0,
    ensures
        final(state).wf(),
        picker_moved(
            *old(state),
            *final(state),
            index as int,
            moved_index(index as int, len as int, delta as int),
            supports_preview,
            r,
        ),
        final(state).mode.spec_kind() == ModeKind::Picking,
{
    let target: i128 = index as i128 + delta as i128;
    let next: usize = if target < 0 {
        0
    } else if target > (len - 1) as i128 {
        len - 1
    } else {
        target as usize
    };
    move_choice_to(state, index, next, supports_preview)
}

/// Put the chooser cursor on `next`, firing a live preview when the setting
/// supports it.
fn move_choice_to(state: &mut PiSettingsState, index: usize, next: usize, supports_preview: bool) -> (r:
    Outcome)
    requires
        old(state).wf(),
        old(state).mode is Picking,
    ensures
        final(state).wf(),
        picker_moved(*old(state), *final(state), index as int, next as int, supports_preview, r),
        final(state).mode.spec_kind() == ModeKind::Picking,
{
    if next == index {
        return Outcome::Unchanged;
    }
    let ghost before = *state;
    let mut mode = Mode::Browse;
    std::mem::swap(&mut mode, &mut state.mode);
    match mode {
        Mode::Picking { key, original, supports_preview: sp, scroll, .. } => {
            let choices = state.choices_for(key);
            // Keep the focused choice inside the rendered window.
            let new_scroll = if next < scroll {
                next
            } else {
                scroll
            };
            state.mode = Mode::Picking {
                key,
                index: next,
                original,
                supports_preview: sp,
                scroll: new_scroll,
            };
            proof {
                assert(*state == (PiSettingsState { mode: picker_at(before.mode, next as int), ..before }));
            }
            if supports_preview && next < choices.len() {
                proof {
                    assert(choices@.map_values(|c: OwnedEnumChoice| owned_view(c))[next as int]
                        == owned_view(choices@[next as int]));
                }
                match action_for_enum_preview(key, choices[next].canonical.as_str()) {
                    Some(action) => Outcome::Action(action),
                    None => Outcome::Changed,
                }
            } else {
                Outcome::Changed
            }
        },
        other => {
            state.mode = other;
            Outcome::Unchanged
        },
    }
}

/// Preview action that restores the value a chooser started from.
fn revert_action(key: &str, original: &SettingValue) -> (r: Option<Action>)
    ensures
        opt_action_view(r) == match original@ {
            ValueView::Enum(c) => spec_enum_preview(key@, c),
            ValueView::String(t) => spec_enum_preview(key@, t),
            _ => None,
        },
{
    match original {
        SettingValue::Enum(canonical) => action_for_enum_preview(key, canonical.as_str()),
        SettingValue::String(text) => action_for_enum_preview(key, text.as_str()),
        _ => None,
    }
}

fn group_key(state: &mut PiSettingsState, key: &KeyPress) -> (r: Outcome)
    requires
        old(state).wf(),
        old(state).mode is PickingGroup,
    ensures
        final(state).wf(),
        sheet_answer(*old(state), *final(state), *key, r),
        final(state).registry == old(state).registry,
        final(state).values == old(state).values,
        final(state).pager_snapshot == old(state).pager_snapshot,
        final(state).gates == old(state).gates,
{
    let (group, child) = match &state.mode {
        Mode::PickingGroup { key, child } => (*key, *child),
        _ => return Outcome::Unchanged,
    };
    let children = state.group_children(group);
    if children.len() == 0 {
        state.to_browse();
        return Outcome::Changed;
    }
    let down = key.code == KeyCode::Down || key.code == KeyCode::Char('j');
    let up = key.code == KeyCode::Up || key.code == KeyCode::Char('k');
    if down || up {
        let target: i128 = if down {
            child as i128 + 1
        } else {
            child as i128 - 1
        };
        let next: usize = if target < 0 {
            0
        } else if target > (children.len() - 1) as i128 {
            children.len() - 1
        } else {
            target as usize
        };
        if next == child {
            return Outcome::Unchanged;
        }
        state.mode = Mode::PickingGroup { key: group, child: next };
        return Outcome::Changed;
    }
    match key.code {
        // The sheet stays open so several toggles can be flipped in a row.
        KeyCode::Enter | KeyCode::Char(' ') => {
            if child < children.len() {
                toggle_group_child(state, children[child])
            } else {
                Outcome::Unchanged
            }
        },
        KeyCode::Esc => {
            state.to_browse();
            Outcome::Changed
        },
        _ => Outcome::Unchanged,
    }
}

/// The action that flips group child `child`, when its value is a Bool.
fn toggle_group_child(state: &PiSettingsState, child: &str) -> (r: Outcome)
    ensures
        match spec_value_of(state.values@, child@) {
            Some(ValueView::Bool(b)) => match spec_bool_action_with(
                state.pager_snapshot.host_features@,
                child@,
                !b,
            ) {
                Some(a) => (r matches Outcome::Action(x) && x@ == a),
                None => r is Unchanged,
            },
            _ => r is Unchanged,
        },
{
    match state.value_of(child) {
        Some(SettingValue::Bool(current)) => match action_for_bool(
            child,
            !current,
            &state.pager_snapshot.host_features,
        ) {
            Some(action) => Outcome::Action(action),
            None => Outcome::Unchanged,
        },
        _ => Outcome::Unchanged,
    }
}

fn string_key(state: &mut PiSettingsState, key: &KeyPress) -> (r: Outcome)
    requires
        old(state).wf(),
        old(state).mode is EditingString,
    ensures
        final(state).wf(),
        text_answer(*old(state), *final(state), *key, r),
        final(state).registry == old(state).registry,
        final(state).values == old(state).values,
        final(state).pager_snapshot == old(state).pager_snapshot,
        final(state).gates == old(state).gates,
{
    let mut mode = Mode::Browse;
    std::mem::swap(&mut mode, &mut state.mode);
    match mode {
        Mode::EditingString { key: setting, mut editor, validator, error } => {
            match key.code {
                KeyCode::Esc => {
                    state.to_browse();
                    Outcome::Changed
                },
                KeyCode::Enter => {
                    if error.is_some() {
                        state.mode = Mode::EditingString { key: setting, editor, validator, error };
                        return Outcome::Unchanged;
                    }
                    let value = editor.text_string();
                    state.to_browse();
                    match action_for_string(setting, value, &state.pager_snapshot) {
                        Some(action) => Outcome::Action(action),
                        None => Outcome::Changed,
                    }
                },
                _ => {
                    let outcome = editor.handle_key(key);
                    let error = if outcome == LineEditOutcome::TextChanged {
                        let t = editor.text_string();
                        validate_string(validator, t.as_str(), &state.pager_snapshot.available_models)
                    } else {
                        error
                    };
                    state.mode = Mode::EditingString { key: setting, editor, validator, error };
                    if outcome == LineEditOutcome::Unhandled {
                        Outcome::Unchanged
                    } else {
                        Outcome::Changed
                    }
                },
            }
        },
        other => {
            state.mode = other;
            Outcome::Unchanged
        },
    }
}

/// `v` held inside `[lo, hi]`.
fn clamp_i128(v: i128, lo: i64, hi: i64) -> (r: i64)
    requires
        lo <= hi,
    ensures
        r == spec_clamp(v as int, lo as int, hi as int),
{
    if v < lo as i128 {
        lo
    } else if v > hi as i128 {
        hi
    } else {
        v as i64
    }
}

/// Put `value`, held inside `[min, max]`, into the stepper.
/// The value the number editor in `s` steps from: its buffer's number, or the
/// minimum when the buffer holds none.
pub open spec fn int_current(s: PiSettingsState) -> int {
    match s.mode {
        Mode::EditingInt { buffer, min, .. } => match spec_parse_i64(buffer@) {
            Some(v) => v as int,
            None => min as int,
        },
        _ => 0,
    }
}

/// The number editor's (small, large) steps.
pub open spec fn int_steps(s: PiSettingsState) -> (int, int) {
    match s.mode {
        Mode::EditingInt { min, max, .. } => spec_step_sizes(min as int, max as int),
        _ => (0, 0),
    }
}

/// The number editor in `s` set to `value`, clamped to its bounds: only the
/// buffer changes, and only a changed buffer repaints.
pub open spec fn int_set(s: PiSettingsState, f: PiSettingsState, value: int, r: Outcome) -> bool {
    match s.mode {
        Mode::EditingInt { key, buffer, min, max } => {
            let text = dec_text(spec_clamp(value, min as int, max as int));
            (f.mode matches Mode::EditingInt { key: k, buffer: b, min: lo, max: hi } && k == key
                && lo == min && hi == max && b@ == text) && f == (PiSettingsState {
                mode: f.mode,
                ..s
            }) && (if buffer@ == text {
                r is Unchanged
            } else {
                r is Changed
            })
        },
        _ => true,
    }
}

/// The number editor's buffer.
pub open spec fn int_buffer(s: PiSettingsState) -> Seq<char> {
    match s.mode {
        Mode::EditingInt { buffer, .. } => buffer@,
        _ => Seq::empty(),
    }
}

/// The number editor's bounds.
pub open spec fn int_bounds(s: PiSettingsState) -> (int, int) {
    match s.mode {
        Mode::EditingInt { min, max, .. } => (min as int, max as int),
        _ => (0, 0),
    }
}

/// What typing digit `c` into the number editor answers: the digit is
/// appended when the text still reads as a number no larger than the maximum.
pub open spec fn int_digit(s: PiSettingsState, f: PiSettingsState, c: char, r: Outcome) -> bool {
    let cand = int_buffer(s).push(c);
    match spec_parse_i64(cand) {
        Some(v) => if v <= int_bounds(s).1 {
            r is Changed && int_typed(s, f, cand)
        } else {
            r is Unchanged && f == s
        },
        None => r is Unchanged && f == s,
    }
}

/// The number editor in `s` with its buffer replaced by `text`.
pub open spec fn int_typed(s: PiSettingsState, f: PiSettingsState, text: Seq<char>) -> bool {
    match s.mode {
        Mode::EditingInt { key, min, max, .. } => (f.mode matches Mode::EditingInt {
            key: k,
            buffer: b,
            min: lo,
            max: hi,
        } && k == key && lo == min && hi == max && b@ == text) && f == (PiSettingsState {
            mode: f.mode,
            ..s
        }),
        _ => true,
    }
}

fn set_int(state: &mut PiSettingsState, value: i128, min: i64, max: i64) -> (r: Outcome)
    requires
        old(state).wf(),
        old(state).mode matches Mode::EditingInt { min: lo, max: hi, .. } && lo == min && hi == max,
    ensures
        final(state).wf(),
        final(state).mode matches Mode::EditingInt { key, buffer, min: lo, max: hi } && lo == min
            && hi == max && buffer@ == dec_text(spec_clamp(value as int, min as int, max as int))
            && Some(key@) == old(state).mode.spec_subject(),
        int_set(*old(state), *final(state), value as int, r),
        final(state).registry == old(state).registry,
        final(state).values == old(state).values,
        final(state).pager_snapshot == old(state).pager_snapshot,
        final(state).gates == old(state).gates,
{
    let clamped = clamp_i128(value, min, max);
    let next = i64_text(clamped);
    let mut mode = Mode::Browse;
    std::mem::swap(&mut mode, &mut state.mode);
    match mode {
        Mode::EditingInt { key, buffer, min: lo, max: hi } => {
            let same = crate::text::seq_eq(&chars_of(buffer.as_str()), &next);
            let nb = string_of(&next);
            state.mode = Mode::EditingInt { key, buffer: nb, min: lo, max: hi };
            if same {
                Outcome::Unchanged
            } else {
                Outcome::Changed
            }
        },
        other => {
            state.mode = other;
            Outcome::Unchanged
        },
    }
}

fn int_key(state: &mut PiSettingsState, key: &KeyPress) -> (r: Outcome)
    requires
        old(state).wf(),
        old(state).mode is EditingInt,
    ensures
        final(state).wf(),
        number_answer(*old(state), *final(state), *key, r),
        final(state).registry == old(state).registry,
        final(state).values == old(state).values,
        final(state).pager_snapshot == old(state).pager_snapshot,
        final(state).gates == old(state).gates,
{
    let (setting, current, min, max, buf) = match &state.mode {
        Mode::EditingInt { key, buffer, min, max } => {
            let cs = chars_of(buffer.as_str());
            let current: i64 = match parse_i64(&cs) {
                Some(v) => v,
                None => *min,
            };
            (*key, current, *min, *max, cs)
        },
        _ => return Outcome::Unchanged,
    };
    let (small, large) = step_sizes(min, max);
    match key.code {
        KeyCode::Esc => {
            state.to_browse();
            Outcome::Changed
        },
        KeyCode::Enter => {
            let value = clamp_i128(current as i128, min, max);
            state.to_browse();
            match action_for_int(setting, value) {
                Some(action) => Outcome::Action(action),
                None => Outcome::Changed,
            }
        },
        KeyCode::Left => step_int(state, current as i128 - small as i128, min, max),
        KeyCode::Right => step_int(state, current as i128 + small as i128, min, max),
        KeyCode::Down | KeyCode::PageDown => step_int(
            state,
            current as i128 - large as i128,
            min,
            max,
        ),
        KeyCode::Up | KeyCode::PageUp => step_int(state, current as i128 + large as i128, min, max),
        KeyCode::Home => step_int(state, min as i128, min, max),
        KeyCode::End => step_int(state, max as i128, min, max),
        KeyCode::Backspace => {
            let mut next = buf;
            next.pop();
            update_int_buffer(state, string_of(&next));
            Outcome::Changed
        },
        KeyCode::Char(c) => {
            if c == 'h' {
                step_int(state, current as i128 - small as i128, min, max)
            } else if c == 'l' {
                step_int(state, current as i128 + small as i128, min, max)
            } else if '0' <= c && c <= '9' {
                let candidate = concat(&buf, &one_char(c));
                assert(candidate@ =~= int_buffer(*old(state)).push(c));
                // Reject overlong input rather than silently clamping mid-typing.
                match parse_i64(&candidate) {
                    Some(value) => if value <= max {
                        update_int_buffer(state, string_of(&candidate));
                        Outcome::Changed
                    } else {
                        Outcome::Unchanged
                    },
                    None => Outcome::Unchanged,
                }
            } else {
                Outcome::Unchanged
            }
        },
        _ => Outcome::Unchanged,
    }
}

/// `set_int`, stated as the stepper law: the text is that of a value inside
/// the bounds.
fn step_int(state: &mut PiSettingsState, value: i128, min: i64, max: i64) -> (r: Outcome)
    requires
        old(state).wf(),
        old(state).mode matches Mode::EditingInt { min: lo, max: hi, .. } && lo == min && hi == max,
    ensures
        final(state).wf(),
        final(state).mode matches Mode::EditingInt { buffer, min: lo, max: hi, .. } && lo == min
            && hi == max && buffer@ == dec_text(spec_clamp(value as int, min as int, max as int)),
        final(state).mode matches Mode::EditingInt { buffer, min, max, .. } && exists|v: int|
            min <= v <= max && buffer@ == dec_text(v),
        int_set(*old(state), *final(state), value as int, r),
        final(state).registry == old(state).registry,
        final(state).values == old(state).values,
        final(state).pager_snapshot == old(state).pager_snapshot,
        final(state).gates == old(state).gates,
{
    let r = set_int(state, value, min, max);
    proof {
        let v = spec_clamp(value as int, min as int, max as int);
        assert(min <= v <= max);
    }
    r
}

/// Replace the stepper's text.
fn update_int_buffer(state: &mut PiSettingsState, next: String)
    requires
        old(state).wf(),
        old(state).mode is EditingInt,
    ensures
        final(state).wf(),
        final(state).mode matches Mode::EditingInt { buffer, .. } && buffer@ == next@,
        int_typed(*old(state), *final(state), next@),
        final(state).registry == old(state).registry,
        final(state).values == old(state).values,
        final(state).pager_snapshot == old(state).pager_snapshot,
        final(state).gates == old(state).gates,
{
    let mut mode = Mode::Browse;
    std::mem::swap(&mut mode, &mut state.mode);
    match mode {
        Mode::EditingInt { key, min, max, .. } => {
            state.mode = Mode::EditingInt { key, buffer: next, min, max };
        },
        other => {
            state.mode = other;
        },
    }
}

fn confirm_key(state: &mut PiSettingsState, key: &KeyPress) -> (r: Outcome)
    requires
        old(state).wf(),
        old(state).mode is ConfirmReset,
    ensures
        final(state).wf(),
        confirm_answer(*old(state), *final(state), *key, r),
        final(state).registry == old(state).registry,
        final(state).values == old(state).values,
        final(state).pager_snapshot == old(state).pager_snapshot,
        final(state).gates == old(state).gates,
{
    let setting = match &state.mode {
        Mode::ConfirmReset { key } => *key,
        _ => return Outcome::Unchanged,
    };
    let yes = key.code == KeyCode::Char('y') || key.code == KeyCode::Char('Y') || key.code
        == KeyCode::Enter;
    let no = key.code == KeyCode::Char('n') || key.code == KeyCode::Char('N') || key.code
        == KeyCode::Esc;
    if yes {
        let action = state.reset_action(setting);
        state.to_browse();
        match action {
            Some(action) => Outcome::Action(action),
            None => Outcome::Changed,
        }
    } else if no {
        state.to_browse();
        Outcome::Changed
    } else {
        Outcome::Unchanged
    }
}

// ---------------------------------------------------------------------------
// Mouse
// ---------------------------------------------------------------------------
/// Handle a mouse event at `column`, `row`.
pub fn handle_mouse(state: &mut PiSettingsState, kind: MouseKind, column: u16, row: u16) -> (r:
    Outcome)
    requires
        old(state).wf(),
    ensures
        final(state).wf(),
        (old(state).mode is EditingString || old(state).mode is ConfirmReset) ==> r is Unchanged
            && *final(state) == *old(state),
        (old(state).mode is Browse || old(state).mode is Search) && kind == MouseKind::Moved
            ==> hover_moved(*old(state), *final(state), hover_target(*old(state), column, row), r),
        (old(state).mode is Browse || old(state).mode is Search) && kind == MouseKind::Down(
            MouseButton::Left,
        ) ==> list_click(*old(state), *final(state), column, row, r),
        (old(state).mode is Picking || old(state).mode is PickingGroup) && kind == MouseKind::Moved
            ==> hover_moved(*old(state), *final(state), choice_target(*old(state), column, row), r),
        (old(state).mode is Picking || old(state).mode is PickingGroup) && kind == MouseKind::Down(
            MouseButton::Left,
        ) ==> match choice_target(*old(state), column, row) {
            Some(h) => choice_click(*old(state), *final(state), h as int, r),
            None => r is Unchanged && *final(state) == *old(state),
        },
        old(state).mode is EditingInt && kind == MouseKind::Down(MouseButton::Left) ==> stepper_click(
            *old(state),
            *final(state),
            column,
            row,
            r,
        ),
        old(state).mode is EditingInt && kind != MouseKind::Down(MouseButton::Left) ==> r is Unchanged
            && *final(state) == *old(state),
        final(state).registry == old(state).registry,
        final(state).values == old(state).values,
        final(state).pager_snapshot == old(state).pager_snapshot,
        final(state).gates == old(state).gates,
{
    match state.mode.kind() {
        ModeKind::Picking | ModeKind::PickingGroup => choice_mouse(state, kind, column, row),
        ModeKind::EditingInt => stepper_mouse(state, kind, column, row),
        ModeKind::EditingString | ModeKind::ConfirmReset => Outcome::Unchanged,
        ModeKind::Browse | ModeKind::Search => list_mouse(state, kind, column, row),
    }
}

/// Whether `r` takes a click at the cell; with `need_height`, only a rect
/// of some height does.
pub open spec fn takes_click(r: Rect, column: u16, row: u16, need_height: bool) -> bool {
    (!need_height || r.height > 0) && r.spec_contains(column, row)
}

/// Position of the first rect of `rects`, from `i` on, that takes a click at
/// the cell.
pub open spec fn first_hit_from(
    rects: Seq<Rect>,
    column: u16,
    row: u16,
    need_height: bool,
    i: int,
) -> Option<int>
    decreases rects.len() - i,
{
    if i < 0 || i >= rects.len() {
        None
    } else if takes_click(rects[i], column, row, need_height) {
        Some(i)
    } else {
        first_hit_from(rects, column, row, need_height, i + 1)
    }
}

/// Position of the first rect of `rects` that takes a click at the cell.
pub open spec fn first_hit(rects: Seq<Rect>, column: u16, row: u16, need_height: bool) -> Option<
    int,
> {
    first_hit_from(rects, column, row, need_height, 0)
}

/// The first of `rects` that takes a click at the cell.
fn rect_hit(rects: &Vec<Rect>, column: u16, row: u16, need_height: bool) -> (r: Option<usize>)
    ensures
        match r {
            Some(i) => first_hit(rects@, column, row, need_height) == Some(i as int),
            None => first_hit(rects@, column, row, need_height) is None,
        },
{
    let mut i: usize = 0;
    while i < rects.len()
        invariant
            i <= rects@.len(),
            first_hit(rects@, column, row, need_height) == first_hit_from(
                rects@,
                column,
                row,
                need_height,
                i as int,
            ),
        decreases rects.len() - i,
    {
        if (!need_height || rects[i].height > 0) && rects[i].contains(column, row) {
            return Some(i);
        }
        i = i + 1;
    }
    None
}

/// The setting row under the pointer, if any.
pub open spec fn hover_target(s: PiSettingsState, column: u16, row: u16) -> Option<usize> {
    match first_hit(s.row_rects@, column, row, false) {
        Some(i) => if i < s.rows@.len() && s.rows@[i] is Setting {
            Some(i as usize)
        } else {
            None
        },
        None => None,
    }
}

/// What a pointer move answers: the hover follows the pointer, and only a
/// change repaints.
pub open spec fn hover_moved(s: PiSettingsState, f: PiSettingsState, target: Option<usize>, r: Outcome) -> bool {
    if target != s.hover {
        r is Changed && f == (PiSettingsState { hover: target, ..s })
    } else {
        r is Unchanged && f == s
    }
}

/// What a left click on the list answers. Outside the list, or off a
/// setting row, nothing. A click on an unfocused row only selects it, so its
/// description can be read first; a click on the focused row, or on a row's
/// value column, selects and activates it.
pub open spec fn list_click(s: PiSettingsState, f: PiSettingsState, column: u16, row: u16, r: Outcome) -> bool {
    if !s.list_area.spec_contains(column, row) {
        r is Unchanged && f == s
    } else {
        match hover_target(s, column, row) {
            Some(i) => {
                let picked = PiSettingsState { selected: i, ..s };
                if s.selected == i || (i < s.value_rects@.len() && s.value_rects@[i as int].spec_contains(
                    column,
                    row,
                )) {
                    activation(picked, f, r)
                } else {
                    r is Changed && f == picked
                }
            },
            None => r is Unchanged && f == s,
        }
    }
}

fn list_mouse(state: &mut PiSettingsState, kind: MouseKind, column: u16, row: u16) -> (r: Outcome)
    requires
        old(state).wf(),
    ensures
        final(state).wf(),
        kind == MouseKind::Moved ==> hover_moved(
            *old(state),
            *final(state),
            hover_target(*old(state), column, row),
            r,
        ),
        kind == MouseKind::Down(MouseButton::Left) ==> list_click(
            *old(state),
            *final(state),
            column,
            row,
            r,
        ),
        (kind == MouseKind::ScrollDown || kind == MouseKind::ScrollUp) && !old(
            state,
        ).list_area.spec_contains(column, row) ==> r is Unchanged && *final(state) == *old(state),
        kind == MouseKind::ScrollDown && old(state).list_area.spec_contains(column, row)
            ==> focus_moved(
            *old(state),
            *final(state),
            multi_step(*old(state), 1, 3).0,
            multi_step(*old(state), 1, 3).1,
            r,
        ),
        kind == MouseKind::ScrollUp && old(state).list_area.spec_contains(column, row)
            ==> focus_moved(
            *old(state),
            *final(state),
            multi_step(*old(state), -1, 3).0,
            multi_step(*old(state), -1, 3).1,
            r,
        ),
        !(kind == MouseKind::Moved || kind == MouseKind::Down(MouseButton::Left) || kind
            == MouseKind::ScrollDown || kind == MouseKind::ScrollUp) ==> r is Unchanged
            && *final(state) == *old(state),
        final(state).registry == old(state).registry,
        final(state).values == old(state).values,
        final(state).pager_snapshot == old(state).pager_snapshot,
        final(state).gates == old(state).gates,
{
    let on_list = state.list_area.contains(column, row);
    if kind == MouseKind::Moved {
        let hovered = match rect_hit(&state.row_rects, column, row, false) {
            Some(i) => if i < state.rows.len() && state.rows[i].is_setting() {
                Some(i)
            } else {
                None
            },
            None => None,
        };
        if hovered != state.hover {
            state.hover = hovered;
            return Outcome::Changed;
        }
        return Outcome::Unchanged;
    }
    match kind {
        MouseKind::Down(MouseButton::Left) => {
            if !on_list {
                return Outcome::Unchanged;
            }
            let index = match rect_hit(&state.row_rects, column, row, false) {
                Some(i) => i,
                None => return Outcome::Unchanged,
            };
            if index >= state.rows.len() || !state.rows[index].is_setting() {
                return Outcome::Unchanged;
            }
            // Two-stage click: a click on an unfocused row only selects it;
            // clicking the focused row, or its value column, activates.
            let on_value = if index < state.value_rects.len() {
                state.value_rects[index].contains(column, row)
            } else {
                false
            };
            let was_focused = state.selected == index;
            state.select_row(index);
            if on_value || was_focused {
                return activate_focused(state);
            }
            Outcome::Changed
        },
        MouseKind::ScrollDown | MouseKind::ScrollUp => {
            if !on_list {
                return Outcome::Unchanged;
            }
            let delta: isize = if kind == MouseKind::ScrollDown {
                1
            } else {
                -1
            };
            let mut moved = false;
            let mut i: usize = 0;
            while i < 3
                invariant
                    state.wf(),
                    delta != 0,
                    i <= 3,
                    delta == 1 || delta == -1,
                    kind == MouseKind::ScrollDown <==> delta == 1,
                    *state == (PiSettingsState { selected: state.selected, ..*old(state) }),
                    multi_step(*old(state), delta as int, 3).0 == multi_step(
                        *state,
                        delta as int,
                        3 - i,
                    ).0,
                    multi_step(*old(state), delta as int, 3).1 == (moved || multi_step(
                        *state,
                        delta as int,
                        3 - i,
                    ).1),
                    state.registry == old(state).registry,
                    state.values == old(state).values,
                    state.pager_snapshot == old(state).pager_snapshot,
                    state.gates == old(state).gates,
                decreases 3 - i,
            {
                let m = state.step(delta);
                moved = moved || m;
                i = i + 1;
            }
            Outcome::changed_if(moved)
        },
        _ => Outcome::Unchanged,
    }
}

/// The choice under the pointer, if any.
pub open spec fn choice_target(s: PiSettingsState, column: u16, row: u16) -> Option<usize> {
    match first_hit(s.choice_rects@, column, row, true) {
        Some(h) => Some(h as usize),
        None => None,
    }
}

/// What a click on choice `h` answers: in a chooser the cursor moves there
/// (with its preview); in a group sheet the cursor moves there and that
/// child flips.
pub open spec fn choice_click(s: PiSettingsState, f: PiSettingsState, h: int, r: Outcome) -> bool {
    match s.mode {
        Mode::Picking { index, supports_preview, .. } => picker_moved(
            s,
            f,
            index as int,
            h,
            supports_preview,
            r,
        ),
        Mode::PickingGroup { key, .. } => if h < sheet_children(s).len() {
            f == (PiSettingsState { mode: Mode::PickingGroup { key, child: h as usize }, ..s })
                && child_toggle_answer(s, sheet_children(s)[h]@, r)
        } else {
            r is Unchanged && f == s
        },
        _ => true,
    }
}

fn choice_mouse(state: &mut PiSettingsState, kind: MouseKind, column: u16, row: u16) -> (r: Outcome)
    requires
        old(state).wf(),
        old(state).mode is Picking || old(state).mode is PickingGroup,
    ensures
        final(state).wf(),
        kind == MouseKind::Moved ==> hover_moved(
            *old(state),
            *final(state),
            choice_target(*old(state), column, row),
            r,
        ),
        kind == MouseKind::Down(MouseButton::Left) ==> match choice_target(
            *old(state),
            column,
            row,
        ) {
            Some(h) => choice_click(*old(state), *final(state), h as int, r),
            None => r is Unchanged && *final(state) == *old(state),
        },
        !(kind == MouseKind::Moved || kind == MouseKind::Down(MouseButton::Left)) ==> r is Unchanged
            && *final(state) == *old(state),
        final(state).registry == old(state).registry,
        final(state).values == old(state).values,
        final(state).pager_snapshot == old(state).pager_snapshot,
        final(state).gates == old(state).gates,
{
    let hit = rect_hit(&state.choice_rects, column, row, true);
    if kind == MouseKind::Moved {
        if hit != state.hover {
            state.hover = hit;
            return Outcome::Changed;
        }
        return Outcome::Unchanged;
    }
    if kind != MouseKind::Down(MouseButton::Left) {
        return Outcome::Unchanged;
    }
    let hit = match hit {
        Some(h) => h,
        None => return Outcome::Unchanged,
    };
    match &state.mode {
        // A click moves the chooser cursor (and previews), as Up/Down do;
        // Enter still commits.
        Mode::Picking { index, supports_preview, .. } => {
            let index = *index;
            let sp = *supports_preview;
            move_choice_to(state, index, hit, sp)
        },
        Mode::PickingGroup { key, .. } => {
            let key = *key;
            let children = state.group_children(key);
            if hit >= children.len() {
                return Outcome::Unchanged;
            }
            let child = children[hit];
            state.mode = Mode::PickingGroup { key, child: hit };
            toggle_group_child(state, child)
        },
        _ => Outcome::Unchanged,
    }
}

/// What a left click on the number editor answers: the arrows step by the
/// small step; elsewhere nothing.
pub open spec fn stepper_click(s: PiSettingsState, f: PiSettingsState, column: u16, row: u16, r: Outcome) -> bool {
    if s.stepper_rects.0.spec_contains(column, row) {
        int_set(s, f, int_current(s) - int_steps(s).0, r)
    } else if s.stepper_rects.1.spec_contains(column, row) {
        int_set(s, f, int_current(s) + int_steps(s).0, r)
    } else {
        r is Unchanged && f == s
    }
}

fn stepper_mouse(state: &mut PiSettingsState, kind: MouseKind, column: u16, row: u16) -> (r:
    Outcome)
    requires
        old(state).wf(),
        old(state).mode is EditingInt,
    ensures
        final(state).wf(),
        kind != MouseKind::Down(MouseButton::Left) ==> r is Unchanged && *final(state) == *old(
            state,
        ),
        kind == MouseKind::Down(MouseButton::Left) ==> stepper_click(
            *old(state),
            *final(state),
            column,
            row,
            r,
        ),
        final(state).registry == old(state).registry,
        final(state).values == old(state).values,
        final(state).pager_snapshot == old(state).pager_snapshot,
        final(state).gates == old(state).gates,
{
    if kind != MouseKind::Down(MouseButton::Left) {
        return Outcome::Unchanged;
    }
    let (current, min, max) = match &state.mode {
        Mode::EditingInt { buffer, min, max, .. } => {
            let cs = chars_of(buffer.as_str());
            let current: i64 = match parse_i64(&cs) {
                Some(v) => v,
                None => *min,
            };
            (current, *min, *max)
        },
        _ => return Outcome::Unchanged,
    };
    let (small, _) = step_sizes(min, max);
    let (left, right) = state.stepper_rects;
    if left.contains(column, row) {
        return set_int(state, current as i128 - small as i128, min, max);
    }
    if right.contains(column, row) {
        return set_int(state, current as i128 + small as i128, min, max);
    }
    Outcome::Unchanged
}

} // verus!
