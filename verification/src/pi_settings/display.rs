//! Texts the settings panel shows: row values, footer hints, and the width
//! of the label column.
use vstd::prelude::*;
use crate::decimal::{dec_text, i64_text};
use crate::pi_settings::rows::Row;
use crate::pi_settings::state::{CodingDataSharingLock, Mode, PiSettingsState};
use crate::settings::registry::{EnumChoice, SettingKind, SettingMeta, SettingValue, ValueView};
use crate::text::{chars_of, concat, string_of, str_eq};

verus! {

/// Display name of an Enum canonical: its choice's label, or the canonical
/// itself when no choice has it, so a hand-edited config still renders.
pub open spec fn spec_enum_display(kind: SettingKind, canonical: Seq<char>) -> Seq<char> {
    match kind {
        SettingKind::Enum { choices, .. } => match first_choice(choices@, canonical) {
            Some(c) => c.display@,
            None => canonical,
        },
        _ => canonical,
    }
}

/// The first choice with `canonical`.
pub open spec fn first_choice(choices: Seq<EnumChoice>, canonical: Seq<char>) -> Option<EnumChoice>
    decreases choices.len(),
{
    if choices.len() == 0 {
        None
    } else if choices[0].canonical@ == canonical {
        Some(choices[0])
    } else {
        first_choice(choices.skip(1), canonical)
    }
}

fn enum_display(kind: &SettingKind, canonical: &str) -> (r: String)
    ensures
        r@ == spec_enum_display(*kind, canonical@),
{
    match kind {
        SettingKind::Enum { choices, .. } => {
            let mut i: usize = 0;
            assert(choices@.skip(0) =~= choices@);
            while i < choices.len()
                invariant
                    i <= choices@.len(),
                    spec_enum_display(*kind, canonical@) == match first_choice(choices@, canonical@) {
                        Some(c) => c.display@,
                        None => canonical@,
                    },
                    first_choice(choices@, canonical@) == first_choice(choices@.skip(i as int), canonical@),
                decreases choices.len() - i,
            {
                assert(choices@.skip(i as int).skip(1) =~= choices@.skip(i + 1));
                if str_eq(choices[i].canonical, canonical) {
                    return choices[i].display.to_owned();
                }
                i = i + 1;
            }
            canonical.to_owned()
        },
        _ => canonical.to_owned(),
    }
}

/// The value-column text of a setting: `ZDR` for a zero-retention lock,
/// else the value (on/off, the text or "(no override)" for an unset
/// model, the choice label, the number), with " · Admin Managed" after a
/// team-managed one.
pub open spec fn spec_value_text(kind: SettingKind, value: ValueView, lock: Option<CodingDataSharingLock>) -> Seq<char> {
    if lock == Some(CodingDataSharingLock::Zdr) {
        "ZDR"@
    } else {
        let base = match value {
            ValueView::Bool(b) => if b {
                "on"@
            } else {
                "off"@
            },
            ValueView::String(s) => if s.len() == 0 && kind is DynamicEnum {
                "(no override)"@
            } else {
                s
            },
            ValueView::Enum(c) => spec_enum_display(kind, c),
            ValueView::Int(i) => dec_text(i as int),
            ValueView::PiBuiltinTools(_) => "Pi built-in tools"@,
        };
        if lock == Some(CodingDataSharingLock::TeamManaged) {
            base + " \u{00B7} Admin Managed"@
        } else {
            base
        }
    }
}

/// Value-column text, shared by the row painter and the chooser.
pub fn value_text(meta: &SettingMeta, value: &SettingValue, lock: Option<CodingDataSharingLock>) -> (r:
    String)
    ensures
        r@ == spec_value_text(meta.kind, value@, lock),
{
    if lock == Some(CodingDataSharingLock::Zdr) {
        return "ZDR".to_owned();
    }
    let base: String = match value {
        SettingValue::Bool(b) => if *b {
            "on".to_owned()
        } else {
            "off".to_owned()
        },
        SettingValue::String(s) => {
            let dynamic = match meta.kind {
                SettingKind::DynamicEnum { .. } => true,
                _ => false,
            };
            if chars_of(s.as_str()).len() == 0 && dynamic {
                "(no override)".to_owned()
            } else {
                s.clone()
            }
        },
        SettingValue::Enum(c) => enum_display(&meta.kind, c.as_str()),
        SettingValue::Int(i) => string_of(&i64_text(*i)),
        SettingValue::PiBuiltinTools(_) => "Pi built-in tools".to_owned(),
    };
    if lock == Some(CodingDataSharingLock::TeamManaged) {
        string_of(&concat(&chars_of(base.as_str()), &chars_of(" \u{00B7} Admin Managed")))
    } else {
        base
    }
}

impl PiSettingsState {
    /// Footer hints for the current mode. A locked row advertises neither
    /// the edit keys nor reset.
    pub open spec fn spec_footer_hints(&self) -> Seq<Seq<char>> {
        match self.mode {
            Mode::Browse => {
                let locked = match self.spec_focused() {
                    Some((k, _)) => self.spec_lock(k) is Some,
                    None => false,
                };
                let enter = match self.spec_focused() {
                    Some((_, m)) => if m.kind is Bool {
                        "Enter toggle"@
                    } else {
                        "Enter edit"@
                    },
                    None => "Enter edit"@,
                };
                if locked {
                    seq!["\u{2191}/\u{2193}/j/k nav"@, "/ search"@, "F2/Esc close"@]
                } else {
                    seq![
                        "\u{2191}/\u{2193}/j/k nav"@,
                        "Space toggle"@,
                        enter,
                        "/ search"@,
                        "d reset"@,
                        "F2/Esc close"@,
                    ]
                }
            },
            Mode::Search => seq!["type to filter"@, "\u{2191}/\u{2193} nav"@, "Enter commit"@, "Esc clear"@],
            Mode::Picking { supports_preview, .. } => if supports_preview {
                seq!["\u{2191}/\u{2193} try"@, "Enter select"@, "Esc revert"@]
            } else {
                seq!["\u{2191}/\u{2193} nav"@, "Enter select"@, "Esc cancel"@]
            },
            Mode::PickingGroup { .. } => seq!["\u{2191}/\u{2193} nav"@, "Space/Enter toggle"@, "Esc back"@],
            Mode::EditingString { .. } => seq!["type to edit"@, "Enter save"@, "Esc cancel"@],
            Mode::EditingInt { .. } => seq!["\u{2190}/\u{2192} step"@, "Enter save"@, "Esc cancel"@],
            Mode::ConfirmReset { .. } => seq!["y reset"@, "n cancel"@, "Esc cancel"@],
        }
    }

    /// Footer hints for the current mode.
    pub fn footer_hints(&self) -> (r: Vec<&'static str>)
        requires
            self.wf(),
        ensures
            r@.len() == self.spec_footer_hints().len(),
            forall|i: int| 0 <= i < r@.len() ==> (#[trigger] r@[i])@ == self.spec_footer_hints()[i],
    {
        let r: Vec<&'static str> = match &self.mode {
            Mode::Browse => {
                let (locked, is_bool) = match self.focused() {
                    Some((k, m)) => (
                        self.lock(k).is_some(),
                        match m.kind {
                            SettingKind::Bool { .. } => true,
                            _ => false,
                        },
                    ),
                    None => (false, false),
                };
                if locked {
                    vec!["\u{2191}/\u{2193}/j/k nav", "/ search", "F2/Esc close"]
                } else {
                    let enter = if is_bool {
                        "Enter toggle"
                    } else {
                        "Enter edit"
                    };
                    vec!["\u{2191}/\u{2193}/j/k nav", "Space toggle", enter, "/ search", "d reset", "F2/Esc close"]
                }
            },
            Mode::Search => vec!["type to filter", "\u{2191}/\u{2193} nav", "Enter commit", "Esc clear"],
            Mode::Picking { supports_preview, .. } => if *supports_preview {
                vec!["\u{2191}/\u{2193} try", "Enter select", "Esc revert"]
            } else {
                vec!["\u{2191}/\u{2193} nav", "Enter select", "Esc cancel"]
            },
            Mode::PickingGroup { .. } => vec!["\u{2191}/\u{2193} nav", "Space/Enter toggle", "Esc back"],
            Mode::EditingString { .. } => vec!["type to edit", "Enter save", "Esc cancel"],
            Mode::EditingInt { .. } => vec!["\u{2190}/\u{2192} step", "Enter save", "Esc cancel"],
            Mode::ConfirmReset { .. } => vec!["y reset", "n cancel", "Esc cancel"],
        };
        assert(r@.map_values(|s: &'static str| s@) =~= self.spec_footer_hints());
        assert forall|i: int| 0 <= i < r@.len() implies (#[trigger] r@[i])@ == self.spec_footer_hints()[i] by {
            assert(r@.map_values(|s: &'static str| s@)[i] == r@[i]@);
        }
        r
    }
}

/// Display width in columns that `unicode-width` gives a text.
pub uninterp spec fn str_display_width(s: Seq<char>) -> usize;

/// `unicode_width::UnicodeWidthStr::width`. Its result is named, not
/// stated: the crate folds its Unicode width tables over the text, with
/// exceptions for sequences such as emoji joins and `"\r\n"`, so it is
/// not the sum of the characters' widths.
#[verifier::external_body]
pub(crate) fn str_width(s: &str) -> (r: usize)
    ensures
        r == str_display_width(s@),
{
    unicode_width::UnicodeWidthStr::width(s)
}

/// Label column ceiling, so one long label cannot starve the value column.
pub const LABEL_CAP: u16 = 30;

/// A label width cut to `u16`, and no more than `cap`.
pub open spec fn spec_clamp_width(w: int, cap: int) -> int {
    let cut = w % 0x10000;
    if cut < cap {
        cut
    } else {
        cap
    }
}

/// The widest label width among the first `n` visible setting rows.
pub open spec fn label_max(s: PiSettingsState, n: int, cap: int) -> int
    decreases n,
{
    if n <= 0 {
        0
    } else {
        let rest = label_max(s, n - 1, cap);
        match s.rows@[s.visible@[n - 1] as int] {
            Row::Setting { meta, .. } => {
                let w = spec_clamp_width(str_display_width(s.registry.entries@[meta as int].label@) as int, cap);
                if w > rest {
                    w
                } else {
                    rest
                }
            },
            _ => rest,
        }
    }
}

impl PiSettingsState {
    /// Label column width for a pane `pane_w` wide: the widest visible
    /// setting label, at most `LABEL_CAP` and half the pane.
    pub fn label_column_width(&self, pane_w: u16) -> (r: u16)
        requires
            self.wf(),
        ensures
            r == label_max(*self, self.visible@.len() as int, if LABEL_CAP < pane_w / 2 {
                LABEL_CAP as int
            } else {
                (pane_w / 2) as int
            }),
            r <= LABEL_CAP,
            r <= pane_w / 2,
    {
        proof {
            crate::pi_settings::state::lemma_visible_wf(self);
        }
        let cap: u16 = if LABEL_CAP < pane_w / 2 {
            LABEL_CAP
        } else {
            pane_w / 2
        };
        let mut best: u16 = 0;
        let mut i: usize = 0;
        while i < self.visible.len()
            invariant
                self.wf(),
                crate::pi_settings::rows::visible_wf(self.visible@, self.rows@.len()),
                i <= self.visible@.len(),
                best <= cap,
                best == label_max(*self, i as int, cap as int),
                cap <= LABEL_CAP,
                cap <= pane_w / 2,
            decreases self.visible.len() - i,
        {
            let row = self.visible[i];
            match self.rows[row] {
                Row::Setting { meta, .. } => {
                    let w = str_width(self.registry.entries[meta].label);
                    #[verifier::truncate]
                    let w16: u16 = (w % 0x10000) as u16;
                    let cut = if w16 < cap {
                        w16
                    } else {
                        cap
                    };
                    if cut > best {
                        best = cut;
                    }
                },
                _ => {},
            }
            i = i + 1;
        }
        best
    }
}

} // verus!
