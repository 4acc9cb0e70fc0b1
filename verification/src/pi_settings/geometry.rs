//! Geometry of the panel's click targets and title: where a row's value
//! column sits, where the chooser's choices and the number editor's arrows
//! are, and the breadcrumb over a sub-pane.
use vstd::prelude::*;
use crate::pi_settings::display::{spec_value_text, str_display_width, str_width, value_text};
use crate::pi_settings::keys::Rect;
use crate::pi_settings::layout::browse_layout;
use crate::pi_settings::input::{picker_choices, sheet_children};
use crate::pi_settings::state::{CodingDataSharingLock, Mode, PiSettingsState, MODAL_TITLE};
use crate::settings::registry::{opt_view, SettingKind, SettingMeta, SettingValue, ValueView};
use crate::text::{chars_of, concat, string_of};

verus! {

/// Narrowest content area the panel paints into.
pub const MIN_CONTENT_W: u16 = 24;

/// Whether the panel's content area exists and is large enough to paint:
/// two rows and `MIN_CONTENT_W` columns.
pub open spec fn spec_content_fits(content: Option<Rect>) -> bool {
    match content {
        Some(c) => c.height >= 2 && c.width >= MIN_CONTENT_W,
        None => false,
    }
}

/// `spec_content_fits`.
pub fn content_fits(content: Option<Rect>) -> (r: bool)
    ensures
        r == spec_content_fits(content),
{
    match content {
        Some(c) => c.height >= 2 && c.width >= MIN_CONTENT_W,
        None => false,
    }
}

/// Every click target is gone; the rest of the panel is as it was.
pub open spec fn hit_rects_cleared(old: PiSettingsState, new: PiSettingsState) -> bool {
    &&& new.list_area == Rect::spec_zero()
    &&& new.row_rects@.len() == 0
    &&& new.value_rects@.len() == 0
    &&& new.choice_rects@.len() == 0
    &&& new.stepper_rects == (Rect::spec_zero(), Rect::spec_zero())
    &&& new.hover == old.hover
    &&& new.mode == old.mode
    &&& new.rows == old.rows
    &&& new.visible == old.visible
    &&& new.selected == old.selected
    &&& new.scroll == old.scroll
    &&& new.query == old.query
    &&& new.registry == old.registry
    &&& new.values == old.values
    &&& new.pager_snapshot == old.pager_snapshot
    &&& new.gates == old.gates
    &&& new.close_on_picker_exit == old.close_on_picker_exit
}

/// Width of the focus cursor at the start of a row.
pub const CURSOR_W: u16 = 2;

/// Width of the chevron that marks rows opening a sub-pane.
pub const CHEVRON_W: u16 = 2;

/// Blank column after the chevron.
pub const RIGHT_PAD_W: u16 = 1;

/// Gap between the label column and the value column.
pub const GAP_W: u16 = 2;

/// Increment and decrement arrows of the number editor.
pub const STEPPER_LEFT: &'static str = "\u{2039}";

pub const STEPPER_RIGHT: &'static str = "\u{203A}";

/// `a - b`, or 0.
pub open spec fn sat_sub(a: int, b: int) -> int {
    if a > b {
        a - b
    } else {
        0
    }
}

/// `min(a, b)`.
pub open spec fn min_of(a: int, b: int) -> int {
    if a < b {
        a
    } else {
        b
    }
}

/// Where a setting row's parts sit.
#[derive(Debug, Clone, Copy, PartialEq, Eq, Structural)]
pub struct RowLayout {
    /// Click target of the value column, chevron included; zero-wide on a
    /// row whose value is missing.
    pub value: Rect,
    /// The row ends in a chevron: it opens a sub-pane.
    pub chevron: bool,
}

/// The value column of a setting row laid out in `area`, with labels cut to
/// `label_w`: the value text, right-aligned against the chevron column and
/// no wider than the room between the label column and the chevron, with
/// the chevron's width added. A missing value (registry skew) gets a
/// zero-wide target at the row's start; a Group has no value text.
pub open spec fn spec_row_layout(
    area: Rect,
    kind: SettingKind,
    value: Option<ValueView>,
    label_w: u16,
    lock: Option<CodingDataSharingLock>,
) -> RowLayout {
    let group = kind is Group;
    let chevron = lock is None && !(kind is Bool);
    if value is None && !group {
        RowLayout { value: Rect { x: area.x, y: area.y, width: 0, height: 1 }, chevron }
    } else {
        let label_x = area.x + min_of(CURSOR_W as int, area.width as int);
        let label_avail = sat_sub(area.width as int, CURSOR_W as int);
        let chevron_x = sat_sub(area.x + area.width, (RIGHT_PAD_W + CHEVRON_W) as int);
        let value_floor = label_x + min_of(label_w as int, label_avail) + GAP_W;
        let value_avail = sat_sub(chevron_x, value_floor);
        let text_w = match value {
            Some(v) => str_display_width(spec_value_text(kind, v, lock)) as int,
            None => 0,
        };
        let value_w = min_of(text_w, value_avail);
        RowLayout {
            value: Rect {
                x: sat_sub(chevron_x, value_w) as u16,
                y: area.y,
                width: min_of(value_w + CHEVRON_W, u16::MAX as int) as u16,
                height: 1,
            },
            chevron,
        }
    }
}

/// Lay out one setting row in `area`.
pub fn setting_row_layout(
    area: Rect,
    meta: &SettingMeta,
    value: Option<&SettingValue>,
    label_w: u16,
    lock: Option<CodingDataSharingLock>,
) -> (r: RowLayout)
    requires
        area.x + area.width + GAP_W <= u16::MAX,
    ensures
        r == spec_row_layout(
            area,
            meta.kind,
            match value {
                Some(v) => Some(v@),
                None => None,
            },
            label_w,
            lock,
        ),
{
    let group = match meta.kind {
        SettingKind::Group { .. } => true,
        _ => false,
    };
    let is_bool = match meta.kind {
        SettingKind::Bool { .. } => true,
        _ => false,
    };
    let chevron = lock.is_none() && !is_bool;
    if value.is_none() && !group {
        return RowLayout { value: Rect { x: area.x, y: area.y, width: 0, height: 1 }, chevron };
    }
    let cursor = if CURSOR_W < area.width {
        CURSOR_W
    } else {
        area.width
    };
    let label_x = area.x + cursor;
    let label_avail = if area.width > CURSOR_W {
        area.width - CURSOR_W
    } else {
        0
    };
    let right = area.x + area.width;
    let chevron_x = if right > RIGHT_PAD_W + CHEVRON_W {
        right - (RIGHT_PAD_W + CHEVRON_W)
    } else {
        0
    };
    let label_cut = if label_w < label_avail {
        label_w
    } else {
        label_avail
    };
    let value_floor = label_x + label_cut + GAP_W;
    let value_avail = if chevron_x > value_floor {
        chevron_x - value_floor
    } else {
        0
    };
    let text_w: usize = match value {
        Some(v) => str_width(value_text(meta, v, lock).as_str()),
        None => 0,
    };
    let value_w: u16 = if text_w < value_avail as usize {
        text_w as u16
    } else {
        value_avail
    };
    let x = if chevron_x > value_w {
        chevron_x - value_w
    } else {
        0
    };
    let width: u16 = if (value_w as u32) + (CHEVRON_W as u32) < 0x10000 {
        value_w + CHEVRON_W
    } else {
        u16::MAX
    };
    RowLayout { value: Rect { x, y: area.y, width, height: 1 }, chevron }
}

/// Top row of choice `i` in a list whose first shown choice is `first`,
/// drawn from row `top` down to row `end`: each choice takes its label row
/// plus its description rows (`rows[j]`, none past the end of `rows`),
/// cut at `end`.
pub open spec fn choice_top(top: int, end: int, rows: Seq<u16>, first: int, i: int) -> int
    decreases i - first,
{
    if i <= first {
        top
    } else {
        let y = choice_top(top, end, rows, first, i - 1);
        if y >= end {
            y
        } else {
            y + min_of(1 + desc_rows(rows, i - 1), end - y)
        }
    }
}

/// Description rows of choice `j`.
pub open spec fn desc_rows(rows: Seq<u16>, j: int) -> int {
    if 0 <= j < rows.len() {
        rows[j] as int
    } else {
        0
    }
}

/// Click target of choice `i` in a chooser laid out in `body`: none before
/// the first shown choice or once the list has run out of rows.
pub open spec fn choice_rect(body: Rect, rows: Seq<u16>, first: int, i: int) -> Rect {
    let end = body.y + body.height;
    let y = choice_top(body.y as int, end, rows, first, i);
    if i < first || y >= end {
        Rect::spec_zero()
    } else {
        Rect {
            x: body.x,
            y: y as u16,
            width: body.width,
            height: min_of(1 + desc_rows(rows, i), end - y) as u16,
        }
    }
}

/// Click target of child `i` in a group sheet laid out in `body`: one row
/// each, while rows remain.
pub open spec fn child_rect(body: Rect, i: int) -> Rect {
    if body.y + i < body.y + body.height {
        Rect { x: body.x, y: (body.y + i) as u16, width: body.width, height: 1 }
    } else {
        Rect::spec_zero()
    }
}

/// The chooser's first shown choice: its scroll, held on the list.
pub open spec fn shown_first(scroll: int, n: int) -> int {
    if n == 0 {
        0
    } else if scroll < n - 1 {
        scroll
    } else {
        n - 1
    }
}

/// The number editor's arrows on the field row `field`, for the text
/// `buffer`: the decrement arrow at the field's start, the increment arrow
/// after the arrow, two blanks, the number and two blanks.
pub open spec fn stepper_rects_for(field: Rect, buffer: Seq<char>) -> (Rect, Rect) {
    let lw = str_display_width(STEPPER_LEFT@) as int;
    let rw = str_display_width(STEPPER_RIGHT@) as int;
    let bw = str_display_width(buffer) as int;
    (
        Rect { x: field.x, y: field.y, width: lw as u16, height: 1 },
        Rect {
            x: (field.x + ((lw + 2 + bw + 2) as u16)) as u16,
            y: field.y,
            width: rw as u16,
            height: 1,
        },
    )
}

impl PiSettingsState {
    /// The panel's title: on a sub-pane, a breadcrumb from the panel to the
    /// setting's label; otherwise the panel's name.
    pub open spec fn spec_title(&self) -> Seq<char> {
        match self.mode.spec_subject() {
            Some(k) => match self.registry.find_spec(k) {
                Some(i) => if self.mode.spec_is_sub_pane() {
                    MODAL_TITLE@ + " \u{203A} "@ + self.registry.entries@[i].label@
                } else {
                    MODAL_TITLE@
                },
                None => MODAL_TITLE@,
            },
            None => MODAL_TITLE@,
        }
    }

    /// The panel's title.
    pub fn panel_title(&self) -> (r: String)
        ensures
            r@ == self.spec_title(),
    {
        let sub = self.mode.is_sub_pane();
        match self.mode.subject() {
            Some(k) => match self.registry.position(k) {
                Some(i) => if sub {
                    let head = concat(&chars_of(MODAL_TITLE), &chars_of(" \u{203A} "));
                    string_of(&concat(&head, &chars_of(self.registry.entries[i].label)))
                } else {
                    MODAL_TITLE.to_owned()
                },
                None => MODAL_TITLE.to_owned(),
            },
            None => MODAL_TITLE.to_owned(),
        }
    }

    /// The number editor's arrows on the field row `field`; zero-sized
    /// outside the number editor.
    pub fn editor_stepper_rects(&self, field: Rect) -> (r: (Rect, Rect))
        ensures
            match self.mode {
                Mode::EditingInt { buffer, .. } => r == stepper_rects_for(field, buffer@),
                _ => r == (Rect::spec_zero(), Rect::spec_zero()),
            },
    {
        match &self.mode {
            Mode::EditingInt { buffer, .. } => {
                let lw = str_width(STEPPER_LEFT);
                let rw = str_width(STEPPER_RIGHT);
                let bw = str_width(buffer.as_str());
                let a: u128 = lw as u128;
                let b: u128 = bw as u128;
                let offset: u16 = #[verifier::truncate] ((a + 2 + b + 2) as u16);
                let x: u16 = #[verifier::truncate] ((field.x as u32 + offset as u32) as u16);
                let left = Rect { x: field.x, y: field.y, width: #[verifier::truncate] (lw as u16), height: 1 };
                let right = Rect { x, y: field.y, width: #[verifier::truncate] (rw as u16), height: 1 };
                (left, right)
            },
            _ => (Rect::zero(), Rect::zero()),
        }
    }
}

impl PiSettingsState {
    /// Lay out the panel for a paint into `content`, the modal's content
    /// area (`None` when the modal did not fit the screen). With no usable
    /// area every click target is cleared, so mouse events fall through;
    /// browsing and searching lay out the list and drop the sub-panes'
    /// targets; a sub-pane starts from no targets, and its chooser or
    /// editor targets are laid out by `layout_choices` or `layout_editor`.
    pub fn layout_panel(&mut self, content: Option<Rect>)
        requires
            old(self).wf(),
            content matches Some(c) ==> c.x + c.width + GAP_W <= u16::MAX && c.y + c.height
                <= u16::MAX,
        ensures
            final(self).wf(),
            !spec_content_fits(content) || !(old(self).mode is Browse || old(self).mode is Search)
                ==> hit_rects_cleared(*old(self), *final(self)),
            spec_content_fits(content) && (old(self).mode is Browse || old(self).mode is Search) ==> {
                &&& browse_layout(*old(self), *final(self))
                &&& final(self).choice_rects@.len() == 0
                &&& final(self).stepper_rects == (Rect::spec_zero(), Rect::spec_zero())
            },
    {
        let browsing = match self.mode {
            Mode::Browse | Mode::Search => true,
            _ => false,
        };
        if !content_fits(content) || !browsing {
            self.reset_hit_rects();
            return;
        }
        match content {
            Some(c) => {
                self.choice_rects = Vec::new();
                self.stepper_rects = (Rect::zero(), Rect::zero());
                self.layout_browse(c);
            },
            None => {},
        }
    }

    /// Lay out the choices of the open chooser or group sheet in `body`,
    /// the area under the sub-pane's header. In a chooser each choice takes
    /// its label row plus its description's rows (`description_rows`, as
    /// the renderer wrapped them), from the scroll position down, and the
    /// scroll is held on the list; in a group sheet each child takes one
    /// row. Choices that do not fit get a zero-sized target.
    pub fn layout_choices(&mut self, body: Rect, description_rows: &Vec<u16>)
        requires
            old(self).wf(),
            body.y + body.height <= u16::MAX,
        ensures
            final(self).wf(),
            match old(self).mode {
                Mode::Picking { key, index, original, supports_preview, scroll } => {
                    let n = picker_choices(*old(self)).len() as int;
                    let first = shown_first(scroll as int, n);
                    &&& final(self).mode == (Mode::Picking {
                        key,
                        index,
                        original,
                        supports_preview,
                        scroll: first as usize,
                    })
                    &&& final(self).choice_rects@.len() == n
                    &&& forall|i: int|
                        0 <= i < n ==> #[trigger] final(self).choice_rects@[i] == choice_rect(
                            body,
                            description_rows@,
                            first,
                            i,
                        )
                },
                Mode::PickingGroup { .. } => {
                    &&& final(self).mode == old(self).mode
                    &&& final(self).choice_rects@.len() == sheet_children(*old(self)).len()
                    &&& forall|i: int|
                        0 <= i < final(self).choice_rects@.len() ==> #[trigger] final(self).choice_rects@[i]
                            == child_rect(body, i)
                },
                _ => final(self).mode == old(self).mode && final(self).choice_rects@.len() == 0,
            },
            final(self).rows == old(self).rows,
            final(self).visible == old(self).visible,
            final(self).selected == old(self).selected,
            final(self).query == old(self).query,
            final(self).registry == old(self).registry,
            final(self).values == old(self).values,
            final(self).pager_snapshot == old(self).pager_snapshot,
            final(self).gates == old(self).gates,
            final(self).hover == old(self).hover,
            final(self).close_on_picker_exit == old(self).close_on_picker_exit,
    {
        let top: u32 = body.y as u32;
        let end: u32 = body.y as u32 + body.height as u32;
        let mut rects: Vec<Rect> = Vec::new();
        let mut mode = Mode::Browse;
        std::mem::swap(&mut mode, &mut self.mode);
        match mode {
            Mode::Picking { key, index, original, supports_preview, scroll } => {
                let n = self.choices_for(key).len();
                proof {
                    assert(n == self.spec_choices(key@).len());
                }
                let first: usize = if n == 0 {
                    0
                } else if scroll < n - 1 {
                    scroll
                } else {
                    n - 1
                };
                let mut y: u32 = top;
                let mut i: usize = 0;
                while i < n
                    invariant
                        i <= n,
                        end == body.y + body.height,
                        top == body.y,
                        end <= u16::MAX,
                        rects@.len() == i,
                        y as int == choice_top(top as int, end as int, description_rows@, first as int, i as int),
                        top <= y,
                        y < end || y == end || y == top,
                        forall|j: int| 0 <= j < i ==> #[trigger] rects@[j] == choice_rect(
                            body,
                            description_rows@,
                            first as int,
                            j,
                        ),
                    decreases n - i,
                {
                    let d: u32 = if i < description_rows.len() {
                        description_rows[i] as u32
                    } else {
                        0
                    };
                    if i < first || y >= end {
                        rects.push(Rect::zero());
                    } else {
                        let h: u32 = if 1 + d < end - y {
                            1 + d
                        } else {
                            end - y
                        };
                        rects.push(Rect { x: body.x, y: y as u16, width: body.width, height: h as u16 });
                        y = y + h;
                    }
                    i = i + 1;
                }
                self.mode = Mode::Picking { key, index, original, supports_preview, scroll: first };
            },
            Mode::PickingGroup { key, child } => {
                let n = self.group_children(key).len();
                let mut i: usize = 0;
                while i < n
                    invariant
                        i <= n,
                        end == body.y + body.height,
                        top == body.y,
                        end <= u16::MAX,
                        rects@.len() == i,
                        forall|j: int| 0 <= j < i ==> #[trigger] rects@[j] == child_rect(body, j),
                    decreases n - i,
                {
                    if (top as u128) + (i as u128) < end as u128 {
                        rects.push(Rect { x: body.x, y: (top + i as u32) as u16, width: body.width, height: 1 });
                    } else {
                        rects.push(Rect::zero());
                    }
                    i = i + 1;
                }
                self.mode = Mode::PickingGroup { key, child };
            },
            other => {
                self.mode = other;
            },
        }
        self.choice_rects = rects;
    }

    /// Lay out the number editor on the field row `field`: its arrows'
    /// click targets.
    pub fn layout_editor(&mut self, field: Rect)
        requires
            old(self).wf(),
        ensures
            final(self).wf(),
            final(self).stepper_rects == old(self).editor_stepper_rects_spec(field),
            *final(self) == (PiSettingsState { stepper_rects: final(self).stepper_rects, ..*old(self) }),
    {
        self.stepper_rects = self.editor_stepper_rects(field);
    }

    /// `editor_stepper_rects`, as a value.
    pub open spec fn editor_stepper_rects_spec(&self, field: Rect) -> (Rect, Rect) {
        match self.mode {
            Mode::EditingInt { buffer, .. } => stepper_rects_for(field, buffer@),
            _ => (Rect::spec_zero(), Rect::spec_zero()),
        }
    }
}

} // verus!
