//! Geometry of the browse surface: the scroll window over the visible rows
//! and the click rect of each row on screen.
//!
//! Every list row is exactly one line high, so the scroll window is a plain
//! slice of `visible`. A fixed description block sits under the list, and
//! a two-line search banner above it while a query is set.
use vstd::prelude::*;
use crate::pi_settings::keys::Rect;
use crate::pi_settings::rows::Row;
use crate::pi_settings::display::{label_max, LABEL_CAP};
use crate::pi_settings::geometry::{setting_row_layout, spec_row_layout, GAP_W};
use crate::pi_settings::state::{
    lemma_position_unique, lemma_visible_wf, spec_position, spec_value_of, PiSettingsState,
};

verus! {

/// Rows of the description block under the list.
pub const DESCRIPTION_ROWS: u16 = 3;

/// The description block plus the blank row above it.
pub const DESCRIPTION_BLOCK: u16 = 4;

/// Height of the search banner (search bar and divider).
pub const SEARCH_BANNER: u16 = 2;

/// Scroll offset that keeps the focused row inside a window of `viewport`
/// rows, pulling in the heading above it when it would sit on the first
/// line and the window has room for both.
pub open spec fn spec_clamp_scroll(
    rows: Seq<Row>,
    vis: Seq<usize>,
    scroll: int,
    position: Option<int>,
    viewport: int,
) -> int {
    let max = if vis.len() > viewport {
        vis.len() - viewport
    } else {
        0
    };
    match position {
        None => if scroll < max {
            scroll
        } else {
            max
        },
        Some(p) => {
            let s1 = if p < scroll {
                p
            } else {
                scroll
            };
            let s2 = if p >= s1 + viewport {
                p + 1 - viewport
            } else {
                s1
            };
            let s3 = if viewport > 1 && s2 == p && p > 0 && !(rows[vis[p - 1] as int] is Setting) {
                p - 1
            } else {
                s2
            };
            if s3 < max {
                s3
            } else {
                max
            }
        },
    }
}

/// The label column's width depends only on the rows on screen.
proof fn lemma_label_max_same(a: PiSettingsState, b: PiSettingsState, n: int, cap: int)
    requires
        a.rows == b.rows,
        a.visible == b.visible,
        a.registry == b.registry,
    ensures
        label_max(a, n, cap) == label_max(b, n, cap),
    decreases n,
{
    if n > 0 {
        lemma_label_max_same(a, b, n - 1, cap);
    }
}

/// The label column's width on the browse surface of `s`.
pub open spec fn browse_label_w(s: PiSettingsState) -> int {
    label_max(s, s.visible@.len() as int, if LABEL_CAP < s.list_area.width / 2 {
        LABEL_CAP as int
    } else {
        (s.list_area.width / 2) as int
    })
}

/// Click rect of the value column of row `row`, drawn in `rect`: that of a
/// setting row's layout, none for a heading.
pub open spec fn value_rect_at(s: PiSettingsState, rect: Rect, row: int) -> Rect {
    match s.rows@[row] {
        Row::Setting { key, meta } => spec_row_layout(
            rect,
            s.registry.entries@[meta as int].kind,
            spec_value_of(s.values@, key@),
            browse_label_w(s) as u16,
            s.spec_lock(key@),
        ).value,
        _ => Rect::spec_zero(),
    }
}

/// Click rect of the value column of row `row` on the laid-out browse
/// surface of `s`.
pub open spec fn row_value_rect(s: PiSettingsState, row: int) -> Rect {
    value_rect_at(s, s.row_rects@[row], row)
}

/// What laying out the browse list does: hit rects for every row, the
/// rows in the painted window stacked from the list's top with their value
/// targets, nothing for the others, the focus scrolled into view, and the
/// panel's content left as it was.
pub open spec fn browse_layout(old: PiSettingsState, new: PiSettingsState) -> bool {
    &&& new.row_rects@.len() == old.rows@.len()
    &&& new.value_rects@.len() == old.rows@.len()
    &&& new.list_area.height > 0 && new.visible@.len() > 0 ==> forall|k: int|
            new.scroll <= k < new.visible@.len() && k < new.scroll
                + new.list_area.height ==> (#[trigger] new.row_rects@[new.visible@[k] as int]) == (Rect {
                x: new.list_area.x,
                y: (new.list_area.y + (k - new.scroll)) as u16,
                width: new.list_area.width,
                height: 1,
            })
    &&& forall|i: int|
            0 <= i < new.rows@.len() && (forall|k: int|
                new.scroll <= k < new.visible@.len() && k < new.scroll
                    + new.list_area.height ==> new.visible@[k] != i) ==> (
            #[trigger] new.row_rects@[i]) == Rect::spec_zero()
    &&& forall|i: int|
            0 <= i < new.rows@.len() && (forall|k: int|
                new.scroll <= k < new.visible@.len() && k < new.scroll
                    + new.list_area.height ==> new.visible@[k] != i) ==> (
            #[trigger] new.value_rects@[i]) == Rect::spec_zero()
    &&& new.list_area.height > 0 && new.visible@.len() > 0 ==> forall|k: int|
            new.scroll <= k < new.visible@.len() && k < new.scroll
                + new.list_area.height ==> (#[trigger] new.value_rects@[new.visible@[k] as int])
                == row_value_rect(new, new.visible@[k] as int)
    &&& new.list_area.height >= 1 ==> (spec_position(new.visible@, new.selected) matches Some(p)
        ==> new.scroll <= p < new.scroll + new.list_area.height)
    &&& new.rows == old.rows
    &&& new.visible == old.visible
    &&& new.selected == old.selected
    &&& new.mode == old.mode
    &&& new.query == old.query
    &&& new.registry == old.registry
    &&& new.values == old.values
    &&& new.pager_snapshot == old.pager_snapshot
    &&& new.gates == old.gates
    &&& new.hover == old.hover
    &&& new.close_on_picker_exit == old.close_on_picker_exit
}

impl PiSettingsState {
    /// Scroll offset for a window of `viewport` rows that keeps the focus on
    /// screen.
    pub fn clamp_scroll(&self, viewport: usize) -> (r: usize)
        requires
            self.wf(),
            viewport > 0,
        ensures
            r == spec_clamp_scroll(
                self.rows@,
                self.visible@,
                self.scroll as int,
                spec_position(self.visible@, self.selected),
                viewport as int,
            ),
            spec_position(self.visible@, self.selected) matches Some(p) ==> r <= p < r + viewport,
    {
        proof {
            lemma_visible_wf(self);
        }
        let len = self.visible.len();
        let max: usize = if len > viewport {
            len - viewport
        } else {
            0
        };
        let p = match self.position_of(self.selected) {
            Some(p) => p,
            None => {
                return if self.scroll < max {
                    self.scroll
                } else {
                    max
                };
            },
        };
        proof {
            lemma_position_unique(self.visible@, self.selected, p as int);
        }
        let mut scroll = self.scroll;
        if p < scroll {
            scroll = p;
        }
        if p >= scroll && p - scroll >= viewport {
            scroll = p + 1 - viewport;
        }
        if viewport > 1 && scroll == p && p > 0 && !self.rows[self.visible[p - 1]].is_setting() {
            scroll = p - 1;
        }
        if scroll < max {
            scroll
        } else {
            max
        }
    }

    /// Lay out the browse surface inside `content`: the list area, the
    /// scroll offset, and a one-line click rect for each row in the scroll
    /// window (zero-sized for rows off screen), and for each setting row on
    /// screen the click rect of its value column.
    pub fn layout_browse(&mut self, content: Rect)
        requires
            old(self).wf(),
            content.x + content.width + GAP_W <= u16::MAX,
            content.y + content.height <= u16::MAX,
        ensures
            final(self).wf(),
            browse_layout(*old(self), *final(self)),
            final(self).choice_rects == old(self).choice_rects,
            final(self).stepper_rects == old(self).stepper_rects,
    {
        let mut area = content;
        // The search banner exists only while a query is live.
        if self.searching() && area.height >= 3 {
            area = Rect {
                x: area.x,
                y: area.y + SEARCH_BANNER,
                width: area.width,
                height: area.height - SEARCH_BANNER,
            };
        }
        // Reserve the description block whenever a usable list still fits.
        let list = if area.height > DESCRIPTION_BLOCK + 1 {
            Rect { x: area.x, y: area.y, width: area.width, height: area.height - DESCRIPTION_BLOCK }
        } else {
            area
        };
        self.list_area = list;
        let n = self.rows.len();
        let mut row_rects: Vec<Rect> = Vec::new();
        let mut value_rects: Vec<Rect> = Vec::new();
        let mut i: usize = 0;
        while i < n
            invariant
                i <= n,
                row_rects@.len() == i,
                value_rects@.len() == i,
                forall|j: int| 0 <= j < i ==> row_rects@[j] == Rect::spec_zero(),
                forall|j: int| 0 <= j < i ==> value_rects@[j] == Rect::spec_zero(),
            decreases n - i,
        {
            row_rects.push(Rect::zero());
            value_rects.push(Rect::zero());
            i = i + 1;
        }
        let viewport = list.height as usize;
        if viewport == 0 || self.visible.len() == 0 {
            self.row_rects = row_rects;
            self.value_rects = value_rects;
            return;
        }
        let scroll = self.clamp_scroll(viewport);
        self.scroll = scroll;
        let label_w = self.label_column_width(list.width);
        proof {
            lemma_visible_wf(self);
        }
        let end = if self.visible.len() < scroll + viewport {
            self.visible.len()
        } else {
            scroll + viewport
        };
        let mut k: usize = scroll;
        while k < end
            invariant
                self.wf(),
                scroll <= k <= end <= self.visible@.len(),
                end <= scroll + viewport,
                viewport == list.height,
                list.y + list.height <= u16::MAX,
                row_rects@.len() == self.rows@.len(),
                value_rects@.len() == self.rows@.len(),
                self.list_area == list,
                list.x + list.width + GAP_W <= u16::MAX,
                label_w as int == browse_label_w(*self),
                forall|a: int| 0 <= a < self.visible@.len() ==> (#[trigger] self.visible@[a]) < self.rows@.len(),
                forall|a: int, b: int| 0 <= a < b < self.visible@.len() ==> self.visible@[a] < self.visible@[b],
                forall|j: int|
                    scroll <= j < k ==> (#[trigger] row_rects@[self.visible@[j] as int]) == (Rect {
                        x: list.x,
                        y: (list.y + (j - scroll)) as u16,
                        width: list.width,
                        height: 1,
                    }),
                forall|i: int|
                    0 <= i < self.rows@.len() && (forall|j: int| scroll <= j < k ==> self.visible@[j] != i)
                        ==> (#[trigger] row_rects@[i]) == Rect::spec_zero(),
                forall|i: int|
                    0 <= i < self.rows@.len() && (forall|j: int| scroll <= j < k ==> self.visible@[j] != i)
                        ==> (#[trigger] value_rects@[i]) == Rect::spec_zero(),
                forall|j: int|
                    scroll <= j < k ==> (#[trigger] value_rects@[self.visible@[j] as int]) == value_rect_at(
                        *self,
                        row_rects@[self.visible@[j] as int],
                        self.visible@[j] as int,
                    ),
            decreases end - k,
        {
            let row = self.visible[k];
            let offset = (k - scroll) as u16;
            let rect = Rect { x: list.x, y: list.y + offset, width: list.width, height: 1 };
            let ghost before = row_rects@;
            let ghost vbefore = value_rects@;
            row_rects.set(row, rect);
            let vr = match &self.rows[row] {
                Row::Setting { key, meta } => {
                    let value = self.value_of(key);
                    let v = match &value {
                        Some(v) => Some(v),
                        None => None,
                    };
                    setting_row_layout(rect, &self.registry.entries[*meta], v, label_w, self.lock(key)).value
                },
                _ => Rect::zero(),
            };
            value_rects.set(row, vr);
            assert forall|j: int| scroll <= j < k + 1 implies (#[trigger] value_rects@[self.visible@[j] as int]) == value_rect_at(
                *self,
                row_rects@[self.visible@[j] as int],
                self.visible@[j] as int,
            ) by {
                if j < k {
                    assert(self.visible@[j] < self.visible@[k as int]);
                    assert(before[self.visible@[j] as int] == row_rects@[self.visible@[j] as int]);
                    assert(vbefore[self.visible@[j] as int] == value_rects@[self.visible@[j] as int]);
                }
            }
            assert forall|i: int|
                0 <= i < self.rows@.len() && (forall|j: int| scroll <= j < k + 1 ==> self.visible@[j] != i)
                    implies (#[trigger] value_rects@[i]) == Rect::spec_zero() by {
                assert(self.visible@[k as int] != i);
                assert(value_rects@[i] == vbefore[i]);
            }
            assert forall|j: int| scroll <= j < k + 1 implies (#[trigger] row_rects@[self.visible@[j] as int]) == (Rect {
                x: list.x,
                y: (list.y + (j - scroll)) as u16,
                width: list.width,
                height: 1,
            }) by {
                if j < k {
                    assert(self.visible@[j] < self.visible@[k as int]);
                    assert(before[self.visible@[j] as int] == row_rects@[self.visible@[j] as int]);
                }
            }
            assert forall|i: int|
                0 <= i < self.rows@.len() && (forall|j: int| scroll <= j < k + 1 ==> self.visible@[j] != i)
                    implies (#[trigger] row_rects@[i]) == Rect::spec_zero() by {
                assert(self.visible@[k as int] != i);
                assert(row_rects@[i] == before[i]);
            }
            k = k + 1;
        }
        let ghost mid = *self;
        self.row_rects = row_rects;
        self.value_rects = value_rects;
        proof {
            let cap = if LABEL_CAP < self.list_area.width / 2 {
                LABEL_CAP as int
            } else {
                (self.list_area.width / 2) as int
            };
            lemma_label_max_same(mid, *self, self.visible@.len() as int, cap);
        }
        assert forall|j: int| scroll <= j < end implies (#[trigger] self.value_rects@[self.visible@[j] as int])
            == row_value_rect(*self, self.visible@[j] as int) by {
            assert(value_rect_at(mid, row_rects@[self.visible@[j] as int], self.visible@[j] as int)
                == value_rect_at(*self, self.row_rects@[self.visible@[j] as int], self.visible@[j] as int));
        }
    }
}

} // verus!
