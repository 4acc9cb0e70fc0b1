//! Viewport-derived turn navigation for the timeline sidebar.
//!
//! The scrollback is a list of entries; every user prompt opens a turn. A
//! layout pass assigns each entry the virtual row it starts on, and the
//! viewport top is the first visible entry's row plus the scroll offset.
use vstd::prelude::*;
use crate::text::{chars_of, concat, first_nonblank_line, first_nonblank_line_chars, slice_chars, string_of};

verus! {

/// Previews keep at most this many characters.
pub const PREVIEW_MAX_CHARS: usize = 120;

pub type EntryId = u64;

/// What one scrollback entry shows, as far as the timeline cares.
pub enum RenderBlock {
    UserPrompt { text: String },
    CompactionSummary { summary: String },
    Other,
}

impl RenderBlock {
    pub fn user_prompt(text: &str) -> (r: RenderBlock)
        ensures
            r matches RenderBlock::UserPrompt { text: t } && t@ == text@,
    {
        RenderBlock::UserPrompt { text: string_of(&chars_of(text)) }
    }

    pub fn compaction_summary(summary: &str) -> (r: RenderBlock)
        ensures
            r matches RenderBlock::CompactionSummary { summary: t } && t@ == summary@,
    {
        RenderBlock::CompactionSummary { summary: string_of(&chars_of(summary)) }
    }
}

pub struct Entry {
    pub id: EntryId,
    pub block: RenderBlock,
    /// Prompt creation time, seconds since the Unix epoch.
    pub created_at: Option<i64>,
}

pub struct Turn {
    /// Index of the turn's prompt in the entry list.
    pub prompt_index: usize,
}

#[derive(Clone, Copy, PartialEq, Eq, Structural, Debug)]
pub enum ViewMode {
    AllTurns,
    SingleTurn,
}

/// Semantic kind of one marker in the narrow timeline rail.
#[derive(Debug, Clone, Copy, PartialEq, Eq, Structural)]
pub enum TimelineMarkerKind {
    Prompt,
    Compaction,
}

#[derive(Debug, Clone, PartialEq, Eq)]
pub struct TimelineEntry {
    pub turn_idx: usize,
    pub prompt_entry_id: EntryId,
    pub created_at: Option<i64>,
    pub preview: String,
}

/// One visual marker in the timeline rail, ordered exactly like scrollback.
#[derive(Debug, Clone, PartialEq, Eq)]
pub struct TimelineMarker {
    pub entry_id: EntryId,
    pub entry_index: usize,
    pub turn_idx: Option<usize>,
    pub kind: TimelineMarkerKind,
    pub created_at: Option<i64>,
    pub preview: String,
}

pub struct ScrollbackState {
    pub entries: Vec<Entry>,
    pub turns: Vec<Turn>,
    pub view_mode: ViewMode,
    pub current_turn: Option<usize>,
    pub selected: Option<usize>,
    /// Virtual top row of every entry, from the last layout pass.
    pub virtual_y: Option<Vec<usize>>,
    /// First entry of the visible range.
    pub visible_start: usize,
    pub scroll_offset: usize,
    pub follow_mode: bool,
    pub generation: u64,
    pub next_id: EntryId,
}

// ---------------------------------------------------------------------------
// Specification
// ---------------------------------------------------------------------------

/// First non-blank line of a text, cut to `PREVIEW_MAX_CHARS` with an ellipsis.
pub open spec fn preview_of(text: Seq<char>) -> Seq<char> {
    let line = first_nonblank_line(text);
    if line.len() > PREVIEW_MAX_CHARS {
        line.take(PREVIEW_MAX_CHARS - 1).push('…')
    } else {
        line
    }
}

pub open spec fn compaction_preview_of(summary: Seq<char>) -> Seq<char> {
    let p = preview_of(summary);
    if p.len() == 0 {
        "Compaction summary"@
    } else {
        "Compaction summary — "@ + p
    }
}

pub open spec fn is_marker(b: RenderBlock) -> bool {
    b is UserPrompt || b is CompactionSummary
}

pub open spec fn marker_kind(b: RenderBlock) -> TimelineMarkerKind {
    if b is UserPrompt {
        TimelineMarkerKind::Prompt
    } else {
        TimelineMarkerKind::Compaction
    }
}

pub open spec fn marker_preview(b: RenderBlock) -> Seq<char> {
    match b {
        RenderBlock::UserPrompt { text } => preview_of(text@),
        RenderBlock::CompactionSummary { summary } => compaction_preview_of(summary@),
        RenderBlock::Other => Seq::empty(),
    }
}

/// Indices of the entries that carry a timeline marker, in scrollback order.
pub open spec fn marker_entries(s: Seq<Entry>) -> Seq<int>
    decreases s.len(),
{
    if s.len() == 0 {
        Seq::empty()
    } else {
        let p = marker_entries(s.drop_last());
        if is_marker(s.last().block) {
            p.push(s.len() - 1)
        } else {
            p
        }
    }
}

/// Number of turns whose prompt sits at or before entry `e`.
pub open spec fn turns_started(turns: Seq<Turn>, e: int) -> nat
    decreases turns.len(),
{
    if turns.len() == 0 {
        0
    } else {
        turns_started(turns.drop_last(), e) + if turns.last().prompt_index <= e {
            1nat
        } else {
            0nat
        }
    }
}

/// Whether a prompt at entry `p` lies above (`strict`) or at the row `top`.
pub open spec fn prompt_at_or_above(vy: Seq<usize>, p: int, top: int, strict: bool) -> bool {
    0 <= p < vy.len() && if strict {
        vy[p] < top
    } else {
        vy[p] <= top
    }
}

/// Number of turns whose prompt lies above (or at) `top`.
pub open spec fn count_above(turns: Seq<Turn>, vy: Seq<usize>, top: int, strict: bool) -> nat
    decreases turns.len(),
{
    if turns.len() == 0 {
        0
    } else {
        count_above(turns.drop_last(), vy, top, strict) + if prompt_at_or_above(
            vy,
            turns.last().prompt_index as int,
            top,
            strict,
        ) {
            1nat
        } else {
            0nat
        }
    }
}

pub open spec fn marker_y_rel(vy: Seq<usize>, m: TimelineMarker, top: int, rel: int) -> bool {
    0 <= m.entry_index < vy.len() && if rel < 0 {
        vy[m.entry_index as int] < top
    } else if rel == 0 {
        vy[m.entry_index as int] <= top
    } else {
        vy[m.entry_index as int] > top
    }
}

impl ScrollbackState {
    pub open spec fn wf(&self) -> bool {
        &&& self.turns.len() <= self.entries.len()
        &&& forall|t: int|
            0 <= t < self.turns.len() ==> #[trigger] self.turns@[t].prompt_index
                < self.entries.len() && self.entries@[self.turns@[t].prompt_index as int].block is UserPrompt
        &&& forall|a: int, b: int|
            0 <= a < b < self.turns.len() ==> #[trigger] self.turns@[a].prompt_index
                < #[trigger] self.turns@[b].prompt_index
        &&& forall|a: int, b: int|
            0 <= a < b < self.entries.len() ==> #[trigger] self.entries@[a].id
                != #[trigger] self.entries@[b].id
        &&& forall|a: int| 0 <= a < self.entries.len() ==> #[trigger] self.entries@[a].id < self.next_id
        &&& (self.current_turn matches Some(t) ==> t < self.turns.len())
        &&& (self.selected matches Some(e) ==> e < self.entries.len())
        &&& (self.virtual_y matches Some(vy) ==> {
            &&& vy.len() == self.entries.len()
            &&& forall|a: int, b: int| 0 <= a < b < vy.len() ==> #[trigger] vy@[a] < #[trigger] vy@[b]
            &&& (self.visible_start < vy.len() ==> vy@[self.visible_start as int] + self.scroll_offset <= usize::MAX)
        })
    }

    /// The viewport's top row, when a layout covers the visible range.
    pub open spec fn view_top(&self) -> Option<int> {
        match self.virtual_y {
            Some(vy) => if self.visible_start < vy.len() {
                Some(vy@[self.visible_start as int] + self.scroll_offset)
            } else {
                None
            },
            None => None,
        }
    }

    pub open spec fn spec_prompts_above_top(&self, strict: bool) -> Option<nat> {
        match self.view_top() {
            Some(top) => Some(count_above(self.turns@, self.virtual_y->0@, top, strict)),
            None => None,
        }
    }

    pub open spec fn spec_turn_containing(&self, e: int) -> Option<usize> {
        let n = turns_started(self.turns@, e);
        if n == 0 {
            None
        } else {
            Some((n - 1) as usize)
        }
    }

    pub open spec fn spec_active_turn(&self) -> Option<usize> {
        if self.view_mode == ViewMode::SingleTurn {
            self.current_turn
        } else if self.turns.len() == 0 {
            None
        } else {
            match self.spec_prompts_above_top(false) {
                Some(n) => Some(if n == 0 {
                    0usize
                } else {
                    (n - 1) as usize
                }),
                None => None,
            }
        }
    }

    pub open spec fn spec_turn_above(&self) -> Option<usize> {
        if self.view_mode == ViewMode::SingleTurn {
            match self.current_turn {
                Some(t) if t > 0 => Some((t - 1) as usize),
                _ => None,
            }
        } else {
            match self.spec_prompts_above_top(true) {
                Some(n) if n > 0 => Some((n - 1) as usize),
                _ => None,
            }
        }
    }

    pub open spec fn spec_turn_below(&self) -> Option<usize> {
        if self.view_mode == ViewMode::SingleTurn {
            match self.current_turn {
                Some(t) if t + 1 < self.turns.len() => Some((t + 1) as usize),
                _ => None,
            }
        } else {
            match self.spec_prompts_above_top(false) {
                Some(n) if n < self.turns.len() => Some(n as usize),
                _ => None,
            }
        }
    }

    /// `m` is the marker of entry `j`.
    pub open spec fn marker_matches(&self, m: TimelineMarker, j: int) -> bool {
        let e = self.entries@[j];
        &&& m.entry_index == j
        &&& m.entry_id == e.id
        &&& m.kind == marker_kind(e.block)
        &&& m.turn_idx == self.spec_turn_containing(j)
        &&& m.created_at == e.created_at
        &&& m.preview@ == marker_preview(e.block)
    }

    /// Moving to entry `e`: select it, and its turn becomes current.
    pub open spec fn selected_at(&self, e: int) -> bool {
        &&& self.selected == Some(e as usize)
        &&& self.current_turn == self.spec_turn_containing(e)
    }

    /// Entry `e`'s top row sits at the viewport top when a layout covers it.
    pub open spec fn scrolled_to(&self, old: &ScrollbackState, e: int) -> bool {
        match old.virtual_y {
            Some(vy) => if old.visible_start < vy.len() && vy@[old.visible_start as int] <= vy@[e] {
                self.scroll_offset == vy@[e] - vy@[old.visible_start as int]
            } else {
                self.scroll_offset == old.scroll_offset
            },
            None => self.scroll_offset == old.scroll_offset,
        }
    }

    /// `self` is what jumping to turn `t` made of `old`: the prompt is
    /// selected, the turn is current, and (showing all turns) the prompt is
    /// anchored at the viewport top.
    pub open spec fn jumped_to_turn(&self, old: &ScrollbackState, t: int) -> bool {
        let e = old.turns@[t].prompt_index as int;
        &&& 0 <= t < old.turns.len()
        &&& self.same_content(old)
        &&& self.selected == Some(e as usize)
        &&& self.current_turn == Some(t as usize)
        &&& self.generation == old.generation.wrapping_add(1)
        &&& !self.follow_mode
        &&& (old.view_mode == ViewMode::AllTurns ==> self.scrolled_to(old, e))
        &&& (old.view_mode != ViewMode::AllTurns ==> self.scroll_offset == 0)
    }

    /// Everything a jump leaves alone.
    pub open spec fn same_content(&self, old: &ScrollbackState) -> bool {
        &&& self.entries@ == old.entries@
        &&& self.turns@ == old.turns@
        &&& self.view_mode == old.view_mode
        &&& self.virtual_y == old.virtual_y
        &&& self.visible_start == old.visible_start
        &&& self.next_id == old.next_id
    }
}

// ---------------------------------------------------------------------------
// Previews
// ---------------------------------------------------------------------------

fn preview_chars(text: &str) -> (r: Vec<char>)
    ensures
        r@ == preview_of(text@),
{
    let chars = chars_of(text);
    let line = first_nonblank_line_chars(&chars);
    if line.len() > PREVIEW_MAX_CHARS {
        let mut p = slice_chars(&line, 0, PREVIEW_MAX_CHARS - 1);
        p.push('…');
        assert(p@ =~= line@.take(PREVIEW_MAX_CHARS - 1).push('…'));
        p
    } else {
        line
    }
}

/// First non-blank line of `text`, trimmed and cut to the preview length.
pub fn preview_line(text: &str) -> (r: String)
    ensures
        r@ == preview_of(text@),
{
    string_of(&preview_chars(text))
}

/// Preview of a user prompt.
pub fn prompt_preview(text: &str) -> (r: String)
    ensures
        r@ == preview_of(text@),
{
    preview_line(text)
}

/// Preview of a compaction summary, always introduced as such.
pub fn compaction_preview(summary: &str) -> (r: String)
    ensures
        r@ == compaction_preview_of(summary@),
{
    let p = preview_chars(summary);
    if p.len() == 0 {
        string_of(&chars_of("Compaction summary"))
    } else {
        let head = chars_of("Compaction summary — ");
        string_of(&concat(&head, &p))
    }
}

// ---------------------------------------------------------------------------
// Counting lemmas
// ---------------------------------------------------------------------------

proof fn lemma_count_above_step(turns: Seq<Turn>, vy: Seq<usize>, top: int, strict: bool, i: int)
    requires
        0 <= i < turns.len(),
    ensures
        count_above(turns.take(i + 1), vy, top, strict) == count_above(turns.take(i), vy, top, strict)
            + if prompt_at_or_above(vy, turns[i].prompt_index as int, top, strict) {
            1nat
        } else {
            0nat
        },
{
    assert(turns.take(i + 1).drop_last() =~= turns.take(i));
}

proof fn lemma_turns_started_step(turns: Seq<Turn>, e: int, i: int)
    requires
        0 <= i < turns.len(),
    ensures
        turns_started(turns.take(i + 1), e) == turns_started(turns.take(i), e) + if turns[i].prompt_index
            <= e {
            1nat
        } else {
            0nat
        },
{
    assert(turns.take(i + 1).drop_last() =~= turns.take(i));
}

/// With strictly increasing prompts, the turns counted below a row form a prefix.
proof fn lemma_count_above_prefix(turns: Seq<Turn>, vy: Seq<usize>, top: int, strict: bool, k: int)
    requires
        0 <= k <= turns.len(),
        forall|t: int| 0 <= t < k ==> prompt_at_or_above(vy, #[trigger] turns[t].prompt_index as int, top, strict),
        forall|t: int| k <= t < turns.len() ==> !prompt_at_or_above(vy, #[trigger] turns[t].prompt_index as int, top, strict),
    ensures
        count_above(turns, vy, top, strict) == k,
    decreases turns.len(),
{
    if turns.len() > 0 {
        let d = turns.drop_last();
        if k == turns.len() {
            lemma_count_above_prefix(d, vy, top, strict, k - 1);
        } else {
            lemma_count_above_prefix(d, vy, top, strict, k);
        }
    }
}

proof fn lemma_turns_started_prefix(turns: Seq<Turn>, e: int, k: int)
    requires
        0 <= k <= turns.len(),
        forall|t: int| 0 <= t < k ==> #[trigger] turns[t].prompt_index <= e,
        forall|t: int| k <= t < turns.len() ==> #[trigger] turns[t].prompt_index > e,
    ensures
        turns_started(turns, e) == k,
    decreases turns.len(),
{
    if turns.len() > 0 {
        let d = turns.drop_last();
        if k == turns.len() {
            lemma_turns_started_prefix(d, e, k - 1);
        } else {
            lemma_turns_started_prefix(d, e, k);
        }
    }
}

proof fn lemma_marker_entries_step(s: Seq<Entry>, i: int)
    requires
        0 <= i < s.len(),
    ensures
        marker_entries(s.take(i + 1)) == if is_marker(s[i].block) {
            marker_entries(s.take(i)).push(i)
        } else {
            marker_entries(s.take(i))
        },
{
    assert(s.take(i + 1).drop_last() =~= s.take(i));
}

proof fn lemma_marker_entries_bounds(s: Seq<Entry>)
    ensures
        forall|k: int|
            0 <= k < marker_entries(s).len() ==> 0 <= #[trigger] marker_entries(s)[k] < s.len()
                && is_marker(s[marker_entries(s)[k]].block),
        forall|a: int, b: int|
            0 <= a < b < marker_entries(s).len() ==> #[trigger] marker_entries(s)[a]
                < #[trigger] marker_entries(s)[b],
    decreases s.len(),
{
    if s.len() > 0 {
        lemma_marker_entries_bounds(s.drop_last());
    }
}

/// An entry carries a timeline marker exactly when it is a user prompt or a
/// compaction summary; the marked entries are listed in scrollback order.
pub proof fn law_marker_entries(s: Seq<Entry>)
    ensures
        forall|j: int| 0 <= j < s.len() ==> (is_marker(s[j].block) <==> marker_entries(s).contains(j)),
        forall|k: int|
            0 <= k < marker_entries(s).len() ==> 0 <= #[trigger] marker_entries(s)[k] < s.len(),
        forall|a: int, b: int|
            0 <= a < b < marker_entries(s).len() ==> #[trigger] marker_entries(s)[a]
                < #[trigger] marker_entries(s)[b],
    decreases s.len(),
{
    lemma_marker_entries_bounds(s);
    if s.len() > 0 {
        let l = s.drop_last();
        law_marker_entries(l);
        lemma_marker_entries_bounds(l);
        let p = marker_entries(l);
        assert forall|j: int| 0 <= j < s.len() implies (is_marker(s[j].block) <==> marker_entries(
            s,
        ).contains(j)) by {
            if j < s.len() - 1 {
                assert(s[j] == l[j]);
                if is_marker(s.last().block) {
                    if p.push(s.len() - 1).contains(j) {
                        let k = choose|k: int| 0 <= k < p.len() + 1 && #[trigger] p.push(s.len() - 1)[k] == j;
                        assert(k < p.len());
                        assert(p[k] == j);
                    }
                    if p.contains(j) {
                        let k = choose|k: int| 0 <= k < p.len() && #[trigger] p[k] == j;
                        assert(p.push(s.len() - 1)[k] == j);
                    }
                }
            } else if is_marker(s.last().block) {
                assert(p.push(s.len() - 1)[p.len() as int] == j);
            } else {
                if p.contains(j) {
                    let k = choose|k: int| 0 <= k < p.len() && #[trigger] p[k] == j;
                    assert(p[k] < l.len());
                }
            }
        }
    }
}

/// With prompts in increasing rows, the turns whose prompt lies above (or,
/// not `strict`, at) `top` are exactly the first `count_above` of them.
pub proof fn lemma_prompts_above_are_a_prefix(turns: Seq<Turn>, vy: Seq<usize>, top: int, strict: bool)
    requires
        forall|t: int| 0 <= t < turns.len() ==> #[trigger] turns[t].prompt_index < vy.len(),
        forall|a: int, b: int|
            0 <= a < b < turns.len() ==> #[trigger] turns[a].prompt_index < #[trigger] turns[b].prompt_index,
        forall|a: int, b: int| 0 <= a < b < vy.len() ==> #[trigger] vy[a] < #[trigger] vy[b],
    ensures
        count_above(turns, vy, top, strict) <= turns.len(),
        forall|t: int|
            0 <= t < turns.len() ==> (t < count_above(turns, vy, top, strict) <==> prompt_at_or_above(
                vy,
                #[trigger] turns[t].prompt_index as int,
                top,
                strict,
            )),
    decreases turns.len(),
{
    if turns.len() > 0 {
        let l = turns.drop_last();
        let n = l.len() as int;
        assert forall|t: int| 0 <= t < l.len() implies #[trigger] l[t].prompt_index < vy.len() by {
            assert(l[t] == turns[t]);
        }
        assert forall|a: int, b: int| 0 <= a < b < l.len() implies #[trigger] l[a].prompt_index
            < #[trigger] l[b].prompt_index by {
            assert(l[a] == turns[a]);
            assert(l[b] == turns[b]);
        }
        lemma_prompts_above_are_a_prefix(l, vy, top, strict);
        let c = count_above(l, vy, top, strict);
        let last = turns[n].prompt_index as int;
        assert(turns.last() == turns[n]);
        if prompt_at_or_above(vy, last, top, strict) {
            if n > 0 {
                assert(l[n - 1] == turns[n - 1]);
                assert(turns[n - 1].prompt_index < turns[n].prompt_index);
                assert(vy[turns[n - 1].prompt_index as int] < vy[last]);
                assert(prompt_at_or_above(vy, l[n - 1].prompt_index as int, top, strict));
                assert(n - 1 < c);
            }
        }
        assert forall|t: int|
            0 <= t < turns.len() implies (t < count_above(turns, vy, top, strict) <==> prompt_at_or_above(
            vy,
            #[trigger] turns[t].prompt_index as int,
            top,
            strict,
        )) by {
            if t < n {
                assert(l[t] == turns[t]);
                assert(prompt_at_or_above(vy, l[t].prompt_index as int, top, strict) == (t < c));
            }
        }
    }
}

impl ScrollbackState {
    /// The layout row of turn `t`'s prompt.
    pub open spec fn prompt_row(&self, t: int) -> int {
        self.virtual_y->0@[self.turns@[t].prompt_index as int] as int
    }

    /// Every turn's prompt lies at a row of the layout, in turn order.
    proof fn lemma_prompt_rows(&self)
        requires
            self.wf(),
            self.virtual_y is Some,
        ensures
            forall|t: int| 0 <= t < self.turns@.len() ==> #[trigger] self.turns@[t].prompt_index
                < self.virtual_y->0@.len(),
    {
    }

    /// Across all turns, the turn above the viewport top is the last turn
    /// whose prompt lies strictly above the top, and the turn below is the
    /// first turn whose prompt lies below it; there is none when no turn
    /// qualifies or no layout covers the viewport.
    pub proof fn law_turns_around_viewport_top(&self)
        requires
            self.wf(),
            self.view_mode == ViewMode::AllTurns,
        ensures
            self.view_top() is None ==> self.spec_turn_above() is None && self.spec_turn_below() is None,
            self.view_top() matches Some(top) ==> {
                &&& (self.spec_turn_above() matches Some(t) ==> t < self.turns@.len() && self.prompt_row(
                    t as int,
                ) < top && forall|j: int| t < j < self.turns@.len() ==> #[trigger] self.prompt_row(j) >= top)
                &&& (self.spec_turn_above() is None ==> forall|j: int|
                    0 <= j < self.turns@.len() ==> #[trigger] self.prompt_row(j) >= top)
                &&& (self.spec_turn_below() matches Some(t) ==> t < self.turns@.len() && self.prompt_row(
                    t as int,
                ) > top && forall|j: int| 0 <= j < t ==> #[trigger] self.prompt_row(j) <= top)
                &&& (self.spec_turn_below() is None ==> forall|j: int|
                    0 <= j < self.turns@.len() ==> #[trigger] self.prompt_row(j) <= top)
            },
    {
        if let Some(top) = self.view_top() {
            let vy = self.virtual_y->0@;
            let turns = self.turns@;
            self.lemma_prompt_rows();
            lemma_prompts_above_are_a_prefix(turns, vy, top, true);
            lemma_prompts_above_are_a_prefix(turns, vy, top, false);
            let ca = count_above(turns, vy, top, true);
            let cb = count_above(turns, vy, top, false);
            assert forall|j: int| 0 <= j < turns.len() implies (j < ca <==> #[trigger] self.prompt_row(j) < top)
                && (j < cb <==> self.prompt_row(j) <= top) by {
                assert(prompt_at_or_above(vy, turns[j].prompt_index as int, top, true) == (j < ca));
                assert(prompt_at_or_above(vy, turns[j].prompt_index as int, top, false) == (j < cb));
            }
        }
    }
}

/// In the all-turns view with the viewport top at `top`: `r.0` is the last
/// marker at or above the top, `r.1` the last one strictly above it, and
/// `r.2` the first one below it, each `None` when there is no such marker.
pub open spec fn all_turns_viewport(
    vy: Seq<usize>,
    top: int,
    markers: Seq<TimelineMarker>,
    r: (Option<usize>, Option<usize>, Option<usize>),
) -> bool {
    &&& (r.0 matches Some(a) ==> a < markers.len() && marker_y_rel(vy, markers[a as int], top, 0)
        && forall|j: int| a < j < markers.len() ==> !marker_y_rel(vy, #[trigger] markers[j], top, 0))
    &&& (r.0 is None ==> forall|j: int| 0 <= j < markers.len() ==> !marker_y_rel(vy, #[trigger] markers[j], top, 0))
    &&& (r.1 matches Some(a) ==> a < markers.len() && marker_y_rel(vy, markers[a as int], top, -1)
        && forall|j: int| a < j < markers.len() ==> !marker_y_rel(vy, #[trigger] markers[j], top, -1))
    &&& (r.1 is None ==> forall|j: int| 0 <= j < markers.len() ==> !marker_y_rel(vy, #[trigger] markers[j], top, -1))
    &&& (r.2 matches Some(a) ==> a < markers.len() && marker_y_rel(vy, markers[a as int], top, 1)
        && forall|j: int| 0 <= j < a ==> !marker_y_rel(vy, #[trigger] markers[j], top, 1))
    &&& (r.2 is None ==> forall|j: int| 0 <= j < markers.len() ==> !marker_y_rel(vy, #[trigger] markers[j], top, 1))
}

/// With markers in scrollback order over increasing layout rows, the marker
/// above the top comes no later than the active one, and the marker below
/// the top is the one right after the active one (the first marker when
/// none is active); a marker above the top makes one active.
pub proof fn law_viewport_markers_in_order(
    vy: Seq<usize>,
    top: int,
    markers: Seq<TimelineMarker>,
    r: (Option<usize>, Option<usize>, Option<usize>),
)
    requires
        all_turns_viewport(vy, top, markers, r),
        forall|a: int, b: int| 0 <= a < b < vy.len() ==> #[trigger] vy[a] < #[trigger] vy[b],
        forall|k: int| 0 <= k < markers.len() ==> #[trigger] markers[k].entry_index < vy.len(),
        forall|j: int, k: int|
            0 <= j < k < markers.len() ==> #[trigger] markers[j].entry_index < #[trigger] markers[k].entry_index,
    ensures
        r.1 matches Some(u) ==> r.0 matches Some(a) && u <= a,
        r.2 matches Some(d) ==> d == match r.0 {
            Some(a) => a + 1,
            None => 0,
        },
        r.2 is None && markers.len() > 0 ==> r.0 == Some((markers.len() - 1) as usize),
{
    let n = markers.len() as int;
    if let Some(u) = r.1 {
        assert(marker_y_rel(vy, markers[u as int], top, 0));
    }
    if let Some(d) = r.2 {
        match r.0 {
            Some(a) => {
                if d <= a {
                    if d < a {
                        assert(vy[markers[d as int].entry_index as int] < vy[markers[a as int].entry_index as int]);
                    }
                }
                if a + 1 < d {
                    assert(!marker_y_rel(vy, markers[a + 1], top, 1));
                    assert(!marker_y_rel(vy, markers[a + 1], top, 0));
                }
            },
            None => {
                if d > 0 {
                    assert(!marker_y_rel(vy, markers[0], top, 1));
                    assert(!marker_y_rel(vy, markers[0], top, 0));
                }
            },
        }
    } else if n > 0 {
        assert(!marker_y_rel(vy, markers[n - 1], top, 1));
        assert(marker_y_rel(vy, markers[n - 1], top, 0));
        if let Some(a) = r.0 {
            if a < n - 1 {
                assert(!marker_y_rel(vy, markers[n - 1], top, 0));
            }
        }
    }
}

// ---------------------------------------------------------------------------
// Navigation
// ---------------------------------------------------------------------------

impl ScrollbackState {
    pub fn new() -> (r: ScrollbackState)
        ensures
            r.wf(),
            r.entries.len() == 0,
            r.turns.len() == 0,
            r.view_mode == ViewMode::AllTurns,
            r.virtual_y is None,
            r.current_turn is None,
            r.selected is None,
            r.visible_start == 0,
            r.scroll_offset == 0,
            r.follow_mode,
            r.generation == 0,
            r.next_id == 0,
    {
        ScrollbackState {
            entries: Vec::new(),
            turns: Vec::new(),
            view_mode: ViewMode::AllTurns,
            current_turn: None,
            selected: None,
            virtual_y: None,
            visible_start: 0,
            scroll_offset: 0,
            follow_mode: true,
            generation: 0,
            next_id: 0,
        }
    }

    /// Append a block; a user prompt opens a new turn. The layout must be
    /// recomputed afterwards.
    pub fn push_block(&mut self, block: RenderBlock, created_at: Option<i64>)
        requires
            old(self).wf(),
            old(self).next_id < u64::MAX,
            old(self).entries.len() < usize::MAX,
        ensures
            final(self).wf(),
            final(self).entries@ == old(self).entries@.push(Entry { id: old(self).next_id, block, created_at }),
            block is UserPrompt ==> final(self).turns@ == old(self).turns@.push(Turn { prompt_index: old(self).entries.len() }),
            !(block is UserPrompt) ==> final(self).turns@ == old(self).turns@,
            final(self).virtual_y is None,
            final(self).view_mode == old(self).view_mode,
            final(self).next_id == old(self).next_id + 1,
            final(self).current_turn == old(self).current_turn,
            final(self).selected == old(self).selected,
            final(self).visible_start == old(self).visible_start,
            final(self).scroll_offset == old(self).scroll_offset,
            final(self).follow_mode == old(self).follow_mode,
            final(self).generation == old(self).generation,
    {
        let is_prompt = matches!(block, RenderBlock::UserPrompt { .. });
        let idx = self.entries.len();
        let id = self.next_id;
        self.entries.push(Entry { id, block, created_at });
        if is_prompt {
            self.turns.push(Turn { prompt_index: idx });
        }
        self.next_id = id + 1;
        self.virtual_y = None;
        proof {
            assert forall|a: int, b: int|
                0 <= a < b < self.turns.len() implies #[trigger] self.turns@[a].prompt_index
                < #[trigger] self.turns@[b].prompt_index by {
                if b == self.turns.len() - 1 && is_prompt {
                    assert(old(self).turns@[a].prompt_index < old(self).entries.len());
                }
            }
        }
    }

    /// Install the rows a layout pass computed. Refused (and nothing changes)
    /// unless there is one strictly increasing row per entry and the viewport
    /// top stays representable.
    pub fn set_layout(&mut self, vy: Vec<usize>) -> (r: bool)
        requires
            old(self).wf(),
        ensures
            final(self).wf(),
            r == (vy.len() == old(self).entries.len()
                && (forall|a: int, b: int| 0 <= a < b < vy.len() ==> #[trigger] vy@[a] < #[trigger] vy@[b])
                && (old(self).visible_start < vy.len() ==> vy@[old(self).visible_start as int] + old(self).scroll_offset <= usize::MAX)),
            r ==> final(self).virtual_y == Some(vy),
            !r ==> final(self).virtual_y == old(self).virtual_y,
            final(self).same_content_but_layout(old(self)),
    {
        if vy.len() != self.entries.len() {
            return false;
        }
        if self.visible_start < vy.len() && vy[self.visible_start] > usize::MAX - self.scroll_offset {
            return false;
        }
        let mut i: usize = 0;
        while i < vy.len()
            invariant
                *self == *old(self),
                old(self).wf(),
                i <= vy.len(),
                forall|a: int, b: int| 0 <= a < b < i ==> #[trigger] vy@[a] < #[trigger] vy@[b],
            decreases vy.len() - i,
        {
            if i > 0 && vy[i - 1] >= vy[i] {
                return false;
            }
            proof {
                assert forall|a: int, b: int| 0 <= a < b < i + 1 implies #[trigger] vy@[a] < #[trigger] vy@[b] by {
                    if b == i && a < i - 1 {
                        assert(vy@[a] < vy@[i - 1]);
                    }
                }
            }
            i = i + 1;
        }
        self.virtual_y = Some(vy);
        true
    }

    pub open spec fn same_content_but_layout(&self, old: &ScrollbackState) -> bool {
        &&& self.entries@ == old.entries@
        &&& self.turns@ == old.turns@
        &&& self.view_mode == old.view_mode
        &&& self.current_turn == old.current_turn
        &&& self.selected == old.selected
        &&& self.visible_start == old.visible_start
        &&& self.scroll_offset == old.scroll_offset
        &&& self.next_id == old.next_id
    }

    pub fn selected(&self) -> (r: Option<usize>)
        ensures
            r == self.selected,
    {
        self.selected
    }

    pub fn current_turn(&self) -> (r: Option<usize>)
        ensures
            r == self.current_turn,
    {
        self.current_turn
    }

    /// The turn an entry belongs to: the last turn whose prompt is at or
    /// before it.
    pub fn turn_containing(&self, e: usize) -> (r: Option<usize>)
        requires
            self.wf(),
        ensures
            r == self.spec_turn_containing(e as int),
    {
        let mut n: usize = 0;
        let mut i: usize = 0;
        while i < self.turns.len()
            invariant
                self.wf(),
                i <= self.turns.len(),
                n <= i,
                n == turns_started(self.turns@.take(i as int), e as int),
            decreases self.turns.len() - i,
        {
            proof {
                lemma_turns_started_step(self.turns@, e as int, i as int);
            }
            if self.turns[i].prompt_index <= e {
                n = n + 1;
            }
            i = i + 1;
        }
        assert(self.turns@.take(self.turns.len() as int) =~= self.turns@);
        if n == 0 {
            None
        } else {
            Some(n - 1)
        }
    }

    fn prompts_above_top(&self, strict: bool) -> (r: Option<usize>)
        requires
            self.wf(),
        ensures
            r matches Some(n) ==> self.spec_prompts_above_top(strict) == Some(n as nat),
            r is None ==> self.spec_prompts_above_top(strict) is None,
    {
        let vy = match &self.virtual_y {
            Some(vy) => vy,
            None => return None,
        };
        if self.visible_start >= vy.len() {
            return None;
        }
        let top = vy[self.visible_start] + self.scroll_offset;
        let mut n: usize = 0;
        let mut i: usize = 0;
        while i < self.turns.len()
            invariant
                self.wf(),
                self.virtual_y == Some(*vy),
                top == vy@[self.visible_start as int] + self.scroll_offset,
                i <= self.turns.len(),
                n <= i,
                n == count_above(self.turns@.take(i as int), vy@, top as int, strict),
            decreases self.turns.len() - i,
        {
            proof {
                lemma_count_above_step(self.turns@, vy@, top as int, strict, i as int);
            }
            let p = self.turns[i].prompt_index;
            if p < vy.len() && (if strict {
                vy[p] < top
            } else {
                vy[p] <= top
            }) {
                n = n + 1;
            }
            i = i + 1;
        }
        assert(self.turns@.take(self.turns.len() as int) =~= self.turns@);
        Some(n)
    }

    /// The turn owning the viewport top, if any.
    pub fn active_turn_for_viewport(&self) -> (r: Option<usize>)
        requires
            self.wf(),
        ensures
            r == self.spec_active_turn(),
    {
        if self.view_mode == ViewMode::SingleTurn {
            return self.current_turn;
        }
        if self.turns.len() == 0 {
            return None;
        }
        match self.prompts_above_top(false) {
            Some(n) => Some(n.saturating_sub(1)),
            None => None,
        }
    }

    /// The nearest turn strictly above the viewport top.
    pub fn turn_above_viewport_top(&self) -> (r: Option<usize>)
        requires
            self.wf(),
        ensures
            r == self.spec_turn_above(),
    {
        if self.view_mode == ViewMode::SingleTurn {
            return match self.current_turn {
                Some(t) => t.checked_sub(1),
                None => None,
            };
        }
        match self.prompts_above_top(true) {
            Some(n) => n.checked_sub(1),
            None => None,
        }
    }

    /// The nearest turn below the viewport top.
    pub fn turn_below_viewport_top(&self) -> (r: Option<usize>)
        requires
            self.wf(),
        ensures
            r == self.spec_turn_below(),
    {
        if self.view_mode == ViewMode::SingleTurn {
            let next = match self.current_turn {
                Some(t) => match t.checked_add(1) {
                    Some(n) => n,
                    None => return None,
                },
                None => return None,
            };
            return if next < self.turns.len() {
                Some(next)
            } else {
                None
            };
        }
        let next = match self.prompts_above_top(false) {
            Some(n) => n,
            None => return None,
        };
        if next < self.turns.len() {
            Some(next)
        } else {
            None
        }
    }

    /// Preview text for one turn, used by the timeline rail hover card.
    pub fn turn_preview(&self, turn_idx: usize) -> (r: Option<String>)
        requires
            self.wf(),
        ensures
            turn_idx >= self.turns.len() ==> r is None,
            turn_idx < self.turns.len() ==> (r matches Some(p) && p@ == marker_preview(
                self.entries@[self.turns@[turn_idx as int].prompt_index as int].block,
            )),
    {
        if turn_idx >= self.turns.len() {
            return None;
        }
        let idx = self.turns[turn_idx].prompt_index;
        if idx >= self.entries.len() {
            return None;
        }
        match &self.entries[idx].block {
            RenderBlock::UserPrompt { text } => Some(string_of(&preview_chars(text.as_str()))),
            _ => None,
        }
    }

    /// Prompt creation time for one turn.
    pub fn turn_created_at(&self, turn_idx: usize) -> (r: Option<i64>)
        requires
            self.wf(),
        ensures
            turn_idx >= self.turns.len() ==> r is None,
            turn_idx < self.turns.len() ==> r == self.entries@[self.turns@[turn_idx as int].prompt_index as int].created_at,
    {
        if turn_idx >= self.turns.len() {
            return None;
        }
        let idx = self.turns[turn_idx].prompt_index;
        self.entries[idx].created_at
    }

    /// One entry per turn, in turn order, for `/jump` and review.
    pub fn timeline_entries(&self) -> (r: Vec<TimelineEntry>)
        requires
            self.wf(),
        ensures
            r.len() == self.turns.len(),
            forall|t: int|
                0 <= t < r.len() ==> {
                    let e = self.entries@[self.turns@[t].prompt_index as int];
                    &&& #[trigger] r@[t].turn_idx == t
                    &&& r@[t].prompt_entry_id == e.id
                    &&& r@[t].created_at == e.created_at
                    &&& r@[t].preview@ == marker_preview(e.block)
                },
    {
        let mut out: Vec<TimelineEntry> = Vec::new();
        let mut t: usize = 0;
        while t < self.turns.len()
            invariant
                self.wf(),
                t <= self.turns.len(),
                out.len() == t,
                forall|k: int|
                    0 <= k < t ==> {
                        let e = self.entries@[self.turns@[k].prompt_index as int];
                        &&& #[trigger] out@[k].turn_idx == k
                        &&& out@[k].prompt_entry_id == e.id
                        &&& out@[k].created_at == e.created_at
                        &&& out@[k].preview@ == marker_preview(e.block)
                    },
            decreases self.turns.len() - t,
        {
            let idx = self.turns[t].prompt_index;
            let entry = &self.entries[idx];
            let preview = match &entry.block {
                RenderBlock::UserPrompt { text } => string_of(&preview_chars(text.as_str())),
                _ => string_of(&Vec::new()),
            };
            out.push(
                TimelineEntry {
                    turn_idx: t,
                    prompt_entry_id: entry.id,
                    created_at: entry.created_at,
                    preview,
                },
            );
            t = t + 1;
        }
        out
    }

    /// Visual markers for the sidebar timeline, in scrollback order: every
    /// prompt and every compaction summary.
    pub fn timeline_markers(&self) -> (r: Vec<TimelineMarker>)
        requires
            self.wf(),
        ensures
            r.len() == marker_entries(self.entries@).len(),
            forall|k: int|
                0 <= k < r.len() ==> self.marker_matches(#[trigger] r@[k], marker_entries(self.entries@)[k]),
            forall|a: int, b: int|
                0 <= a < b < r.len() ==> #[trigger] r@[a].entry_index < #[trigger] r@[b].entry_index,
    {
        let mut out: Vec<TimelineMarker> = Vec::new();
        let mut i: usize = 0;
        proof {
            assert(self.entries@.take(0) =~= Seq::<Entry>::empty());
        }
        while i < self.entries.len()
            invariant
                self.wf(),
                i <= self.entries.len(),
                out.len() == marker_entries(self.entries@.take(i as int)).len(),
                forall|k: int|
                    0 <= k < out.len() ==> self.marker_matches(#[trigger] out@[k], marker_entries(self.entries@.take(i as int))[k]),
            decreases self.entries.len() - i,
        {
            proof {
                lemma_marker_entries_step(self.entries@, i as int);
                lemma_marker_entries_bounds(self.entries@.take(i as int));
                lemma_marker_entries_bounds(self.entries@.take(i + 1));
            }
            let entry = &self.entries[i];
            let ghost old_out = out@;
            match &entry.block {
                RenderBlock::UserPrompt { text } => {
                    let m = TimelineMarker {
                        entry_id: entry.id,
                        entry_index: i,
                        turn_idx: self.turn_containing(i),
                        kind: TimelineMarkerKind::Prompt,
                        created_at: entry.created_at,
                        preview: string_of(&preview_chars(text.as_str())),
                    };
                    assert(m.preview@ == marker_preview(self.entries@[i as int].block));
                    out.push(m);
                },
                RenderBlock::CompactionSummary { summary } => {
                    let m = TimelineMarker {
                        entry_id: entry.id,
                        entry_index: i,
                        turn_idx: self.turn_containing(i),
                        kind: TimelineMarkerKind::Compaction,
                        created_at: entry.created_at,
                        preview: compaction_preview(summary.as_str()),
                    };
                    assert(m.preview@ == marker_preview(self.entries@[i as int].block));
                    out.push(m);
                },
                RenderBlock::Other => {},
            }
            proof {
                let prev = marker_entries(self.entries@.take(i as int));
                let next = marker_entries(self.entries@.take(i + 1));
                assert forall|k: int| 0 <= k < out.len() implies self.marker_matches(#[trigger] out@[k], next[k]) by {
                    if k < prev.len() {
                        assert(next[k] == prev[k]);
                        assert(out@[k] == old_out[k]);
                    } else {
                        assert(next[k] == i);
                    }
                }
            }
            i = i + 1;
        }
        assert(self.entries@.take(self.entries.len() as int) =~= self.entries@);
        proof {
            lemma_marker_entries_bounds(self.entries@);
            assert forall|a: int, b: int| 0 <= a < b < out.len() implies #[trigger] out@[a].entry_index
                < #[trigger] out@[b].entry_index by {
                assert(self.marker_matches(out@[a], marker_entries(self.entries@)[a]));
                assert(self.marker_matches(out@[b], marker_entries(self.entries@)[b]));
            }
        }
        out
    }

    fn index_of_id(&self, id: EntryId) -> (r: Option<usize>)
        requires
            self.wf(),
        ensures
            r matches Some(i) ==> i < self.entries.len() && self.entries@[i as int].id == id,
            r is None ==> forall|i: int| 0 <= i < self.entries.len() ==> self.entries@[i].id != id,
    {
        let mut i: usize = 0;
        while i < self.entries.len()
            invariant
                i <= self.entries.len(),
                forall|j: int| 0 <= j < i ==> self.entries@[j].id != id,
            decreases self.entries.len() - i,
        {
            if self.entries[i].id == id {
                return Some(i);
            }
            i = i + 1;
        }
        None
    }

    fn set_selected(&mut self, e: usize)
        requires
            old(self).wf(),
            e < old(self).entries.len(),
        ensures
            final(self).wf(),
            final(self).selected_at(e as int),
            final(self).same_content(old(self)),
            final(self).scroll_offset == old(self).scroll_offset,
            final(self).follow_mode == old(self).follow_mode,
            final(self).generation == old(self).generation,
    {
        let t = self.turn_containing(e);
        proof {
            let n = turns_started(self.turns@, e as int);
            if n > 0 {
                lemma_turns_started_le_len(self.turns@, e as int);
            }
        }
        self.selected = Some(e);
        self.current_turn = t;
    }

    fn scroll_to_entry_top(&mut self, e: usize)
        requires
            old(self).wf(),
            e < old(self).entries.len(),
        ensures
            final(self).wf(),
            final(self).scrolled_to(old(self), e as int),
            final(self).same_content(old(self)),
            final(self).selected == old(self).selected,
            final(self).current_turn == old(self).current_turn,
            final(self).generation == old(self).generation,
            !final(self).follow_mode,
    {
        let mut offset = self.scroll_offset;
        match &self.virtual_y {
            Some(vy) => {
                if self.visible_start < vy.len() && vy[self.visible_start] <= vy[e] {
                    offset = vy[e] - vy[self.visible_start];
                }
            },
            None => {},
        }
        self.scroll_offset = offset;
        self.follow_mode = false;
    }

    fn bump_generation(&mut self)
        ensures
            final(self).generation == old(self).generation.wrapping_add(1),
            final(self).entries@ == old(self).entries@,
            final(self).turns@ == old(self).turns@,
            final(self).view_mode == old(self).view_mode,
            final(self).current_turn == old(self).current_turn,
            final(self).selected == old(self).selected,
            final(self).virtual_y == old(self).virtual_y,
            final(self).visible_start == old(self).visible_start,
            final(self).scroll_offset == old(self).scroll_offset,
            final(self).follow_mode == old(self).follow_mode,
            final(self).next_id == old(self).next_id,
    {
        self.generation = self.generation.wrapping_add(1);
    }

    /// Jump to a sidebar marker, including a compaction block inside a turn.
    pub fn jump_to_timeline_marker(&mut self, marker_idx: usize) -> (r: bool)
        requires
            old(self).wf(),
        ensures
            final(self).wf(),
            r == (marker_idx < marker_entries(old(self).entries@).len()),
            final(self).same_content(old(self)),
            !r ==> *final(self) == *old(self),
            r ==> {
                let e = marker_entries(old(self).entries@)[marker_idx as int];
                &&& final(self).selected_at(e)
                &&& final(self).generation == old(self).generation.wrapping_add(1)
                &&& !final(self).follow_mode
                &&& (old(self).view_mode == ViewMode::AllTurns ==> final(self).scrolled_to(old(self), e))
                &&& (old(self).view_mode != ViewMode::AllTurns ==> final(self).scroll_offset == 0)
            },
    {
        let markers = self.timeline_markers();
        if marker_idx >= markers.len() {
            return false;
        }
        let entry_id = markers[marker_idx].entry_id;
        assert(self.marker_matches(markers@[marker_idx as int], marker_entries(self.entries@)[marker_idx as int]));
        proof {
            lemma_marker_entries_bounds(self.entries@);
        }
        let entry_idx = match self.index_of_id(entry_id) {
            Some(i) => i,
            None => {
                assert(self.entries@[marker_entries(self.entries@)[marker_idx as int]].id != entry_id);
                return false;
            },
        };
        proof {
            let e = marker_entries(self.entries@)[marker_idx as int];
            if entry_idx as int != e {
                assert(self.entries@[entry_idx as int].id == self.entries@[e].id);
                if (entry_idx as int) < e {
                    assert(self.entries@[entry_idx as int].id != self.entries@[e].id);
                } else {
                    assert(self.entries@[e].id != self.entries@[entry_idx as int].id);
                }
            }
        }
        let ghost before = *self;
        self.set_selected(entry_idx);
        if self.view_mode == ViewMode::AllTurns {
            self.scroll_to_entry_top(entry_idx);
        } else {
            self.scroll_offset = 0;
            self.follow_mode = false;
        }
        self.bump_generation();
        true
    }

    /// Jump to a turn's prompt and anchor it at the viewport top.
    pub fn jump_to_turn(&mut self, turn_idx: usize) -> (r: bool)
        requires
            old(self).wf(),
        ensures
            final(self).wf(),
            r == (turn_idx < old(self).turns.len()),
            final(self).same_content(old(self)),
            !r ==> *final(self) == *old(self),
            r ==> final(self).jumped_to_turn(old(self), turn_idx as int),
    {
        if turn_idx >= self.turns.len() {
            return false;
        }
        self.activate_turn(turn_idx);
        true
    }

    fn activate_turn(&mut self, turn_idx: usize)
        requires
            old(self).wf(),
            turn_idx < old(self).turns.len(),
        ensures
            final(self).wf(),
            final(self).jumped_to_turn(old(self), turn_idx as int),
    {
        let e = self.turns[turn_idx].prompt_index;
        self.set_selected(e);
        proof {
            lemma_turn_of_prompt(self.turns@, turn_idx as int);
        }
        if self.view_mode == ViewMode::AllTurns {
            self.scroll_to_entry_top(e);
        } else {
            self.scroll_offset = 0;
            self.follow_mode = false;
        }
        self.bump_generation();
    }

    /// Resolve active/previous/next marker indices from the current viewport.
    pub fn timeline_marker_viewport(&self, markers: &Vec<TimelineMarker>) -> (r: (
        Option<usize>,
        Option<usize>,
        Option<usize>,
    ))
        requires
            self.wf(),
        ensures
            markers.len() == 0 ==> r == (None::<usize>, None::<usize>, None::<usize>),
            markers.len() > 0 && self.view_mode == ViewMode::SingleTurn ==> {
                &&& (r.0 matches Some(a) ==> a < markers.len() && markers@[a as int].kind
                    == TimelineMarkerKind::Prompt && self.current_turn is Some && markers@[a as int].turn_idx
                    == self.current_turn && forall|j: int|
                    0 <= j < a ==> !(markers@[j].kind == TimelineMarkerKind::Prompt
                        && #[trigger] markers@[j].turn_idx == self.current_turn))
                &&& (r.0 is None ==> self.current_turn is None || forall|j: int|
                    0 <= j < markers.len() ==> !(markers@[j].kind == TimelineMarkerKind::Prompt
                        && #[trigger] markers@[j].turn_idx == self.current_turn))
                &&& r.1 == (match r.0 {
                    Some(a) if a > 0 => Some((a - 1) as usize),
                    _ => None,
                })
                &&& r.2 == (match r.0 {
                    Some(a) if a + 1 < markers.len() => Some((a + 1) as usize),
                    _ => None,
                })
            },
            markers.len() > 0 && self.view_mode != ViewMode::SingleTurn ==> match self.view_top() {
                None => r == (None::<usize>, None::<usize>, None::<usize>),
                Some(top) => all_turns_viewport(self.virtual_y->0@, top, markers@, r),
            },
    {
        if markers.len() == 0 {
            return (None, None, None);
        }
        if self.view_mode == ViewMode::SingleTurn {
            let active = match self.current_turn {
                Some(t) => {
                    let mut found: Option<usize> = None;
                    let mut j: usize = 0;
                    while j < markers.len()
                        invariant
                            j <= markers.len(),
                            self.current_turn == Some(t),
                            found is None ==> forall|k: int|
                                0 <= k < j ==> !(markers@[k].kind == TimelineMarkerKind::Prompt
                                    && #[trigger] markers@[k].turn_idx == Some(t)),
                            found matches Some(a) ==> a < markers.len() && markers@[a as int].kind
                                == TimelineMarkerKind::Prompt && markers@[a as int].turn_idx == Some(t)
                                && forall|k: int|
                                0 <= k < a ==> !(markers@[k].kind == TimelineMarkerKind::Prompt
                                    && #[trigger] markers@[k].turn_idx == Some(t)),
                        decreases markers.len() - j,
                    {
                        if found.is_none() && markers[j].kind == TimelineMarkerKind::Prompt
                            && markers[j].turn_idx == Some(t) {
                            found = Some(j);
                        }
                        j = j + 1;
                    }
                    found
                },
                None => None,
            };
            let up = match active {
                Some(a) => a.checked_sub(1),
                None => None,
            };
            let down = match active {
                Some(a) => if a + 1 < markers.len() {
                    Some(a + 1)
                } else {
                    None
                },
                None => None,
            };
            return (active, up, down);
        }
        let vy = match &self.virtual_y {
            Some(vy) => vy,
            None => return (None, None, None),
        };
        if self.visible_start >= vy.len() {
            return (None, None, None);
        }
        let top = vy[self.visible_start] + self.scroll_offset;
        let mut active: Option<usize> = None;
        let mut up: Option<usize> = None;
        let mut down: Option<usize> = None;
        let mut j: usize = markers.len();
        // Walk backwards for the last markers at or above the top.
        while j > 0
            invariant
                j <= markers.len(),
                top == vy@[self.visible_start as int] + self.scroll_offset,
                active matches Some(a) ==> j <= a < markers.len() && marker_y_rel(vy@, markers@[a as int], top as int, 0)
                    && forall|k: int| a < k < markers.len() ==> !marker_y_rel(vy@, #[trigger] markers@[k], top as int, 0),
                active is None ==> forall|k: int| j <= k < markers.len() ==> !marker_y_rel(vy@, #[trigger] markers@[k], top as int, 0),
                up matches Some(a) ==> j <= a < markers.len() && marker_y_rel(vy@, markers@[a as int], top as int, -1)
                    && forall|k: int| a < k < markers.len() ==> !marker_y_rel(vy@, #[trigger] markers@[k], top as int, -1),
                up is None ==> forall|k: int| j <= k < markers.len() ==> !marker_y_rel(vy@, #[trigger] markers@[k], top as int, -1),
            decreases j,
        {
            j = j - 1;
            let ei = markers[j].entry_index;
            if ei < vy.len() {
                if active.is_none() && vy[ei] <= top {
                    active = Some(j);
                }
                if up.is_none() && vy[ei] < top {
                    up = Some(j);
                }
            }
        }
        let mut k: usize = 0;
        while k < markers.len()
            invariant
                k <= markers.len(),
                top == vy@[self.visible_start as int] + self.scroll_offset,
                down matches Some(a) ==> a < markers.len() && marker_y_rel(vy@, markers@[a as int], top as int, 1)
                    && forall|m: int| 0 <= m < a ==> !marker_y_rel(vy@, #[trigger] markers@[m], top as int, 1),
                down is None ==> forall|m: int| 0 <= m < k ==> !marker_y_rel(vy@, #[trigger] markers@[m], top as int, 1),
            decreases markers.len() - k,
        {
            let ei = markers[k].entry_index;
            if down.is_none() && ei < vy.len() && vy[ei] > top {
                down = Some(k);
            }
            k = k + 1;
        }
        (active, up, down)
    }
}

proof fn lemma_turns_started_le_len(turns: Seq<Turn>, e: int)
    ensures
        turns_started(turns, e) <= turns.len(),
    decreases turns.len(),
{
    if turns.len() > 0 {
        lemma_turns_started_le_len(turns.drop_last(), e);
    }
}

/// The prompt of turn `t` belongs to turn `t`.
proof fn lemma_turn_of_prompt(turns: Seq<Turn>, t: int)
    requires
        0 <= t < turns.len(),
        forall|a: int, b: int| 0 <= a < b < turns.len() ==> #[trigger] turns[a].prompt_index < #[trigger] turns[b].prompt_index,
    ensures
        turns_started(turns, turns[t].prompt_index as int) == t + 1,
{
    let e = turns[t].prompt_index as int;
    assert forall|u: int| 0 <= u < t + 1 implies #[trigger] turns[u].prompt_index <= e by {
        if u < t {
            assert(turns[u].prompt_index < turns[t].prompt_index);
        }
    }
    assert forall|u: int| t + 1 <= u < turns.len() implies #[trigger] turns[u].prompt_index > e by {
        assert(turns[t].prompt_index < turns[u].prompt_index);
    }
    lemma_turns_started_prefix(turns, e, t + 1);
}

// ---------------------------------------------------------------------------
// Laws
// ---------------------------------------------------------------------------

/// A preview never holds more than `PREVIEW_MAX_CHARS` characters.
pub proof fn lemma_preview_is_bounded(text: Seq<char>)
    ensures
        preview_of(text).len() <= PREVIEW_MAX_CHARS,
{
}

/// Jumping to a turn while all turns are shown anchors its prompt at the
/// viewport top: that turn then owns the viewport top, the turn above is the
/// one before it, and the turn below is the one after it.
pub proof fn lemma_jump_to_turn_owns_viewport(old: ScrollbackState, new: ScrollbackState, t: int)
    requires
        old.wf(),
        new.wf(),
        new.jumped_to_turn(&old, t),
        old.view_mode == ViewMode::AllTurns,
        old.virtual_y is Some,
        old.visible_start <= old.turns@[t].prompt_index,
    ensures
        new.spec_active_turn() == Some(t as usize),
        new.spec_turn_above() == (if t > 0 {
            Some((t - 1) as usize)
        } else {
            None
        }),
        new.spec_turn_below() == (if t + 1 < old.turns.len() {
            Some((t + 1) as usize)
        } else {
            None
        }),
{
    let vy = old.virtual_y->0@;
    let e = old.turns@[t].prompt_index as int;
    let vs = old.visible_start as int;
    if vs < e {
        assert(vy[vs] < vy[e]);
    }
    assert(new.view_top() == Some(vy[e] as int));
    let turns = old.turns@;
    assert forall|u: int| 0 <= u < t + 1 implies prompt_at_or_above(vy, #[trigger] turns[u].prompt_index as int, vy[e] as int, false) by {
        if u < t {
            assert(turns[u].prompt_index < turns[t].prompt_index);
            assert(vy[turns[u].prompt_index as int] < vy[e]);
        }
    }
    assert forall|u: int| t + 1 <= u < turns.len() implies !prompt_at_or_above(vy, #[trigger] turns[u].prompt_index as int, vy[e] as int, false) by {
        assert(turns[t].prompt_index < turns[u].prompt_index);
        assert(vy[e] < vy[turns[u].prompt_index as int]);
    }
    lemma_count_above_prefix(turns, vy, vy[e] as int, false, t + 1);
    assert forall|u: int| 0 <= u < t implies prompt_at_or_above(vy, #[trigger] turns[u].prompt_index as int, vy[e] as int, true) by {
        assert(turns[u].prompt_index < turns[t].prompt_index);
        assert(vy[turns[u].prompt_index as int] < vy[e]);
    }
    assert forall|u: int| t <= u < turns.len() implies !prompt_at_or_above(vy, #[trigger] turns[u].prompt_index as int, vy[e] as int, true) by {
        if u > t {
            assert(turns[t].prompt_index < turns[u].prompt_index);
            assert(vy[e] < vy[turns[u].prompt_index as int]);
        }
    }
    lemma_count_above_prefix(turns, vy, vy[e] as int, true, t);
}

} // verus!
