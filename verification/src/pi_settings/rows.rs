//! The row table of the settings page and the rows a query leaves on screen.
//!
//! The page lists, per category, a category heading, then each non-empty
//! section's heading followed by its settings. Browsing shows every row;
//! searching shows the matching settings, each category's results introduced
//! by its heading, with section headings suppressed.
use vstd::prelude::*;
use crate::settings::layout::{
    lemma_sections_distinct, section_for, sections_for, spec_section_for, spec_sections_for,
};
use crate::settings::registry::{
    spec_all_categories, SettingCategory, SettingKind, SettingMeta, SettingsRegistry,
};
use crate::text::str_eq;

verus! {

/// One entry of the row table.
#[derive(Debug, Clone, Copy, PartialEq)]
pub enum Row {
    /// Category heading.
    Category { category: SettingCategory },
    /// Section heading; suppressed in search results.
    Section { category: SettingCategory, name: &'static str },
    /// A setting; `meta` indexes the registry.
    Setting { key: &'static str, meta: usize },
}

impl Row {
    /// Whether the row is a setting (the only selectable kind).
    pub fn is_setting(&self) -> (r: bool)
        ensures
            r == (*self is Setting),
    {
        match self {
            Row::Setting { .. } => true,
            _ => false,
        }
    }
}

/// The key of a setting row.
pub open spec fn spec_row_key(row: Row) -> Option<Seq<char>> {
    match row {
        Row::Setting { key, .. } => Some(key@),
        _ => None,
    }
}

/// The key of a setting row.
pub fn row_key(row: &Row) -> (r: Option<&'static str>)
    ensures
        match r {
            Some(k) => spec_row_key(*row) == Some(k@),
            None => spec_row_key(*row) is None,
        },
{
    match row {
        Row::Setting { key, .. } => Some(*key),
        _ => None,
    }
}

/// Setting rows point at registry entries with their own key.
pub open spec fn rows_wf(rows: Seq<Row>, reg: Seq<SettingMeta>) -> bool {
    forall|i: int|
        0 <= i < rows.len() ==> match #[trigger] rows[i] {
            Row::Setting { key, meta } => meta < reg.len() && reg[meta as int].key@ == key@,
            _ => true,
        }
}

/// Runtime conditions that decide which rows exist.
#[derive(Debug, Clone, Copy, PartialEq, Eq, Structural)]
pub struct RuntimeGates {
    /// The terminal reports key releases.
    pub kitty_releases: bool,
    /// Minimal (scrollback-native) mode is on.
    pub minimal: bool,
    /// Voice input is available.
    pub voice_mode: bool,
    /// The session runs under an external agent.
    pub external_agent: bool,
}

/// Whether a setting is shown under the gates: voice rows need voice mode,
/// hold-to-talk needs key releases, `hidden_in_minimal` rows leave minimal
/// mode, and `external_only` rows exist only under an external agent.
pub open spec fn spec_row_visible(meta: SettingMeta, gates: RuntimeGates) -> bool {
    &&& !(!gates.voice_mode && (meta.key@ == "voice_keybind_enabled"@ || meta.key@
        == "voice_capture_mode"@ || meta.key@ == "voice_stt_language"@))
    &&& !(meta.key@ == "voice_capture_mode"@ && !gates.kitty_releases)
    &&& !(gates.minimal && meta.hidden_in_minimal)
    &&& !(meta.external_only && !gates.external_agent)
}

/// `spec_row_visible`, computed.
pub fn row_visible(meta: &SettingMeta, gates: &RuntimeGates) -> (r: bool)
    ensures
        r == spec_row_visible(*meta, *gates),
{
    if !gates.voice_mode && (str_eq(meta.key, "voice_keybind_enabled") || str_eq(
        meta.key,
        "voice_capture_mode",
    ) || str_eq(meta.key, "voice_stt_language")) {
        return false;
    }
    if str_eq(meta.key, "voice_capture_mode") && !gates.kitty_releases {
        return false;
    }
    if gates.minimal && meta.hidden_in_minimal {
        return false;
    }
    if meta.external_only && !gates.external_agent {
        return false;
    }
    true
}

/// The `j`-th child of a Group kind.
pub open spec fn child_at(kind: SettingKind, j: int) -> Option<Seq<char>> {
    match kind {
        SettingKind::Group { children } => if 0 <= j < children@.len() {
            Some(children@[j]@)
        } else {
            None
        },
        _ => None,
    }
}

/// Whether `key` is a child of some Group setting; such settings appear
/// only inside their parent's sub-sheet.
pub open spec fn spec_is_group_child(reg: Seq<SettingMeta>, key: Seq<char>) -> bool {
    exists|i: int, j: int| 0 <= i < reg.len() && #[trigger] child_at(reg[i].kind, j) == Some(key)
}

/// `spec_is_group_child`, computed.
pub fn is_group_child(reg: &Vec<SettingMeta>, key: &str) -> (r: bool)
    ensures
        r == spec_is_group_child(reg@, key@),
{
    let mut i: usize = 0;
    while i < reg.len()
        invariant
            i <= reg@.len(),
            forall|a: int, b: int| 0 <= a < i ==> #[trigger] child_at(reg@[a].kind, b) != Some(key@),
        decreases reg.len() - i,
    {
        match &reg[i].kind {
            SettingKind::Group { children } => {
                let mut j: usize = 0;
                while j < children.len()
                    invariant
                        i < reg@.len(),
                        j <= children@.len(),
                        reg@[i as int].kind == (SettingKind::Group { children: *children }),
                        forall|b: int| 0 <= b < j ==> children@[b]@ != key@,
                    decreases children.len() - j,
                {
                    if str_eq(children[j], key) {
                        assert(child_at(reg@[i as int].kind, j as int) == Some(key@));
                        return true;
                    }
                    j = j + 1;
                }
                assert forall|b: int| #[trigger] child_at(reg@[i as int].kind, b) != Some(key@) by {
                    if 0 <= b < children@.len() {
                        assert(children@[b]@ != key@);
                    }
                }
            },
            _ => {},
        }
        i = i + 1;
    }
    false
}

/// Registry entries that get a row: shown under the gates and not a group
/// child.
pub open spec fn spec_listed(reg: Seq<SettingMeta>, m: int, gates: RuntimeGates) -> bool {
    spec_row_visible(reg[m], gates) && !spec_is_group_child(reg, reg[m].key@)
}

/// Shape of a row table: it opens with a category heading, every section
/// heading is followed by a setting, each category heads at most once, and
/// every setting row is a listed entry of the registry.
pub open spec fn page_shape(rows: Seq<Row>, reg: Seq<SettingMeta>, gates: RuntimeGates) -> bool {
    &&& rows_wf(rows, reg)
    &&& rows.len() > 0 ==> rows[0] is Category
    &&& forall|i: int|
        0 <= i < rows.len() && (#[trigger] rows[i]) is Section ==> i + 1 < rows.len() && rows[i
            + 1] is Setting
    &&& forall|i: int, j: int|
        0 <= i < j < rows.len() && (#[trigger] rows[i]) is Category && (#[trigger] rows[j]) is Category
            ==> rows[i]->Category_category != rows[j]->Category_category
    &&& forall|i: int|
        0 <= i < rows.len() && (#[trigger] rows[i]) is Setting ==> spec_listed(
            reg,
            rows[i]->meta as int,
            gates,
        )
}

/// `page_shape`, kept folded where only its name is needed.
#[verifier::opaque]
pub open spec fn page_shape_of(rows: Seq<Row>, reg: Seq<SettingMeta>, gates: RuntimeGates) -> bool {
    page_shape(rows, reg, gates)
}

/// Whether registry entry `m` has a setting row in `rows`.
pub open spec fn has_row(rows: Seq<Row>, m: int) -> bool {
    exists|i: int| 0 <= i < rows.len() && #[trigger] row_meta(rows[i]) == Some(m)
}

/// The registry entry a row shows, for a setting row.
pub open spec fn row_meta(r: Row) -> Option<int> {
    match r {
        Row::Setting { meta, .. } => Some(meta as int),
        _ => None,
    }
}

/// Whether entry `m` belongs on the page: it is listed, and the layout
/// table declares its section for its category.
#[verifier::opaque]
pub open spec fn placed(reg: Seq<SettingMeta>, m: int, gates: RuntimeGates) -> bool {
    &&& 0 <= m < reg.len()
    &&& spec_listed(reg, m, gates)
    &&& spec_sections_for(reg[m].category).contains(spec_section_for(reg[m].key@))
}

/// Rows kept as a prefix keep their settings.
pub proof fn lemma_has_row_prefix(a: Seq<Row>, b: Seq<Row>, m: int)
    requires
        has_row(a, m),
        a.len() <= b.len(),
        forall|i: int| 0 <= i < a.len() ==> b[i] == a[i],
    ensures
        has_row(b, m),
{
    let i = choose|i: int| 0 <= i < a.len() && #[trigger] row_meta(a[i]) == Some(m);
    assert(b[i] == a[i]);
    assert(row_meta(b[i]) == Some(m));
}

/// Index of `c` in the page order of categories.
pub open spec fn category_rank(c: SettingCategory) -> int {
    match c {
        SettingCategory::Appearance => 0,
        SettingCategory::Editor => 1,
        SettingCategory::Agent => 2,
        SettingCategory::Models => 3,
        SettingCategory::Popups => 4,
        SettingCategory::Mouse => 5,
        SettingCategory::Privacy => 6,
        SettingCategory::Advanced => 7,
    }
}

/// Listed entries of `category`, in declaration order.
fn listed_members(reg: &Vec<SettingMeta>, category: SettingCategory, gates: &RuntimeGates) -> (r:
    Vec<usize>)
    ensures
        forall|k: int|
            0 <= k < r@.len() ==> (#[trigger] r@[k]) < reg@.len() && spec_listed(
                reg@,
                r@[k] as int,
                *gates,
            ) && reg@[r@[k] as int].category == category,
        forall|m: int|
            0 <= m < reg@.len() && spec_listed(reg@, m, *gates) && reg@[m].category == category
                ==> r@.contains(m as usize),
        reg@.len() <= usize::MAX,
        ascending(r@),
        members_of(r@, reg@, category),
{
    let mut members: Vec<usize> = Vec::new();
    let mut m: usize = 0;
    while m < reg.len()
        invariant
            m <= reg@.len(),
            forall|k: int|
                0 <= k < members@.len() ==> (#[trigger] members@[k]) < reg@.len() && spec_listed(
                    reg@,
                    members@[k] as int,
                    *gates,
                ) && reg@[members@[k] as int].category == category,
            forall|x: int|
                0 <= x < m && spec_listed(reg@, x, *gates) && reg@[x].category == category
                    ==> members@.contains(x as usize),
            forall|a: int, b: int| 0 <= a < b < members@.len() ==> members@[a] < members@[b],
            forall|a: int| 0 <= a < members@.len() ==> members@[a] < m,
        decreases reg.len() - m,
    {
        let ghost before = members@;
        if reg[m].category == category && row_visible(&reg[m], gates) && !is_group_child(
            reg,
            reg[m].key,
        ) {
            members.push(m);
            assert forall|x: int|
                0 <= x < m + 1 && spec_listed(reg@, x, *gates) && reg@[x].category == category
                    implies members@.contains(x as usize) by {
                if x < m {
                    let j = choose|j: int| 0 <= j < before.len() && before[j] == x as usize;
                    assert(members@[j] == x as usize);
                } else {
                    assert(members@[members@.len() - 1] == x as usize);
                }
            }
        }
        m = m + 1;
    }
    proof {
        reveal(ascending);
        reveal(members_of);
    }
    members
}

/// Appending the row of `members[k]` to a table that already shows the
/// earlier members of `section` shows them all up to `k`.
proof fn lemma_section_rows_grow(
    pre: Seq<Row>,
    post: Seq<Row>,
    reg: Seq<SettingMeta>,
    members: Seq<usize>,
    section: Seq<char>,
    k: int,
)
    requires
        0 <= k < members.len(),
        pre.len() < post.len(),
        forall|i: int| 0 <= i < pre.len() ==> post[i] == pre[i],
        row_meta(post[post.len() - 1]) == Some(members[k] as int),
        forall|j: int|
            0 <= j < k && spec_section_for(reg[#[trigger] members[j] as int].key@) == section
                ==> has_row(pre, members[j] as int),
    ensures
        forall|j: int|
            0 <= j < k + 1 && spec_section_for(reg[#[trigger] members[j] as int].key@) == section
                ==> has_row(post, members[j] as int),
{
    assert forall|j: int|
        0 <= j < k + 1 && spec_section_for(reg[#[trigger] members[j] as int].key@) == section
            implies has_row(post, members[j] as int) by {
        if j < k {
            lemma_has_row_prefix(pre, post, members[j] as int);
        } else {
            assert(row_meta(post[post.len() - 1]) == Some(members[j] as int));
        }
    }
}

/// `s` is strictly increasing.
#[verifier::opaque]
pub open spec fn ascending(s: Seq<usize>) -> bool {
    forall|a: int, b: int| 0 <= a < b < s.len() ==> s[a] < s[b]
}

/// Every entry of `members` belongs to `category`.
#[verifier::opaque]
pub open spec fn members_of(members: Seq<usize>, reg: Seq<SettingMeta>, category: SettingCategory) -> bool {
    forall|k: int| 0 <= k < members.len() ==> reg[(#[trigger] members[k]) as int].category == category
}

/// The member after the first `k`, if any.
pub open spec fn next_member(members: Seq<usize>, k: int) -> Option<usize> {
    if 0 <= k < members.len() {
        Some(members[k])
    } else {
        None
    }
}

/// The rows after position `s0` are settings of `section` in `category`,
/// in increasing registry order, each before `bound` when there is one.
#[verifier::opaque]
pub open spec fn segment_ok(
    s0: int,
    rows: Seq<Row>,
    reg: Seq<SettingMeta>,
    category: SettingCategory,
    section: Seq<char>,
    bound: Option<usize>,
) -> bool {
    &&& forall|i: int|
        s0 < i < rows.len() ==> (#[trigger] rows[i]) is Setting && reg[rows[i]->meta as int].category
            == category && spec_section_for(reg[rows[i]->meta as int].key@) == section && (
        bound matches Some(b) ==> rows[i]->meta < b)
    &&& forall|i: int, j: int| s0 < i < j < rows.len() ==> (#[trigger] rows[i])->meta < (#[trigger] rows[j])->meta
}

/// Nothing follows the heading yet.
proof fn lemma_segment_fresh(
    s0: int,
    rows: Seq<Row>,
    reg: Seq<SettingMeta>,
    category: SettingCategory,
    section: Seq<char>,
    bound: Option<usize>,
)
    requires
        rows.len() <= s0 + 1,
    ensures
        segment_ok(s0, rows, reg, category, section, bound),
{
    reveal(segment_ok);
}

/// Passing over a member of another section keeps the segment below the
/// next member.
proof fn lemma_segment_bound(
    s0: int,
    rows: Seq<Row>,
    reg: Seq<SettingMeta>,
    members: Seq<usize>,
    category: SettingCategory,
    section: Seq<char>,
    k: int,
)
    requires
        0 <= k < members.len(),
        ascending(members),
        segment_ok(s0, rows, reg, category, section, next_member(members, k)),
    ensures
        segment_ok(s0, rows, reg, category, section, next_member(members, k + 1)),
{
    reveal(segment_ok);
    reveal(ascending);
    if k + 1 < members.len() {
        assert(members[k] < members[k + 1]);
    }
}

/// Past the last member, the bound is no longer needed.
proof fn lemma_segment_drop_bound(
    s0: int,
    rows: Seq<Row>,
    reg: Seq<SettingMeta>,
    category: SettingCategory,
    section: Seq<char>,
    bound: Option<usize>,
)
    requires
        segment_ok(s0, rows, reg, category, section, bound),
    ensures
        segment_ok(s0, rows, reg, category, section, None),
{
    reveal(segment_ok);
}

/// Appending the row of `members[k]` keeps the segment in order.
proof fn lemma_segment_grow(
    s0: int,
    mid: Seq<Row>,
    post: Seq<Row>,
    reg: Seq<SettingMeta>,
    members: Seq<usize>,
    category: SettingCategory,
    section: Seq<char>,
    k: int,
)
    requires
        0 <= k < members.len(),
        0 <= s0 < mid.len(),
        post.len() == mid.len() + 1,
        forall|i: int| 0 <= i < mid.len() ==> post[i] == mid[i],
        post[mid.len() as int] is Setting,
        post[mid.len() as int]->meta == members[k],
        reg[members[k] as int].category == category,
        spec_section_for(reg[members[k] as int].key@) == section,
        ascending(members),
        segment_ok(s0, mid, reg, category, section, next_member(members, k)),
    ensures
        segment_ok(s0, post, reg, category, section, next_member(members, k + 1)),
{
    reveal(segment_ok);
    reveal(ascending);
    assert forall|i: int|
        s0 < i < post.len() implies (#[trigger] post[i]) is Setting && reg[post[i]->meta as int].category
            == category && spec_section_for(reg[post[i]->meta as int].key@) == section && (
        next_member(members, k + 1) matches Some(b) ==> post[i]->meta < b) by {
        if i < mid.len() {
            assert(post[i] == mid[i]);
        }
        if k + 1 < members.len() {
            assert(members[k] < members[k + 1]);
        }
    }
    assert forall|i: int, j: int| s0 < i < j < post.len() implies (#[trigger] post[i])->meta
        < (#[trigger] post[j])->meta by {
        assert(post[i] == mid[i]);
        if j < mid.len() {
            assert(post[j] == mid[j]);
        }
    }
}

/// How a row may follow the one before it: a setting follows its section's
/// heading, or a setting of the same category and section with a lower
/// registry index; a section heading follows its category's heading or a
/// setting of that category.
pub open spec fn follows(prev: Row, r: Row, reg: Seq<SettingMeta>) -> bool {
    match r {
        Row::Setting { meta, .. } => match prev {
            Row::Section { category, name } => reg[meta as int].category == category
                && spec_section_for(reg[meta as int].key@) == name@,
            Row::Setting { meta: pm, .. } => reg[pm as int].category == reg[meta as int].category
                && spec_section_for(reg[pm as int].key@) == spec_section_for(reg[meta as int].key@)
                && pm < meta,
            _ => false,
        },
        Row::Section { category, .. } => match prev {
            Row::Category { category: c } => c == category,
            Row::Setting { meta: pm, .. } => reg[pm as int].category == category,
            _ => false,
        },
        Row::Category { .. } => true,
    }
}

/// Every heading and setting after the first row follows the row before it.
#[verifier::opaque]
pub open spec fn rows_follow(rows: Seq<Row>, reg: Seq<SettingMeta>) -> bool {
    forall|i: int| 0 < i < rows.len() ==> follows(rows[i - 1], #[trigger] rows[i], reg)
}

/// No registry entry has two setting rows.
#[verifier::opaque]
pub open spec fn settings_distinct(rows: Seq<Row>) -> bool {
    forall|i: int, j: int|
        0 <= i < j < rows.len() && (#[trigger] rows[i]) is Setting && (#[trigger] rows[j]) is Setting
            ==> rows[i]->meta != rows[j]->meta
}

/// Every listed entry of `category` is placed: its section is declared for
/// the category.
pub open spec fn category_placed(reg: Seq<SettingMeta>, category: SettingCategory, gates: RuntimeGates) -> bool {
    forall|m: int|
        0 <= m < reg.len() && spec_listed(reg, m, gates) && reg[m].category == category
            ==> #[trigger] placed(reg, m, gates)
}

/// Appending a row that follows the last one keeps `rows_follow`.
proof fn lemma_follow_push(rows: Seq<Row>, r: Row, reg: Seq<SettingMeta>)
    requires
        rows_follow(rows, reg),
        rows.len() > 0 ==> follows(rows[rows.len() - 1], r, reg),
    ensures
        rows_follow(rows.push(r), reg),
{
    reveal(rows_follow);
    let post = rows.push(r);
    assert forall|i: int| 0 < i < post.len() implies follows(post[i - 1], #[trigger] post[i], reg) by {
        if i < rows.len() {
            assert(post[i] == rows[i]);
            assert(post[i - 1] == rows[i - 1]);
        }
    }
}

/// Appending a row whose entry has no row yet keeps `settings_distinct`.
proof fn lemma_distinct_push(rows: Seq<Row>, r: Row)
    requires
        settings_distinct(rows),
        r is Setting ==> forall|i: int|
            0 <= i < rows.len() && (#[trigger] rows[i]) is Setting ==> rows[i]->meta != r->meta,
    ensures
        settings_distinct(rows.push(r)),
{
    reveal(settings_distinct);
    let post = rows.push(r);
    assert forall|i: int, j: int|
        0 <= i < j < post.len() && (#[trigger] post[i]) is Setting && (#[trigger] post[j]) is Setting
            implies post[i]->meta != post[j]->meta by {
        assert(post[i] == rows[i]);
        if j < rows.len() {
            assert(post[j] == rows[j]);
        }
    }
}

/// Where a section's block may start: no setting so far belongs to the
/// section, and the last row is the category's heading or one of its
/// settings.
#[verifier::opaque]
pub open spec fn section_entry_ok(
    rows: Seq<Row>,
    reg: Seq<SettingMeta>,
    category: SettingCategory,
    section: Seq<char>,
) -> bool {
    &&& rows.len() > 0
    &&& forall|i: int|
        0 <= i < rows.len() && (#[trigger] rows[i]) is Setting ==> reg[rows[i]->meta as int].category
            != category || spec_section_for(reg[rows[i]->meta as int].key@) != section
    &&& rows[rows.len() - 1] == (Row::Category { category }) || (rows[rows.len() - 1] is Setting
        && reg[rows[rows.len() - 1]->meta as int].category == category)
}

/// A setting of `section` appended after the section's heading, or after
/// the section's earlier settings, follows its predecessor and repeats no
/// entry.
proof fn lemma_section_setting_push(
    s0: int,
    mid: Seq<Row>,
    r: Row,
    reg: Seq<SettingMeta>,
    category: SettingCategory,
    section: Seq<char>,
)
    requires
        0 < s0 < mid.len(),
        mid[s0] is Section,
        r is Setting,
        r->meta < reg.len(),
        rows_wf(mid, reg),
        rows_follow(mid, reg),
        settings_distinct(mid),
        segment_ok(s0, mid, reg, category, section, Some(r->meta)),
        reg[r->meta as int].category == category,
        spec_section_for(reg[r->meta as int].key@) == section,
        mid[mid.len() - 1] is Section ==> mid[mid.len() - 1]->Section_category == category
            && mid[mid.len() - 1]->name@ == section,
        section_entry_ok(mid.take(s0), reg, category, section),
    ensures
        rows_follow(mid.push(r), reg),
        settings_distinct(mid.push(r)),
{
    reveal(segment_ok);
    reveal(section_entry_ok);
    let last = mid[mid.len() - 1];
    if mid.len() - 1 > s0 {
        assert(last is Setting);
    }
    assert(follows(last, r, reg));
    lemma_follow_push(mid, r, reg);
    assert forall|i: int| 0 <= i < mid.len() && (#[trigger] mid[i]) is Setting implies mid[i]->meta
        != r->meta by {
        if i > s0 {
            assert(mid[i]->meta < r->meta);
        } else if i < s0 {
            assert(mid.take(s0)[i] == mid[i]);
        }
    }
    lemma_distinct_push(mid, r);
}

/// Appending a listed setting, or a section heading and a listed setting,
/// keeps the page's shape.
proof fn lemma_page_shape_grow(pre: Seq<Row>, post: Seq<Row>, reg: Seq<SettingMeta>, gates: RuntimeGates)
    requires
        page_shape(pre, reg, gates),
        pre.len() > 0,
        pre.len() < post.len() <= pre.len() + 2,
        forall|i: int| 0 <= i < pre.len() ==> post[i] == pre[i],
        post.len() == pre.len() + 2 ==> post[pre.len() as int] is Section,
        post[post.len() - 1] is Setting,
        post[post.len() - 1]->meta < reg.len(),
        reg[post[post.len() - 1]->meta as int].key@ == post[post.len() - 1]->key@,
        spec_listed(reg, post[post.len() - 1]->meta as int, gates),
    ensures
        page_shape(post, reg, gates),
{
    assert forall|i: int| 0 <= i < post.len() implies match #[trigger] post[i] {
        Row::Setting { key, meta } => meta < reg.len() && reg[meta as int].key@ == key@,
        _ => true,
    } by {
        if i < pre.len() {
            assert(post[i] == pre[i]);
        }
    }
    assert forall|i: int|
        0 <= i < post.len() && (#[trigger] post[i]) is Section implies i + 1 < post.len() && post[i
            + 1] is Setting by {
        if i < pre.len() {
            assert(post[i] == pre[i]);
            if i + 1 < pre.len() {
                assert(post[i + 1] == pre[i + 1]);
            }
        }
    }
    assert forall|i: int, j: int|
        0 <= i < j < post.len() && (#[trigger] post[i]) is Category && (#[trigger] post[j]) is Category
            implies post[i]->Category_category != post[j]->Category_category by {
        assert(post[i] == pre[i]);
        assert(post[j] == pre[j]);
    }
    assert forall|i: int| 0 <= i < post.len() && (#[trigger] post[i]) is Setting implies spec_listed(
        reg,
        post[i]->meta as int,
        gates,
    ) by {
        if i < pre.len() {
            assert(post[i] == pre[i]);
        }
    }
    assert(post[0] == pre[0]);
}

/// Append the settings of `members` that sit in `section`, introduced by
/// the section's heading when there is at least one.
#[verifier::rlimit(100)]
fn push_section(
    rows: &mut Vec<Row>,
    reg: &Vec<SettingMeta>,
    members: &Vec<usize>,
    category: SettingCategory,
    section: &'static str,
    gates: &RuntimeGates,
)
    requires
        page_shape(old(rows)@, reg@, *gates),
        old(rows)@.len() > 0,
        forall|k: int|
            0 <= k < members@.len() ==> (#[trigger] members@[k]) < reg@.len() && spec_listed(
                reg@,
                members@[k] as int,
                *gates,
            ),
        ascending(members@),
        members_of(members@, reg@, category),
        rows_follow(old(rows)@, reg@),
        settings_distinct(old(rows)@),
        section_entry_ok(old(rows)@, reg@, category, section@),
    ensures
        page_shape(final(rows)@, reg@, *gates),
        rows_follow(final(rows)@, reg@),
        settings_distinct(final(rows)@),
        final(rows)@.len() > old(rows)@.len() ==> final(rows)@[final(rows)@.len() - 1] is Setting
            && reg@[final(rows)@[final(rows)@.len() - 1]->meta as int].category == category,
        final(rows)@.len() >= old(rows)@.len(),
        forall|i: int| 0 <= i < old(rows)@.len() ==> final(rows)@[i] == old(rows)@[i],
        forall|i: int|
            old(rows)@.len() <= i < final(rows)@.len() ==> !((#[trigger] final(rows)@[i]) is Category),
        forall|k: int|
            0 <= k < members@.len() && spec_section_for(reg@[#[trigger] members@[k] as int].key@)
                == section@ ==> has_row(final(rows)@, members@[k] as int),
        segment_ok(old(rows)@.len() as int, final(rows)@, reg@, category, section@, None),
        final(rows)@.len() > old(rows)@.len() ==> final(rows)@.len() >= old(rows)@.len() + 2
            && final(rows)@[old(rows)@.len() as int] == (Row::Section { category, name: section }),
        forall|k: int|
            0 <= k < members@.len() && spec_section_for(reg@[#[trigger] members@[k] as int].key@)
                == section@ ==> final(rows)@.len() > old(rows)@.len(),
{
    let ghost start = rows@;
    let mut emitted = false;
    let mut k: usize = 0;
    proof {
        lemma_segment_fresh(start.len() as int, start, reg@, category, section@, next_member(members@, 0));
    }
    while k < members.len()
        invariant
            rows@.len() >= start.len() > 0,
            page_shape(rows@, reg@, *gates),
            emitted ==> rows@[rows@.len() - 1] is Setting,
            !emitted ==> rows@.len() == start.len(),
            emitted ==> rows@.len() >= start.len() + 2 && rows@[start.len() as int] == (Row::Section {
                category,
                name: section,
            }),
            forall|j: int|
                0 <= j < k && spec_section_for(reg@[#[trigger] members@[j] as int].key@) == section@
                    ==> emitted,
            start.len() > 0 ==> !(start[start.len() - 1] is Section),
            forall|i: int| 0 <= i < start.len() ==> rows@[i] == start[i],
            rows_follow(rows@, reg@),
            settings_distinct(rows@),
            section_entry_ok(start, reg@, category, section@),
            emitted ==> reg@[rows@[rows@.len() - 1]->meta as int].category == category,
            forall|i: int| start.len() <= i < rows@.len() ==> !((#[trigger] rows@[i]) is Category),
            forall|k: int|
                0 <= k < members@.len() ==> (#[trigger] members@[k]) < reg@.len() && spec_listed(
                    reg@,
                    members@[k] as int,
                    *gates,
                ),
            forall|j: int|
                0 <= j < k && spec_section_for(reg@[#[trigger] members@[j] as int].key@) == section@
                    ==> has_row(rows@, members@[j] as int),
            ascending(members@),
            members_of(members@, reg@, category),
            segment_ok(start.len() as int, rows@, reg@, category, section@, next_member(members@, k as int)),
        decreases members.len() - k,
    {
        let mi = members[k];
        let ghost pre = rows@;
        if str_eq(section_for(reg[mi].key), section) {
            if !emitted {
                proof {
                    assert(rows@[rows@.len() - 1] == start[start.len() - 1]);
                    reveal(section_entry_ok);
                    lemma_follow_push(rows@, Row::Section { category, name: section }, reg@);
                    lemma_distinct_push(rows@, Row::Section { category, name: section });
                }
                rows.push(Row::Section { category, name: section });
                emitted = true;
            }
            let ghost mid = rows@;
            proof {
                reveal(members_of);
                if pre.len() < mid.len() {
                    lemma_segment_fresh(start.len() as int, mid, reg@, category, section@, next_member(members@, k as int));
                }
                assert(mid.take(start.len() as int) =~= start);
                lemma_section_setting_push(
                    start.len() as int,
                    mid,
                    Row::Setting { key: reg@[mi as int].key, meta: mi },
                    reg@,
                    category,
                    section@,
                );
            }
            rows.push(Row::Setting { key: reg[mi].key, meta: mi });
            proof {
                lemma_section_rows_grow(pre, rows@, reg@, members@, section@, k as int);
                lemma_page_shape_grow(pre, rows@, reg@, *gates);
                lemma_segment_grow(start.len() as int, mid, rows@, reg@, members@, category, section@, k as int);
            }
        } else {
            proof {
                lemma_segment_bound(start.len() as int, rows@, reg@, members@, category, section@, k as int);
            }
        }
        k = k + 1;
    }
    proof {
        lemma_segment_drop_bound(start.len() as int, rows@, reg@, category, section@, next_member(members@, k as int));
    }
}

/// The rows from `s0` on are one category's block so far: its heading,
/// then section headings and settings of the category, each setting in one
/// of `done`'s sections, with a section heading right after the category
/// heading once anything follows it.
#[verifier::opaque]
pub open spec fn block_ok(
    s0: int,
    rows: Seq<Row>,
    reg: Seq<SettingMeta>,
    category: SettingCategory,
    done: Seq<Seq<char>>,
) -> bool {
    &&& 0 <= s0 < rows.len()
    &&& rows[s0] == (Row::Category { category })
    &&& forall|i: int| s0 < i < rows.len() ==> !((#[trigger] rows[i]) is Category)
    &&& forall|i: int|
        s0 < i < rows.len() && (#[trigger] rows[i]) is Setting ==> reg[rows[i]->meta as int].category
            == category && done.contains(spec_section_for(reg[rows[i]->meta as int].key@))
    &&& rows[rows.len() - 1] == (Row::Category { category }) || (rows[rows.len() - 1] is Setting
        && reg[rows[rows.len() - 1]->meta as int].category == category)
    &&& rows.len() > s0 + 1 ==> rows[s0 + 1] is Section
}

/// A block whose settings are all in earlier sections is a place where the
/// next section's block may start.
proof fn lemma_block_entry(
    start: Seq<Row>,
    rows: Seq<Row>,
    reg: Seq<SettingMeta>,
    category: SettingCategory,
    sections: Seq<Seq<char>>,
    si: int,
)
    requires
        0 <= si < sections.len(),
        forall|a: int, b: int| 0 <= a < b < sections.len() ==> sections[a] != sections[b],
        block_ok(start.len() as int, rows, reg, category, sections.take(si)),
        start.len() <= rows.len(),
        forall|i: int| 0 <= i < start.len() ==> rows[i] == start[i],
        forall|i: int|
            0 <= i < start.len() && (#[trigger] start[i]) is Setting ==> reg[start[i]->meta as int].category
                != category,
    ensures
        section_entry_ok(rows, reg, category, sections[si]),
{
    let s0 = start.len() as int;
    reveal(block_ok);
    reveal(section_entry_ok);
    assert forall|i: int|
        0 <= i < rows.len() && (#[trigger] rows[i]) is Setting implies reg[rows[i]->meta as int].category
        != category || spec_section_for(reg[rows[i]->meta as int].key@) != sections[si] by {
        if i < s0 {
            assert(rows[i] == start[i]);
        }
        if i > s0 && reg[rows[i]->meta as int].category == category {
            let x = spec_section_for(reg[rows[i]->meta as int].key@);
            assert(sections.take(si).contains(x));
            let j = choose|j: int| 0 <= j < si && #[trigger] sections.take(si)[j] == x;
            assert(sections.take(si)[j] == sections[j]);
        }
    }
}

/// Appending one section's block keeps the category's block.
proof fn lemma_block_step(
    s0: int,
    before: Seq<Row>,
    after: Seq<Row>,
    reg: Seq<SettingMeta>,
    category: SettingCategory,
    sections: Seq<Seq<char>>,
    si: int,
)
    requires
        0 <= si < sections.len(),
        block_ok(s0, before, reg, category, sections.take(si)),
        before.len() <= after.len(),
        forall|i: int| 0 <= i < before.len() ==> after[i] == before[i],
        forall|i: int| before.len() <= i < after.len() ==> !((#[trigger] after[i]) is Category),
        segment_ok(before.len() as int, after, reg, category, sections[si], None),
        after.len() > before.len() ==> after[before.len() as int] is Section && after[after.len() - 1] is Setting,
    ensures
        block_ok(s0, after, reg, category, sections.take(si + 1)),
{
    reveal(block_ok);
    reveal(segment_ok);
    assert(sections.take(si + 1)[si] == sections[si]);
    assert forall|i: int|
        s0 < i < after.len() && (#[trigger] after[i]) is Setting implies reg[after[i]->meta as int].category
        == category && sections.take(si + 1).contains(spec_section_for(reg[after[i]->meta as int].key@)) by {
        let x = spec_section_for(reg[after[i]->meta as int].key@);
        if i < before.len() {
            assert(after[i] == before[i]);
            assert(sections.take(si).contains(x));
            let j = choose|j: int| 0 <= j < si && #[trigger] sections.take(si)[j] == x;
            assert(sections.take(si + 1)[j] == x);
        } else {
            assert(sections.take(si + 1)[si] == x);
        }
    }
    assert forall|i: int| s0 < i < after.len() implies !((#[trigger] after[i]) is Category) by {
        if i < before.len() {
            assert(after[i] == before[i]);
        }
    }
    assert(after[s0] == before[s0]);
    if after.len() > before.len() {
        if after.len() - 1 > before.len() {
            assert(after[after.len() - 1] is Setting);
        }
    } else {
        assert(after[after.len() - 1] == before[before.len() - 1]);
    }
    if before.len() > s0 + 1 {
        assert(after[s0 + 1] == before[s0 + 1]);
    }
}

/// After the settings of section `si` are appended, every member whose
/// section is among the first `si + 1` has its row.
proof fn lemma_sections_grow(
    pre: Seq<Row>,
    post: Seq<Row>,
    reg: Seq<SettingMeta>,
    members: Seq<usize>,
    sections: Seq<Seq<char>>,
    si: int,
)
    requires
        0 <= si < sections.len(),
        pre.len() <= post.len(),
        forall|i: int| 0 <= i < pre.len() ==> post[i] == pre[i],
        forall|k: int|
            0 <= k < members.len() && sections.take(si).contains(
                spec_section_for(reg[#[trigger] members[k] as int].key@),
            ) ==> has_row(pre, members[k] as int),
        forall|k: int|
            0 <= k < members.len() && spec_section_for(reg[#[trigger] members[k] as int].key@)
                == sections[si] ==> has_row(post, members[k] as int),
    ensures
        forall|k: int|
            0 <= k < members.len() && sections.take(si + 1).contains(
                spec_section_for(reg[#[trigger] members[k] as int].key@),
            ) ==> has_row(post, members[k] as int),
{
    assert forall|k: int|
        0 <= k < members.len() && sections.take(si + 1).contains(
            spec_section_for(reg[#[trigger] members[k] as int].key@),
        ) implies has_row(post, members[k] as int) by {
        let x = spec_section_for(reg[members[k] as int].key@);
        let j = choose|j: int| 0 <= j < si + 1 && #[trigger] sections.take(si + 1)[j] == x;
        if j < si {
            assert(sections.take(si)[j] == x);
            assert(sections.take(si).contains(x));
            lemma_has_row_prefix(pre, post, members[k] as int);
        } else {
            assert(sections[si] == x);
        }
    }
}

/// When every listed member of `category` is in `members`, and every
/// member whose section is declared for the category has a row, every
/// placed entry of the category has a row.
proof fn lemma_category_placed(
    rows: Seq<Row>,
    reg: Seq<SettingMeta>,
    members: Seq<usize>,
    category: SettingCategory,
    gates: RuntimeGates,
)
    requires
        reg.len() <= usize::MAX,
        forall|m: int|
            0 <= m < reg.len() && spec_listed(reg, m, gates) && reg[m].category == category
                ==> members.contains(m as usize),
        forall|k: int|
            0 <= k < members.len() && spec_sections_for(category).contains(
                spec_section_for(reg[#[trigger] members[k] as int].key@),
            ) ==> has_row(rows, members[k] as int),
    ensures
        forall|m: int|
            placed(reg, m, gates) && reg[m].category == category ==> #[trigger] has_row(rows, m),
{
    assert forall|m: int| placed(reg, m, gates) && reg[m].category == category implies #[trigger] has_row(
        rows,
        m,
    ) by {
        reveal(placed);
        assert(members.contains(m as usize));
        let k = choose|k: int| 0 <= k < members.len() && members[k] == m as usize;
        assert(members[k] == m as usize);
        assert(spec_sections_for(category).contains(spec_section_for(reg[members[k] as int].key@)));
    }
}

/// Append one category: its heading, then each non-empty section of the
/// layout table with its settings, when the category has listed entries.
#[verifier::rlimit(40)]
fn push_category(
    rows: &mut Vec<Row>,
    reg: &Vec<SettingMeta>,
    category: SettingCategory,
    gates: &RuntimeGates,
)
    requires
        page_shape(old(rows)@, reg@, *gates),
        old(rows)@.len() > 0 ==> !(old(rows)@[old(rows)@.len() - 1] is Section),
        forall|i: int|
            0 <= i < old(rows)@.len() && (#[trigger] old(rows)@[i]) is Category ==> category_rank(
                old(rows)@[i]->Category_category,
            ) < category_rank(category),
        rows_follow(old(rows)@, reg@),
        settings_distinct(old(rows)@),
        forall|i: int|
            0 <= i < old(rows)@.len() && (#[trigger] old(rows)@[i]) is Setting
                ==> reg@[old(rows)@[i]->meta as int].category != category,
    ensures
        page_shape(final(rows)@, reg@, *gates),
        rows_follow(final(rows)@, reg@),
        settings_distinct(final(rows)@),
        forall|i: int|
            old(rows)@.len() <= i < final(rows)@.len() && (#[trigger] final(rows)@[i]) is Setting
                ==> reg@[final(rows)@[i]->meta as int].category == category,
        final(rows)@.len() > old(rows)@.len() ==> final(rows)@[old(rows)@.len() as int] == (
        Row::Category { category }),
        forall|i: int|
            old(rows)@.len() < i < final(rows)@.len() ==> !((#[trigger] final(rows)@[i]) is Category),
        final(rows)@.len() > old(rows)@.len() && category_placed(reg@, category, *gates)
            ==> final(rows)@.len() > old(rows)@.len() + 1 && final(rows)@[old(rows)@.len() + 1int] is Section,
        final(rows)@.len() > 0 ==> !(final(rows)@[final(rows)@.len() - 1] is Section),
        forall|i: int|
            0 <= i < final(rows)@.len() && (#[trigger] final(rows)@[i]) is Category ==> category_rank(
                final(rows)@[i]->Category_category,
            ) <= category_rank(category),
        old(rows)@.len() <= final(rows)@.len(),
        forall|i: int| 0 <= i < old(rows)@.len() ==> final(rows)@[i] == old(rows)@[i],
        forall|m: int|
            placed(reg@, m, *gates) && reg@[m].category == category ==> #[trigger] has_row(
                final(rows)@,
                m,
            ),
{
    let ghost start = rows@;
    let members = listed_members(reg, category, gates);
    if members.len() == 0 {
        proof {
            lemma_category_placed(rows@, reg@, members@, category, *gates);
        }
        return;
    }
    let ghost before = rows@;
    proof {
        lemma_follow_push(rows@, Row::Category { category }, reg@);
        lemma_distinct_push(rows@, Row::Category { category });
        lemma_sections_distinct(category);
    }
    rows.push(Row::Category { category });
    proof {
        reveal(block_ok);
        assert(spec_sections_for(category).take(0) =~= Seq::<Seq<char>>::empty());
    }
    assert forall|i: int, j: int|
        0 <= i < j < rows@.len() && (#[trigger] rows@[i]) is Category && (
        #[trigger] rows@[j]) is Category implies rows@[i]->Category_category
        != rows@[j]->Category_category by {
        if j == rows@.len() - 1 {
            assert(category_rank(rows@[i]->Category_category) < category_rank(category));
        }
    }
    assert forall|i: int|
        0 <= i < rows@.len() && (#[trigger] rows@[i]) is Section implies i + 1
        < rows@.len() && rows@[i + 1] is Setting by {
        assert(before[i] is Section);
    }
    let sections = sections_for(category);
    let mut si: usize = 0;
    while si < sections.len()
        invariant
            rows@.len() > start.len(),
            forall|i: int| 0 <= i < start.len() ==> rows@[i] == start[i],
            page_shape(rows@, reg@, *gates),
            !(rows@[rows@.len() - 1] is Section),
            forall|i: int|
                0 <= i < rows@.len() && (#[trigger] rows@[i]) is Category
                    ==> category_rank(rows@[i]->Category_category) <= category_rank(category),
            forall|k: int|
                0 <= k < members@.len() ==> (#[trigger] members@[k]) < reg@.len()
                    && spec_listed(reg@, members@[k] as int, *gates),
            sections@.len() == spec_sections_for(category).len(),
            forall|i: int|
                0 <= i < sections@.len() ==> (#[trigger] sections@[i])@ == spec_sections_for(
                    category,
                )[i],
            si <= sections@.len(),
            ascending(members@),
            members_of(members@, reg@, category),
            forall|k: int|
                0 <= k < members@.len() && spec_sections_for(category).take(si as int).contains(
                    spec_section_for(reg@[#[trigger] members@[k] as int].key@),
                ) ==> has_row(rows@, members@[k] as int),
            rows_follow(rows@, reg@),
            settings_distinct(rows@),
            block_ok(start.len() as int, rows@, reg@, category, spec_sections_for(category).take(si as int)),
            forall|i: int|
                0 <= i < start.len() && (#[trigger] start[i]) is Setting
                    ==> reg@[start[i]->meta as int].category != category,
            forall|k: int|
                0 <= k < members@.len() && spec_sections_for(category).take(si as int).contains(
                    spec_section_for(reg@[#[trigger] members@[k] as int].key@),
                ) ==> rows@.len() > start.len() + 1,
            forall|a: int, b: int|
                0 <= a < b < spec_sections_for(category).len() ==> spec_sections_for(category)[a]
                    != spec_sections_for(category)[b],
        decreases sections.len() - si,
    {
        let ghost before = rows@;
        proof {
            lemma_block_entry(start, rows@, reg@, category, spec_sections_for(category), si as int);
        }
        push_section(rows, reg, &members, category, sections[si], gates);
        proof {
            lemma_block_step(
                start.len() as int,
                before,
                rows@,
                reg@,
                category,
                spec_sections_for(category),
                si as int,
            );
            let secs = spec_sections_for(category);
            assert forall|k: int|
                0 <= k < members@.len() && secs.take(si + 1).contains(
                    spec_section_for(reg@[#[trigger] members@[k] as int].key@),
                ) implies rows@.len() > start.len() + 1 by {
                let x = spec_section_for(reg@[members@[k] as int].key@);
                let j = choose|j: int| 0 <= j < si + 1 && #[trigger] secs.take(si + 1)[j] == x;
                if j < si {
                    assert(secs.take(si as int)[j] == x);
                    assert(secs.take(si as int).contains(x));
                } else {
                    assert(secs[si as int] == x);
                }
            }
            lemma_sections_grow(
                before,
                rows@,
                reg@,
                members@,
                spec_sections_for(category),
                si as int,
            );
        }
        assert forall|i: int|
            0 <= i < rows@.len() && (#[trigger] rows@[i]) is Category implies category_rank(
            rows@[i]->Category_category,
        ) <= category_rank(category) by {
            assert(i < before.len());
            assert(before[i] == rows@[i]);
        }
        si = si + 1;
    }
    proof {
        assert(spec_sections_for(category).take(sections@.len() as int) =~= spec_sections_for(
            category,
        ));
        lemma_category_placed(rows@, reg@, members@, category, *gates);
        reveal(block_ok);
        if category_placed(reg@, category, *gates) {
            let m0 = members@[0] as int;
            assert(placed(reg@, m0, *gates));
            reveal(placed);
            assert(spec_sections_for(category).take(si as int).contains(
                spec_section_for(reg@[members@[0] as int].key@),
            ));
        }
    }
}

/// The category a heading or setting row belongs to.
pub open spec fn row_category(r: Row, reg: Seq<SettingMeta>) -> SettingCategory {
    match r {
        Row::Category { category } => category,
        Row::Section { category, .. } => category,
        Row::Setting { meta, .. } => reg[meta as int].category,
    }
}

/// Row `i` sits under the heading of its category: the nearest category
/// heading above it is that category's.
pub open spec fn under_category(rows: Seq<Row>, reg: Seq<SettingMeta>, i: int) -> bool {
    exists|h: int|
        0 <= h < i && rows[h] == (Row::Category { category: row_category(rows[i], reg) }) && forall|t: int|
            h < t < i ==> !((#[trigger] rows[t]) is Category)
}

/// Setting row `i` sits under its section's heading: the nearest heading
/// above it is the section heading of its category and `section_for` name,
/// with only settings in between.
pub open spec fn under_section(rows: Seq<Row>, reg: Seq<SettingMeta>, i: int) -> bool {
    exists|h: int|
        0 <= h < i && rows[h] is Section && rows[h]->Section_category == reg[rows[i]->meta as int].category
            && rows[h]->name@ == spec_section_for(reg[rows[i]->meta as int].key@) && forall|t: int|
            h < t < i ==> (#[trigger] rows[t]) is Setting
}

/// Registry entry `m` has exactly one setting row.
pub open spec fn one_row(rows: Seq<Row>, m: int) -> bool {
    exists|i: int|
        0 <= i < rows.len() && #[trigger] row_meta(rows[i]) == Some(m) && forall|j: int|
            0 <= j < rows.len() && #[trigger] row_meta(rows[j]) == Some(m) ==> j == i
}

/// In a table whose rows follow one another and which opens with a
/// category heading, every setting row sits under its category's heading
/// and its section's heading.
pub proof fn lemma_rows_under_headings(rows: Seq<Row>, reg: Seq<SettingMeta>, i: int)
    requires
        rows_follow(rows, reg),
        rows.len() > 0 ==> rows[0] is Category,
        0 <= i < rows.len(),
        !(rows[i] is Category),
    ensures
        under_category(rows, reg, i),
        rows[i] is Setting ==> under_section(rows, reg, i),
    decreases i,
{
    reveal(rows_follow);
    assert(i > 0);
    assert(follows(rows[i - 1], rows[i], reg));
    let prev = rows[i - 1];
    if prev is Category {
        assert(rows[i - 1] == (Row::Category { category: row_category(rows[i], reg) }));
    } else {
        lemma_rows_under_headings(rows, reg, i - 1);
        let h = choose|h: int|
            #![trigger rows[h]]
            0 <= h < i - 1 && rows[h] == (Row::Category { category: row_category(rows[i - 1], reg) })
                && forall|t: int| h < t < i - 1 ==> !((#[trigger] rows[t]) is Category);
        assert(row_category(rows[i - 1], reg) == row_category(rows[i], reg));
        assert forall|t: int| h < t < i implies !((#[trigger] rows[t]) is Category) by {}
    }
    if rows[i] is Setting {
        if prev is Setting {
            let h = choose|h: int|
                #![trigger rows[h]]
                0 <= h < i - 1 && rows[h] is Section && rows[h]->Section_category == reg[rows[i
                    - 1]->meta as int].category && rows[h]->name@ == spec_section_for(
                    reg[rows[i - 1]->meta as int].key@,
                ) && forall|t: int| h < t < i - 1 ==> (#[trigger] rows[t]) is Setting;
            assert forall|t: int| h < t < i implies (#[trigger] rows[t]) is Setting by {}
        }
    }
}

/// Every setting row of a laid-out page sits under its category's and its
/// section's headings.
pub proof fn law_settings_under_headings(rows: Seq<Row>, reg: Seq<SettingMeta>)
    requires
        rows_follow(rows, reg),
        rows.len() > 0 ==> rows[0] is Category,
    ensures
        forall|i: int|
            0 <= i < rows.len() && (#[trigger] rows[i]) is Setting ==> under_category(rows, reg, i)
                && under_section(rows, reg, i),
{
    assert forall|i: int| 0 <= i < rows.len() && (#[trigger] rows[i]) is Setting implies under_category(
        rows,
        reg,
        i,
    ) && under_section(rows, reg, i) by {
        lemma_rows_under_headings(rows, reg, i);
    }
}

/// An entry with a row, in a table that repeats no entry, has exactly one.
proof fn lemma_one_row(rows: Seq<Row>, m: int)
    requires
        has_row(rows, m),
        settings_distinct(rows),
    ensures
        one_row(rows, m),
{
    reveal(settings_distinct);
    let i = choose|i: int| 0 <= i < rows.len() && #[trigger] row_meta(rows[i]) == Some(m);
    assert forall|j: int| 0 <= j < rows.len() && #[trigger] row_meta(rows[j]) == Some(m) implies j == i by {
        if j < i {
            assert(rows[j] is Setting && rows[i] is Setting);
        } else if j > i {
            assert(rows[j] is Setting && rows[i] is Setting);
        }
    }
}

/// Each category heading whose listed entries are all placed is followed by
/// a section heading.
#[verifier::opaque]
pub open spec fn headings_lead(rows: Seq<Row>, reg: Seq<SettingMeta>, gates: RuntimeGates) -> bool {
    forall|i: int|
        0 <= i < rows.len() && (#[trigger] rows[i]) is Category && category_placed(
            reg,
            rows[i]->Category_category,
            gates,
        ) ==> i + 1 < rows.len() && rows[i + 1] is Section
}

/// Appending one category's block keeps `headings_lead`.
proof fn lemma_headings_step(
    before: Seq<Row>,
    after: Seq<Row>,
    reg: Seq<SettingMeta>,
    gates: RuntimeGates,
    category: SettingCategory,
)
    requires
        headings_lead(before, reg, gates),
        before.len() <= after.len(),
        forall|i: int| 0 <= i < before.len() ==> after[i] == before[i],
        after.len() > before.len() ==> after[before.len() as int] == (Row::Category { category }),
        forall|i: int| before.len() < i < after.len() ==> !((#[trigger] after[i]) is Category),
        after.len() > before.len() && category_placed(reg, category, gates) ==> after.len()
            > before.len() + 1 && after[before.len() + 1int] is Section,
    ensures
        headings_lead(after, reg, gates),
{
    reveal(headings_lead);
    assert forall|i: int|
        0 <= i < after.len() && (#[trigger] after[i]) is Category && category_placed(
            reg,
            after[i]->Category_category,
            gates,
        ) implies i + 1 < after.len() && after[i + 1] is Section by {
        if i < before.len() {
            assert(after[i] == before[i]);
            assert(before[i] is Category);
            assert(after[i + 1] == before[i + 1]);
        }
    }
}

/// A row table laid out from registry `reg` under `gates`: the page's shape,
/// one row for every placed entry and no entry twice, each setting under
/// its category's and section's headings and after the entry before it in
/// its section, and a section heading after every fully placed category's
/// heading.
pub open spec fn page_laid_out(rows: Seq<Row>, reg: Seq<SettingMeta>, gates: RuntimeGates) -> bool {
    &&& page_shape_of(rows, reg, gates)
    &&& rows_wf(rows, reg)
    &&& forall|m: int| placed(reg, m, gates) ==> has_row(rows, m)
    &&& forall|m: int| placed(reg, m, gates) ==> #[trigger] one_row(rows, m)
    &&& settings_distinct(rows)
    &&& rows_follow(rows, reg)
    &&& headings_lead(rows, reg, gates)
    &&& forall|i: int|
        0 <= i < rows.len() && (#[trigger] rows[i]) is Setting ==> under_category(rows, reg, i)
            && under_section(rows, reg, i)
}

/// Build the full row table: per category with listed entries, a category
/// heading followed by each non-empty section's heading and its settings.
/// Section order comes from the layout table; inside a section the
/// registry's declaration order is kept. Every listed entry whose section
/// the layout table declares for its category gets exactly one row
/// (`has_row` and `settings_distinct`), right after its section's heading
/// or an earlier entry of the same section (`rows_follow`); a category
/// heading is followed by a section heading when all of the category's
/// listed entries are placed (`headings_lead`).
#[verifier::rlimit(100)]
pub fn build_rows(registry: &SettingsRegistry, gates: &RuntimeGates) -> (rows: Vec<Row>)
    ensures
        page_laid_out(rows@, registry.entries@, *gates),
{
    let reg = registry.all();
    let categories = SettingCategory::all();
    let mut rows: Vec<Row> = Vec::new();
    proof {
        reveal(rows_follow);
        reveal(settings_distinct);
        reveal(headings_lead);
    }
    let mut ci: usize = 0;
    while ci < categories.len()
        invariant
            reg@ == registry.entries@,
            categories@ == spec_all_categories(),
            ci <= categories@.len(),
            page_shape(rows@, reg@, *gates),
            rows@.len() > 0 ==> !(rows@[rows@.len() - 1] is Section),
            forall|i: int|
                0 <= i < rows@.len() && (#[trigger] rows@[i]) is Category ==> category_rank(
                    rows@[i]->Category_category,
                ) < ci,
            forall|m: int|
                placed(reg@, m, *gates) && category_rank(reg@[m].category) < ci ==> #[trigger] has_row(
                    rows@,
                    m,
                ),
            rows_follow(rows@, reg@),
            settings_distinct(rows@),
            headings_lead(rows@, reg@, *gates),
            forall|i: int|
                0 <= i < rows@.len() && (#[trigger] rows@[i]) is Setting ==> category_rank(
                    reg@[rows@[i]->meta as int].category,
                ) < ci,
        decreases categories.len() - ci,
    {
        let category = categories[ci];
        assert(category_rank(category) == ci as int);
        let ghost before = rows@;
        push_category(&mut rows, reg, category, gates);
        proof {
            lemma_headings_step(before, rows@, reg@, *gates, category);
            assert forall|i: int|
                0 <= i < rows@.len() && (#[trigger] rows@[i]) is Setting implies category_rank(
                reg@[rows@[i]->meta as int].category,
            ) < ci + 1 by {
                if i < before.len() {
                    assert(before[i] == rows@[i]);
                }
            }
            assert forall|m: int|
                placed(reg@, m, *gates) && category_rank(reg@[m].category) < ci + 1 implies #[trigger] has_row(
                rows@,
                m,
            ) by {
                if category_rank(reg@[m].category) < ci {
                    lemma_has_row_prefix(before, rows@, m);
                } else {
                    assert(reg@[m].category == category);
                }
            }
        }
        ci = ci + 1;
    }
    proof {
        reveal(page_shape_of);
        assert forall|m: int| placed(registry.entries@, m, *gates) implies has_row(rows@, m) by {
            assert(category_rank(reg@[m].category) < 8);
        }
        assert forall|m: int| placed(registry.entries@, m, *gates) implies #[trigger] one_row(rows@, m) by {
            assert(has_row(rows@, m));
            lemma_one_row(rows@, m);
        }
        law_settings_under_headings(rows@, reg@);
    }
    rows
}

/// `0, 1, .., n - 1`: every row on screen.
pub open spec fn all_rows(n: nat) -> Seq<usize> {
    Seq::new(n, |i: int| i as usize)
}

/// Positions into the row table, strictly increasing and in range.
pub open spec fn visible_wf(vis: Seq<usize>, n: nat) -> bool {
    &&& forall|k: int| 0 <= k < vis.len() ==> (#[trigger] vis[k]) < n
    &&& forall|k: int, l: int| 0 <= k < l < vis.len() ==> vis[k] < vis[l]
}

/// The search results over the first `n` rows, and the category heading
/// still waiting for its first match: headings are held back until a
/// setting of theirs matches, section headings are dropped.
pub open spec fn scan(rows: Seq<Row>, reg: Seq<SettingMeta>, q: Seq<char>, n: nat) -> (
    Seq<usize>,
    Option<usize>,
)
    decreases n,
{
    if n == 0 {
        (Seq::empty(), None)
    } else {
        let prev = scan(rows, reg, q, (n - 1) as nat);
        let i = n - 1;
        match rows[i] {
            Row::Category { .. } => (prev.0, Some(i as usize)),
            Row::Section { .. } => prev,
            Row::Setting { meta, .. } => if reg[meta as int].matches(q) {
                match prev.1 {
                    Some(c) => (prev.0.push(c).push(i as usize), None),
                    None => (prev.0.push(i as usize), None),
                }
            } else {
                prev
            },
        }
    }
}

/// The rows on screen for the ASCII-lower-cased query `q`: all of them when
/// it is empty, else the search results.
pub open spec fn spec_visible(rows: Seq<Row>, reg: Seq<SettingMeta>, q: Seq<char>) -> Seq<usize> {
    if q.len() == 0 {
        all_rows(rows.len())
    } else {
        scan_vis(rows, reg, q, rows.len())
    }
}

/// The search results over the first `n` rows.
pub open spec fn scan_vis(rows: Seq<Row>, reg: Seq<SettingMeta>, q: Seq<char>, n: nat) -> Seq<usize> {
    scan(rows, reg, q, n).0
}

/// The search results are in range and increasing, and the waiting heading
/// is a category heading past all of them.
pub proof fn lemma_scan_wf(rows: Seq<Row>, reg: Seq<SettingMeta>, q: Seq<char>, n: nat)
    requires
        n <= rows.len() <= usize::MAX,
    ensures
        visible_wf(scan_vis(rows, reg, q, n), n),
        scan(rows, reg, q, n).1 matches Some(c) ==> c < n && rows[c as int] is Category && forall|
            k: int,
        | 0 <= k < scan_vis(rows, reg, q, n).len() ==> #[trigger] scan_vis(rows, reg, q, n)[k] < c,
    decreases n,
{
    if n > 0 {
        lemma_scan_wf(rows, reg, q, (n - 1) as nat);
        let prev = scan(rows, reg, q, (n - 1) as nat);
        let cur = scan(rows, reg, q, n);
        assert(scan_vis(rows, reg, q, n) == cur.0);
        assert(scan_vis(rows, reg, q, (n - 1) as nat) == prev.0);
    }
}

/// Search results hold no section heading, and each category heading in
/// them is directly followed by a setting.
pub proof fn lemma_scan_headings(rows: Seq<Row>, reg: Seq<SettingMeta>, q: Seq<char>, n: nat)
    requires
        n <= rows.len() <= usize::MAX,
    ensures
        forall|k: int|
            0 <= k < scan_vis(rows, reg, q, n).len() ==> !(rows[#[trigger] scan_vis(
                rows,
                reg,
                q,
                n,
            )[k] as int] is Section),
        forall|k: int|
            0 <= k < scan_vis(rows, reg, q, n).len() && rows[#[trigger] scan_vis(
                rows,
                reg,
                q,
                n,
            )[k] as int] is Category ==> k + 1 < scan_vis(rows, reg, q, n).len() && rows[scan_vis(
                rows,
                reg,
                q,
                n,
            )[k + 1] as int] is Setting,
    decreases n,
{
    if n > 0 {
        lemma_scan_headings(rows, reg, q, (n - 1) as nat);
        lemma_scan_wf(rows, reg, q, (n - 1) as nat);
        let prev = scan(rows, reg, q, (n - 1) as nat);
        let cur = scan(rows, reg, q, n);
        let pv = scan_vis(rows, reg, q, (n - 1) as nat);
        let cv = scan_vis(rows, reg, q, n);
        assert(cv == cur.0);
        assert(pv == prev.0);
        assert forall|k: int| 0 <= k < cv.len() implies !(rows[#[trigger] cv[k] as int] is Section)
            && (rows[cv[k] as int] is Category ==> k + 1 < cv.len() && rows[cv[k + 1] as int] is Setting) by {
            if k < pv.len() {
                assert(cv[k] == pv[k]);
                if k + 1 < pv.len() {
                    assert(cv[k + 1] == pv[k + 1]);
                }
            }
        }
    }
}

/// Search results hold exactly the matching settings.
pub proof fn lemma_scan_matches(rows: Seq<Row>, reg: Seq<SettingMeta>, q: Seq<char>, n: nat)
    requires
        n <= rows.len() <= usize::MAX,
    ensures
        forall|i: int|
            0 <= i < n && (#[trigger] rows[i]) is Setting ==> (scan_vis(rows, reg, q, n).contains(
                i as usize,
            ) <==> reg[rows[i]->meta as int].matches(q)),
        forall|k: int|
            0 <= k < scan_vis(rows, reg, q, n).len() && rows[#[trigger] scan_vis(
                rows,
                reg,
                q,
                n,
            )[k] as int] is Setting ==> reg[rows[scan_vis(
                rows,
                reg,
                q,
                n,
            )[k] as int]->meta as int].matches(q),
    decreases n,
{
    if n > 0 {
        lemma_scan_matches(rows, reg, q, (n - 1) as nat);
        lemma_scan_wf(rows, reg, q, (n - 1) as nat);
        let prev = scan_vis(rows, reg, q, (n - 1) as nat);
        let cur = scan_vis(rows, reg, q, n);
        let i = n - 1;
        assert forall|j: int|
            0 <= j < n && (#[trigger] rows[j]) is Setting implies (cur.contains(j as usize)
            <==> reg[rows[j]->meta as int].matches(q)) by {
            if j < i {
                if cur.contains(j as usize) {
                    let k = choose|k: int| 0 <= k < cur.len() && cur[k] == j as usize;
                    if k < prev.len() {
                        assert(prev[k] == j as usize);
                    } else {
                        assert(cur[k] == i as usize || rows[cur[k] as int] is Category);
                    }
                }
                if prev.contains(j as usize) {
                    let k = choose|k: int| 0 <= k < prev.len() && prev[k] == j as usize;
                    assert(cur[k] == j as usize);
                }
            } else {
                if reg[rows[j]->meta as int].matches(q) {
                    assert(cur[cur.len() - 1] == i as usize);
                } else {
                    if cur.contains(j as usize) {
                        let k = choose|k: int| 0 <= k < cur.len() && cur[k] == j as usize;
                        assert(prev[k] < n - 1);
                    }
                }
            }
        }
    }
}

/// In minimal mode no setting marked `hidden_in_minimal` is shown, and
/// switching minimal mode on hides exactly those settings: any other
/// setting is shown with minimal mode on just when it is with it off.
pub proof fn law_minimal_hides(meta: SettingMeta, gates: RuntimeGates)
    ensures
        gates.minimal && meta.hidden_in_minimal ==> !spec_row_visible(meta, gates),
        spec_row_visible(meta, RuntimeGates { minimal: true, ..gates }) == (spec_row_visible(
            meta,
            RuntimeGates { minimal: false, ..gates },
        ) && !meta.hidden_in_minimal),
        meta.external_only && !gates.external_agent ==> !spec_row_visible(meta, gates),
{
}

/// A page laid out in minimal mode gives no row to a setting marked
/// `hidden_in_minimal`.
pub proof fn law_minimal_page(rows: Seq<Row>, reg: Seq<SettingMeta>, gates: RuntimeGates)
    requires
        page_laid_out(rows, reg, gates),
        gates.minimal,
    ensures
        forall|i: int|
            0 <= i < rows.len() && (#[trigger] rows[i]) is Setting ==> !reg[rows[i]->meta as int].hidden_in_minimal,
{
    reveal(page_shape_of);
    assert forall|i: int| 0 <= i < rows.len() && (#[trigger] rows[i]) is Setting implies !reg[rows[i]->meta
        as int].hidden_in_minimal by {
        assert(spec_listed(reg, rows[i]->meta as int, gates));
    }
}

} // verus!
