//! Properties of the settings panel that hold in every state.
use vstd::prelude::*;
use crate::pi_settings::rows::{
    lemma_scan_headings, lemma_scan_matches, lemma_scan_wf, scan_vis, spec_visible, visible_wf, Row,
};
use crate::pi_settings::state::{
    lemma_next_setting, lemma_visible_wf, next_setting, spec_position, PiSettingsState,
};

verus! {

/// While a query is set, the rows on screen are in page order, hold no
/// section heading, introduce every category by a heading directly
/// followed by a setting, and are exactly the settings that match the
/// query.
pub proof fn law_search_results(s: PiSettingsState)
    requires
        s.wf(),
        s.spec_query().len() > 0,
    ensures
        visible_wf(s.visible@, s.rows@.len()),
        forall|k: int|
            0 <= k < s.visible@.len() ==> !(s.rows@[#[trigger] s.visible@[k] as int] is Section),
        forall|k: int|
            0 <= k < s.visible@.len() && s.rows@[#[trigger] s.visible@[k] as int] is Category ==> k
                + 1 < s.visible@.len() && s.rows@[s.visible@[k + 1] as int] is Setting,
        forall|i: int|
            0 <= i < s.rows@.len() && (#[trigger] s.rows@[i]) is Setting ==> (s.visible@.contains(
                i as usize,
            ) <==> s.registry.entries@[s.rows@[i]->meta as int].matches(s.spec_query())),
{
    let rows = s.rows@;
    let reg = s.registry.entries@;
    let q = s.spec_query();
    lemma_scan_wf(rows, reg, q, rows.len());
    lemma_scan_headings(rows, reg, q, rows.len());
    lemma_scan_matches(rows, reg, q, rows.len());
    assert(s.visible@ == scan_vis(rows, reg, q, rows.len()));
}

/// With no query, every row of the page is on screen, in order.
pub proof fn law_browse_shows_the_whole_page(s: PiSettingsState)
    requires
        s.wf(),
        s.spec_query().len() == 0,
    ensures
        s.visible@.len() == s.rows@.len(),
        forall|k: int| 0 <= k < s.visible@.len() ==> s.visible@[k] == k,
{
}

/// A step by one row lands only on a setting row on screen, and a step
/// that finds none leaves no setting row between the focus and that end
/// of the list: the focus never wraps and never rests on a heading.
pub proof fn law_step_targets(s: PiSettingsState, delta: int)
    requires
        s.wf(),
        delta == 1 || delta == -1,
    ensures
        next_setting(s.rows@, s.visible@, s.step_start(delta), delta) matches Some(p) ==> 0 <= p
            < s.visible@.len() && s.rows@[s.visible@[p] as int] is Setting,
        next_setting(s.rows@, s.visible@, s.step_start(delta), delta) is None ==> (delta == 1 && 0
            <= s.step_start(delta) ==> forall|k: int|
            s.step_start(delta) <= k < s.visible@.len() ==> !(s.rows@[#[trigger] s.visible@[k] as int] is Setting))
            && (delta == -1 && s.step_start(delta) < s.visible@.len() ==> forall|k: int|
            0 <= k <= s.step_start(delta) ==> !(s.rows@[#[trigger] s.visible@[k] as int] is Setting)),
{
    lemma_next_setting(s.rows@, s.visible@, s.step_start(delta), delta);
}

/// A step up or down always moves the focus when a setting lies that way:
/// the row it lands on is a setting other than the focused one, and no
/// setting on screen lies between them.
pub proof fn law_step_moves(s: PiSettingsState, delta: int)
    requires
        s.wf(),
        delta == 1 || delta == -1,
        next_setting(s.rows@, s.visible@, s.step_start(delta), delta) is Some,
    ensures
        s.stepped(delta) != s.selected,
        s.rows@[s.stepped(delta) as int] is Setting,
        spec_position(s.visible@, s.selected) matches Some(f) ==> {
            let p = next_setting(s.rows@, s.visible@, s.step_start(delta), delta)->0;
            &&& (delta == 1 ==> f < p && forall|k: int|
                f < k < p ==> !(s.rows@[#[trigger] s.visible@[k] as int] is Setting))
            &&& (delta == -1 ==> p < f && forall|k: int|
                p < k < f ==> !(s.rows@[#[trigger] s.visible@[k] as int] is Setting))
        },
{
    lemma_visible_wf(&s);
    lemma_next_setting(s.rows@, s.visible@, s.step_start(delta), delta);
    let p = next_setting(s.rows@, s.visible@, s.step_start(delta), delta)->0;
    match spec_position(s.visible@, s.selected) {
        Some(f) => {
            assert(s.visible@.contains(s.selected));
            assert(0 <= f < s.visible@.len() && s.visible@[f] == s.selected);
            assert(s.visible@[p] != s.visible@[f]);
        },
        None => {
            assert(!s.visible@.contains(s.selected));
            assert(s.visible@[p] != s.selected);
        },
    }
}

/// Jumping to an end lands on the last setting on screen (`delta > 0`) or
/// the first one (`delta <= 0`); with no setting on screen the focus stays.
pub proof fn law_jump_end_targets(s: PiSettingsState, delta: int)
    requires
        s.wf(),
    ensures
        (exists|k: int| 0 <= k < s.visible@.len() && s.rows@[#[trigger] s.visible@[k] as int] is Setting)
            ==> {
            let t = s.end_target(delta);
            &&& s.visible@.contains(t)
            &&& s.rows@[t as int] is Setting
            &&& forall|k: int|
                0 <= k < s.visible@.len() && s.rows@[#[trigger] s.visible@[k] as int] is Setting ==> if delta
                    > 0 {
                    s.visible@[k] <= t
                } else {
                    t <= s.visible@[k]
                }
        },
        !(exists|k: int| 0 <= k < s.visible@.len() && s.rows@[#[trigger] s.visible@[k] as int] is Setting)
            ==> s.end_target(delta) == s.selected,
{
    lemma_visible_wf(&s);
    let n = s.visible@.len() as int;
    lemma_next_setting(s.rows@, s.visible@, n - 1, -1);
    lemma_next_setting(s.rows@, s.visible@, 0, 1);
    if exists|k: int| 0 <= k < n && s.rows@[#[trigger] s.visible@[k] as int] is Setting {
        let k0 = choose|k: int| 0 <= k < n && s.rows@[#[trigger] s.visible@[k] as int] is Setting;
        if delta > 0 {
            let p = next_setting(s.rows@, s.visible@, n - 1, -1)->0;
            assert(s.visible@[p] == s.end_target(delta));
            assert forall|k: int|
                0 <= k < n && s.rows@[#[trigger] s.visible@[k] as int] is Setting implies s.visible@[k]
                <= s.end_target(delta) by {
                if k > p {
                    assert(p < k <= n - 1);
                }
            }
        } else {
            let p = next_setting(s.rows@, s.visible@, 0, 1)->0;
            assert(s.visible@[p] == s.end_target(delta));
            assert forall|k: int|
                0 <= k < n && s.rows@[#[trigger] s.visible@[k] as int] is Setting implies s.end_target(delta)
                <= s.visible@[k] by {
                if k < p {
                    assert(0 <= k < p);
                }
            }
        }
    } else {
        if n > 0 {
            if let Some(p) = next_setting(s.rows@, s.visible@, n - 1, -1) {
                assert(s.rows@[s.visible@[p] as int] is Setting);
            }
            if let Some(p) = next_setting(s.rows@, s.visible@, 0, 1) {
                assert(s.rows@[s.visible@[p] as int] is Setting);
            }
        }
    }
}

} // verus!
