//! Properties of the composition, stated and proved once for all viewports
//! and all well-formed content.

use crate::content::{AppModel, ExperienceModel, ExperiencesModel, FunStuffModel, FunStuffsModel};
use crate::geometry::{
    inner_spec, lemma_stacked_split, min_int, pct_of, split_heights, split_heights_rec,
    stacked_spec, Region,
};
use crate::scene::{
    app_scene, bullet_span_model, content_band, experience_para_model, experience_regions,
    experiences_scene, fun_stuff_regions, fun_stuff_scene, fun_stuffs_scene, region_of,
    section_regions, views, Element,
};
use vstd::arithmetic::div_mod::{lemma_fundamental_div_mod, lemma_mod_bound};
use vstd::prelude::*;

verus! {

/// Splitting a band of height `len` by 50/25/25: three heights that cover
/// the band exactly, each within one cell of its exact percentage share.
pub proof fn lemma_split_50_25_25(len: int)
    requires
        0 <= len <= u16::MAX,
    ensures
        ({
            let hs = split_heights(len, seq![50u16, 25u16, 25u16]);
            &&& hs.len() == 3
            &&& hs[0] + hs[1] + hs[2] == len
            &&& -50 <= 100 * hs[0] - 50 * len <= 49
            &&& -50 <= 100 * hs[1] - 25 * len <= 49
            &&& -100 <= 100 * hs[2] - 25 * len <= 100
            &&& forall|i: int| 0 <= i < 3 ==> 0 <= #[trigger] hs[i] <= len
        }),
{
    let ps = seq![50u16, 25u16, 25u16];
    let hs = split_heights(len, ps);
    let q1 = pct_of(len, 50);
    let q2 = pct_of(len, 25);
    lemma_fundamental_div_mod(len * 50 + 49, 100);
    lemma_mod_bound(len * 50 + 49, 100);
    lemma_fundamental_div_mod(len * 25 + 49, 100);
    lemma_mod_bound(len * 25 + 49, 100);
    assert(q1 <= len);
    assert(q2 <= len - q1);
    let h0 = min_int(q1, len);
    assert(h0 == q1);
    let tail1 = ps.drop_first();
    assert(tail1 =~= seq![25u16, 25u16]);
    let t1 = split_heights_rec(len, len - h0, tail1);
    assert(split_heights_rec(len, len, ps) == seq![h0] + t1);
    let h1 = min_int(q2, len - h0);
    assert(h1 == q2);
    let tail2 = tail1.drop_first();
    assert(tail2 =~= seq![25u16]);
    let t2 = split_heights_rec(len, len - h0 - h1, tail2);
    assert(t1 == seq![h1] + t2);
    assert(t2 =~= seq![len - h0 - h1]);
    assert(hs =~= seq![q1, q2, len - q1 - q2]);
}

/// Splitting a band of height `len` by 50/50: two heights that cover the
/// band exactly and differ by at most one cell.
pub proof fn lemma_split_50_50(len: int)
    requires
        0 <= len <= u16::MAX,
    ensures
        ({
            let hs = split_heights(len, seq![50u16, 50u16]);
            &&& hs.len() == 2
            &&& hs[0] + hs[1] == len
            &&& -1 <= hs[0] - hs[1] <= 1
            &&& forall|i: int| 0 <= i < 2 ==> 0 <= #[trigger] hs[i] <= len
        }),
{
    let ps = seq![50u16, 50u16];
    let hs = split_heights(len, ps);
    let q1 = pct_of(len, 50);
    lemma_fundamental_div_mod(len * 50 + 49, 100);
    lemma_mod_bound(len * 50 + 49, 100);
    assert(q1 <= len);
    let h0 = min_int(q1, len);
    assert(h0 == q1);
    let tail1 = ps.drop_first();
    assert(tail1 =~= seq![50u16]);
    let t1 = split_heights_rec(len, len - h0, tail1);
    assert(split_heights_rec(len, len, ps) == seq![h0] + t1);
    assert(t1 =~= seq![len - h0]);
    assert(hs =~= seq![q1, len - q1]);
}

/// The experience section always yields exactly three job bands, one per
/// paragraph of its scene. Their heights cover the panel's interior
/// exactly, and each lies within one cell of its 50%/25%/25% share of that
/// interior's height, whatever the viewport gave the section.
pub proof fn lemma_experience_proportions(m: ExperiencesModel, region: Region)
    requires
        region.wf(),
        m.wf(),
    ensures
        ({
            let rs = experience_regions(region);
            let len = inner_spec(region).height as int;
            &&& rs.len() == 3
            &&& (rs[0].height as int) + (rs[1].height as int) + (rs[2].height as int) == len
            &&& -50 <= 100 * (rs[0].height as int) - 50 * len <= 49
            &&& -50 <= 100 * (rs[1].height as int) - 25 * len <= 49
            &&& -100 <= 100 * (rs[2].height as int) - 25 * len <= 100
            &&& forall|i: int|
                0 <= i < 3 ==> region_of(#[trigger] experiences_scene(m, region)[i + 1]) == rs[i]
        }),
{
    let interior = inner_spec(region);
    let len = interior.height as int;
    let hs = split_heights(len, seq![50u16, 25u16, 25u16]);
    lemma_split_50_25_25(len);
    assert forall|i: int| 0 <= i < 3 implies (#[trigger] experience_regions(region)[i]).height
        == hs[i] as u16 by {
    }
    assert forall|i: int| 0 <= i < 3 implies region_of(
        #[trigger] experiences_scene(m, region)[i + 1],
    ) == experience_regions(region)[i] by {
        assert(experiences_scene(m, region)[i + 1] == experience_para_model(
            m.jobs[i],
            experience_regions(region)[i],
        ));
    }
}

/// The fun-stuff section always yields exactly two project bands of equal
/// height, within one cell of rounding, covering the panel's interior.
pub proof fn lemma_fun_stuff_halves(region: Region)
    requires
        region.wf(),
    ensures
        ({
            let rs = fun_stuff_regions(region);
            let len = inner_spec(region).height as int;
            &&& rs.len() == 2
            &&& (rs[0].height as int) + (rs[1].height as int) == len
            &&& -1 <= (rs[0].height as int) - (rs[1].height as int) <= 1
        }),
{
    let interior = inner_spec(region);
    let len = interior.height as int;
    let hs = split_heights(len, seq![50u16, 50u16]);
    lemma_split_50_50(len);
    assert forall|i: int| 0 <= i < 2 implies (#[trigger] fun_stuff_regions(region)[i]).height
        == hs[i] as u16 by {
    }
}

/// Every achievement line of a rendered job paragraph begins with the
/// bullet glyph "• " as a new, plainly-styled first segment; the remaining
/// segments of the line are exactly the achievement's own, with text and
/// emphasis unchanged and in order.
pub proof fn lemma_achievement_bullets(e: ExperienceModel, region: Region)
    ensures
        ({
            let lines = experience_para_model(e, region)->Paragraph_0.lines;
            &&& lines.len() == 1 + e.achievements.len()
            &&& forall|i: int|
                0 <= i < e.achievements.len() ==> (#[trigger] lines[i + 1]).spans == seq![
                    bullet_span_model(),
                ] + e.achievements[i].spans
        }),
{
    let lines = experience_para_model(e, region)->Paragraph_0.lines;
    assert forall|i: int| 0 <= i < e.achievements.len() implies (#[trigger] lines[i + 1]).spans
        == seq![bullet_span_model()] + e.achievements[i].spans by {
        assert(lines[i + 1] == e.achievements.map_values(
            |l: crate::content::LineModel| crate::scene::bulleted_model(l),
        )[i]);
    }
}

/// Rendering is idempotent: the composition is a function of the content
/// and the viewport alone, so any two renders of the same content into the
/// same viewport are the same composition, element for element. There is no
/// hidden mutable state.
pub proof fn lemma_render_idempotent(
    first: Seq<Element>,
    second: Seq<Element>,
    m: AppModel,
    vp: Region,
)
    requires
        views(first) == app_scene(m, vp),
        views(second) == app_scene(m, vp),
    ensures
        views(first) == views(second),
{
}

proof fn lemma_fun_stuff_scene_within(f: FunStuffModel, region: Region)
    requires
        region.wf(),
    ensures
        fun_stuff_scene(f, region).len() == 2,
        forall|k: int|
            0 <= k < 2 ==> region.contains(region_of(#[trigger] fun_stuff_scene(f, region)[k])),
{
    lemma_stacked_split(region, seq![50u16, 50u16]);
    let halves = stacked_spec(region, split_heights(region.height as int, seq![50u16, 50u16]));
    assert(region_of(fun_stuff_scene(f, region)[0]) == halves[0]);
    assert(region_of(fun_stuff_scene(f, region)[1]) == halves[1]);
}

proof fn lemma_fun_stuffs_scene_within(m: FunStuffsModel, region: Region)
    requires
        region.wf(),
    ensures
        fun_stuffs_scene(m, region).len() == 5,
        forall|k: int|
            0 <= k < 5 ==> region.contains(region_of(#[trigger] fun_stuffs_scene(m, region)[k])),
{
    let interior = inner_spec(region);
    assert(region.contains(interior) && interior.wf());
    lemma_stacked_split(interior, seq![50u16, 50u16]);
    let rs = fun_stuff_regions(region);
    lemma_fun_stuff_scene_within(m.stuffs[0], rs[0]);
    lemma_fun_stuff_scene_within(m.stuffs[1], rs[1]);
    let s = fun_stuffs_scene(m, region);
    assert(region_of(s[0]) == region);
    assert(s[1] == fun_stuff_scene(m.stuffs[0], rs[0])[0]);
    assert(s[2] == fun_stuff_scene(m.stuffs[0], rs[0])[1]);
    assert(s[3] == fun_stuff_scene(m.stuffs[1], rs[1])[0]);
    assert(s[4] == fun_stuff_scene(m.stuffs[1], rs[1])[1]);
}

proof fn lemma_experiences_scene_within(m: ExperiencesModel, region: Region)
    requires
        region.wf(),
        m.wf(),
    ensures
        experiences_scene(m, region).len() == 4,
        forall|k: int|
            0 <= k < 4 ==> region.contains(region_of(#[trigger] experiences_scene(m, region)[k])),
{
    let interior = inner_spec(region);
    assert(region.contains(interior) && interior.wf());
    lemma_stacked_split(interior, seq![50u16, 25u16, 25u16]);
    let rs = experience_regions(region);
    let s = experiences_scene(m, region);
    assert(region_of(s[0]) == region);
    assert forall|k: int| 1 <= k < 4 implies region.contains(region_of(#[trigger] s[k])) by {
        assert(s[k] == experience_para_model(m.jobs[k - 1], rs[k - 1]));
        assert(region_of(s[k]) == rs[k - 1]);
    }
}

/// Rendering never reaches outside the viewport: for any viewport and any
/// well-formed content, every element of the composition occupies a region
/// contained in the viewport's bounds.
pub proof fn lemma_app_scene_within(m: AppModel, vp: Region)
    requires
        vp.wf(),
        m.wf(),
    ensures
        app_scene(m, vp).len() == 11,
        forall|k: int|
            0 <= k < app_scene(m, vp).len() ==> vp.contains(
                region_of(#[trigger] app_scene(m, vp)[k]),
            ),
{
    let content = content_band(vp);
    assert(vp.contains(content) && content.wf());
    let interior = inner_spec(content);
    assert(content.contains(interior) && interior.wf());
    lemma_stacked_split(interior, seq![10u16, 20u16, 70u16]);
    let bands = section_regions(vp);
    lemma_fun_stuffs_scene_within(m.fun_stuffs, bands[1]);
    lemma_experiences_scene_within(m.experiences, bands[2]);
    let s = app_scene(m, vp);
    assert(s.len() == 11);
    assert(region_of(s[0]) == content);
    assert(region_of(s[1]) == bands[0]);
    assert forall|k: int| 2 <= k < 7 implies vp.contains(region_of(#[trigger] s[k])) by {
        assert(s[k] == fun_stuffs_scene(m.fun_stuffs, bands[1])[k - 2]);
    }
    assert forall|k: int| 7 <= k < 11 implies vp.contains(region_of(#[trigger] s[k])) by {
        assert(s[k] == experiences_scene(m.experiences, bands[2])[k - 7]);
    }
}

} // verus!
