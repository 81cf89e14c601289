//! The per-frame update pass.

use crate::animator::TextAnimation;
use crate::animator::TextAnimator;
use crate::cache::InitialGyphPositionsCache;
use crate::geometry::in_bounds;
use crate::geometry::Vec2;
use vstd::prelude::*;

verus! {

/// Every position in `s` is within the coordinate bound.
pub open spec fn all_in_bounds(s: Seq<Vec2>) -> bool {
    forall|i: int| 0 <= i < s.len() ==> in_bounds(#[trigger] s[i])
}

/// The baseline cache must be rebuilt this frame: either the host reported
/// the layout changed, or the cache's length disagrees with the live glyph
/// count (a missed change signal, recovered by a forced resync).
pub open spec fn needs_refresh(layout_changed: bool, cache_len: int, glyph_count: int) -> bool {
    layout_changed || cache_len != glyph_count
}

/// Runs one entity's animation frame.
///
/// First the baseline cache is refreshed if the host reported a layout
/// change (or its length no longer matches the glyph count): it is cleared
/// and every *current* glyph position is copied in, strictly before any
/// animation is applied this frame. Otherwise the cache is left untouched —
/// the displayed positions hold the previous frame's animated output and are
/// never read back as baselines.
///
/// Then every glyph position is overwritten with the animator's output for
/// (index, glyph count, cached baseline, elapsed ticks), where
/// `elapsed_ticks` is the frame's single global clock value.
pub fn animate_text_system<A: TextAnimator>(
    glyph_positions: &mut Vec<Vec2>,
    layout_changed: bool,
    cache: &mut InitialGyphPositionsCache,
    animation: &TextAnimation<A>,
    elapsed_ticks: u64,
)
    requires
        animation.wf(),
        old(cache).wf(),
        needs_refresh(
            layout_changed,
            old(cache)@.len() as int,
            old(glyph_positions)@.len() as int,
        ) ==> all_in_bounds(old(glyph_positions)@),
    ensures
        needs_refresh(layout_changed, old(cache)@.len() as int, old(glyph_positions)@.len() as int)
            ==> final(cache)@ == old(glyph_positions)@,
        !needs_refresh(layout_changed, old(cache)@.len() as int, old(glyph_positions)@.len() as int)
            ==> final(cache)@ == old(cache)@,
        final(cache).wf(),
        final(glyph_positions)@.len() == old(glyph_positions)@.len(),
        forall|i: int|
            0 <= i < old(glyph_positions)@.len() ==> final(glyph_positions)@[i]
                == animation.animator.spec_animate(
                i,
                old(glyph_positions)@.len() as int,
                final(cache)@[i],
                elapsed_ticks as int,
            ),
{
    if layout_changed || cache.len() != glyph_positions.len() {
        cache.rebuild_from(glyph_positions);
    }
    let total: usize = glyph_positions.len();
    let mut i: usize = 0;
    while i < total
        invariant
            i <= total,
            total == old(glyph_positions)@.len(),
            glyph_positions@.len() == total,
            cache@.len() == total,
            cache.wf(),
            needs_refresh(
                layout_changed,
                old(cache)@.len() as int,
                old(glyph_positions)@.len() as int,
            ) ==> cache@ == old(glyph_positions)@,
            !needs_refresh(
                layout_changed,
                old(cache)@.len() as int,
                old(glyph_positions)@.len() as int,
            ) ==> cache@ == old(cache)@,
            animation.wf(),
            forall|j: int|
                0 <= j < i ==> glyph_positions@[j] == animation.animator.spec_animate(
                    j,
                    total as int,
                    cache@[j],
                    elapsed_ticks as int,
                ),
        decreases total - i,
    {
        let baseline: Vec2 = cache.baseline(i);
        let displaced: Vec2 = animation.animator.animate_glyph(i, total, baseline, elapsed_ticks);
        glyph_positions.set(i, displaced);
        i += 1;
    }
}

} // verus!
