//! The animator capability and the per-entity animation component.

use crate::cache::InitialGyphPositionsCache;
use crate::geometry::in_bounds;
use crate::geometry::Vec2;
use vstd::prelude::*;

verus! {

/// An animation strategy: a pure mapping from (glyph index, glyph count,
/// baseline position, elapsed ticks) to a displaced position.
///
/// `spec_animate` is the strategy's mathematical meaning, and `animate_glyph`
/// must return exactly that value. Evaluation is therefore deterministic —
/// two calls with identical arguments yield identical outputs — and carries
/// no hidden mutable state, so one strategy value may serve any number of
/// glyphs or entities.
pub trait TextAnimator: Sized {
    /// The strategy's parameters lie within the ranges its arithmetic needs.
    spec fn wf(&self) -> bool;

    /// The position `animate_glyph` returns for these arguments.
    spec fn spec_animate(&self, index: int, total: int, baseline: Vec2, elapsed: int) -> Vec2;

    /// Displaces one glyph from its baseline.
    fn animate_glyph(
        &self,
        glyph_index: usize,
        len: usize,
        initial_position: Vec2,
        elapsed_ticks: u64,
    ) -> (r: Vec2)
        requires
            self.wf(),
            in_bounds(initial_position),
        ensures
            r == self.spec_animate(
                glyph_index as int,
                len as int,
                initial_position,
                elapsed_ticks as int,
            ),
    ;
}

/// The default strategy: every glyph is pinned to the origin, whatever its
/// baseline or the time.
#[derive(Clone, Copy, Debug, PartialEq, Eq, Structural)]
pub struct ZeroAnimator;

impl TextAnimator for ZeroAnimator {
    open spec fn wf(&self) -> bool {
        true
    }

    open spec fn spec_animate(&self, index: int, total: int, baseline: Vec2, elapsed: int) -> Vec2 {
        Vec2 { x: 0, y: 0 }
    }

    fn animate_glyph(
        &self,
        glyph_index: usize,
        len: usize,
        initial_position: Vec2,
        elapsed_ticks: u64,
    ) -> (r: Vec2) {
        Vec2 { x: 0, y: 0 }
    }
}

/// The per-entity animation component: wraps the one strategy the entity
/// owns. Replacing it at any time is allowed and does not touch the
/// entity's baseline cache.
pub struct TextAnimation<A: TextAnimator> {
    pub animator: A,
}

impl<A: TextAnimator> TextAnimation<A> {
    /// The wrapped strategy's parameters are within range.
    pub open spec fn wf(&self) -> bool {
        self.animator.wf()
    }

    /// Wraps an arbitrary user-supplied strategy.
    pub fn new(animator: A) -> (r: Self)
        ensures
            r == (TextAnimation { animator }),
    {
        TextAnimation { animator }
    }
}

impl Default for TextAnimation<ZeroAnimator> {
    /// Entities start with the zero strategy.
    fn default() -> (r: Self)
        ensures
            r == (TextAnimation { animator: ZeroAnimator }),
    {
        TextAnimation { animator: ZeroAnimator }
    }
}

/// Everything one text entity needs for animation: the strategy component
/// and an (initially stale) baseline cache.
pub struct TextAnimationBundle<A: TextAnimator> {
    pub text_animation: TextAnimation<A>,
    pub initial_positions_cache: InitialGyphPositionsCache,
}

impl<A: TextAnimator> TextAnimationBundle<A> {
    /// Pairs a fresh, empty baseline cache with the given animation.
    pub fn new(text_animation: TextAnimation<A>) -> (r: Self)
        ensures
            r.text_animation == text_animation,
            r.initial_positions_cache@.len() == 0,
            r.initial_positions_cache.wf(),
    {
        TextAnimationBundle { text_animation, initial_positions_cache: InitialGyphPositionsCache::new() }
    }
}

impl Default for TextAnimationBundle<ZeroAnimator> {
    /// The zero strategy over an empty baseline cache.
    fn default() -> (r: Self)
        ensures
            r.text_animation == (TextAnimation { animator: ZeroAnimator }),
            r.initial_positions_cache@.len() == 0,
            r.initial_positions_cache.wf(),
    {
        TextAnimationBundle {
            text_animation: TextAnimation { animator: ZeroAnimator },
            initial_positions_cache: InitialGyphPositionsCache::new(),
        }
    }
}

} // verus!
