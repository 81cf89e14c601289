//! Per-entity storage of pre-animation glyph positions.

use crate::geometry::in_bounds;
use crate::geometry::Vec2;
use vstd::prelude::*;

verus! {

/// The baseline cache: one pre-animation position per glyph, index-aligned
/// with the entity's current layout.
///
/// It starts empty (stale) and is cleared and fully rebuilt — never
/// incrementally patched — each time the host signals that the layout
/// changed. Between such frames it is left untouched: displayed positions,
/// which hold animated output, are never read back into it.
pub struct InitialGyphPositionsCache {
    positions: Vec<Vec2>,
}

impl View for InitialGyphPositionsCache {
    type V = Seq<Vec2>;

    closed spec fn view(&self) -> Seq<Vec2> {
        self.positions@
    }
}

impl InitialGyphPositionsCache {
    /// Every cached position is within the coordinate bound, so an animator
    /// may take any entry as its baseline.
    pub open spec fn wf(&self) -> bool {
        forall|i: int| 0 <= i < self@.len() ==> in_bounds(#[trigger] self@[i])
    }

    /// An empty (stale) cache.
    pub fn new() -> (r: Self)
        ensures
            r@.len() == 0,
            r.wf(),
    {
        InitialGyphPositionsCache { positions: Vec::new() }
    }

    /// How many glyph baselines are cached.
    pub fn len(&self) -> (r: usize)
        ensures
            r == self@.len(),
    {
        self.positions.len()
    }

    /// The cached pre-animation position of glyph `index`.
    pub fn baseline(&self, index: usize) -> (r: Vec2)
        requires
            index < self@.len(),
        ensures
            r == self@[index as int],
    {
        self.positions[index]
    }

    /// Clears the cache and copies every current glyph position into it, in
    /// glyph index order: the stale-to-fresh transition.
    pub fn rebuild_from(&mut self, glyph_positions: &Vec<Vec2>)
        ensures
            final(self)@ == glyph_positions@,
    {
        self.positions.clear();
        let n = glyph_positions.len();
        let mut i: usize = 0;
        while i < n
            invariant
                i <= n,
                n == glyph_positions@.len(),
                self.positions@ == glyph_positions@.subrange(0, i as int),
            decreases n - i,
        {
            self.positions.push(glyph_positions[i]);
            proof {
                assert(self.positions@ =~= glyph_positions@.subrange(0, i + 1));
            }
            i += 1;
        }
        proof {
            assert(self@ =~= glyph_positions@);
        }
    }
}

impl Default for InitialGyphPositionsCache {
    /// Entities start with an empty (stale) cache.
    fn default() -> (r: Self)
        ensures
            r@.len() == 0,
            r.wf(),
    {
        InitialGyphPositionsCache { positions: Vec::new() }
    }
}

} // verus!
