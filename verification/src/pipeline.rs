//! Ordering of the update pass within the host's frame pipeline.

use vstd::prelude::*;

verus! {

/// The host pipeline stages the update pass must be ordered against.
#[derive(Clone, Copy, Debug, PartialEq, Eq, Structural)]
pub enum PipelineStage {
    /// The host's layout/shaping pass has produced final glyph geometry.
    LayoutFinalized,
    /// The mode-specific text finalization pass of screen-space (UI) text.
    TextModeFinalize,
    /// The downstream pass that derives visual bounds and culling from glyph
    /// positions.
    BoundsComputation,
}

/// How the host renders text: in the world, or in screen space (UI). The
/// choice is made once, when the application is assembled.
#[derive(Clone, Copy, Debug, PartialEq, Eq, Structural)]
pub enum TextRenderMode {
    WorldSpace,
    ScreenSpace,
}

/// One ordering constraint on the update pass, to be resolved by the host
/// scheduler at startup.
#[derive(Clone, Copy, Debug, PartialEq, Eq, Structural)]
pub enum SystemOrdering {
    RunsAfter(PipelineStage),
    RunsBefore(PipelineStage),
}

/// Registers the per-frame update pass with the host frame scheduler.
pub struct AnimatedTextPlugin;

/// The constraints `AnimatedTextPlugin::build` declares: strictly after the
/// host's layout computation, after the screen-space text finalization when
/// that mode applies, and strictly before bounds computation.
pub open spec fn spec_build_orderings(mode: TextRenderMode) -> Seq<SystemOrdering> {
    if mode == TextRenderMode::WorldSpace {
        seq![
            SystemOrdering::RunsAfter(PipelineStage::LayoutFinalized),
            SystemOrdering::RunsBefore(PipelineStage::BoundsComputation),
        ]
    } else {
        seq![
            SystemOrdering::RunsAfter(PipelineStage::LayoutFinalized),
            SystemOrdering::RunsAfter(PipelineStage::TextModeFinalize),
            SystemOrdering::RunsBefore(PipelineStage::BoundsComputation),
        ]
    }
}

impl AnimatedTextPlugin {
    /// Declares where the update pass runs: the host applies each returned
    /// constraint when it schedules the pass.
    pub fn build(&self, mode: TextRenderMode) -> (r: Vec<SystemOrdering>)
        ensures
            r@ == spec_build_orderings(mode),
    {
        let mut orderings: Vec<SystemOrdering> = Vec::new();
        orderings.push(SystemOrdering::RunsAfter(PipelineStage::LayoutFinalized));
        if matches!(mode, TextRenderMode::ScreenSpace) {
            orderings.push(SystemOrdering::RunsAfter(PipelineStage::TextModeFinalize));
        }
        orderings.push(SystemOrdering::RunsBefore(PipelineStage::BoundsComputation));
        proof {
            assert(orderings@ =~= spec_build_orderings(mode));
        }
        orderings
    }
}

} // verus!
