//! Per-glyph text animation over fixed-point coordinates.
//!
//! A text layout is an ordered sequence of glyphs, each with a 2D position.
//! An animator is a pure function from (glyph index, glyph count, baseline
//! position, elapsed time) to a displaced position. Every frame, an update
//! pass refreshes a per-entity cache of the pre-animation ("baseline")
//! positions whenever the host reports the layout changed, and then writes
//! the animator's output over every glyph position.
//!
//! Units: positions and amplitudes are Q16.16 fixed point (65536 units per
//! pixel), elapsed time is in ticks of 1/65536 second, frequencies are
//! Q16.16 cycles per second, and angles are in units of 1/65536 turn.

pub mod animator;
pub mod cache;
pub mod geometry;
pub mod pipeline;
pub mod presets;
pub mod trig;
pub mod update;

pub use animator::TextAnimation;
pub use animator::TextAnimationBundle;
pub use animator::TextAnimator;
pub use animator::ZeroAnimator;
pub use cache::InitialGyphPositionsCache;
pub use geometry::Vec2;
pub use pipeline::AnimatedTextPlugin;
pub use pipeline::PipelineStage;
pub use pipeline::SystemOrdering;
pub use pipeline::TextRenderMode;
pub use presets::BoxWave;
pub use presets::Bump;
pub use presets::SineWave;
pub use update::animate_text_system;
