//! The per-frame update pass and the baseline cache.

use animated_text::animate_text_system;
use animated_text::AnimatedTextPlugin;
use animated_text::InitialGyphPositionsCache;
use animated_text::TextAnimationBundle;
use animated_text::PipelineStage;
use animated_text::SystemOrdering;
use animated_text::TextAnimation;
use animated_text::TextAnimator;
use animated_text::TextRenderMode;
use animated_text::Vec2;
use animated_text::ZeroAnimator;

const PX: i64 = 65536;
const SECOND: u64 = 65536;

#[test]
fn changed_frame_rebuilds_cache_to_current_positions() {
    // Immediately after a layout-changed frame the cache holds, for every
    // index, the pre-animation position captured before the animator ran.
    let pre_animation = vec![
        Vec2 { x: 0, y: 0 },
        Vec2 { x: 10 * PX, y: 2 },
        Vec2 { x: 20 * PX, y: -7 },
    ];
    let mut positions = pre_animation.clone();
    let mut cache = InitialGyphPositionsCache::new();
    let anim = TextAnimation::sine_wave(50 * PX, 16384, 0, 0);
    animate_text_system(&mut positions, true, &mut cache, &anim, SECOND);
    assert_eq!(cache.len(), pre_animation.len());
    for (i, p) in pre_animation.iter().enumerate() {
        assert_eq!(cache.baseline(i), *p);
    }
    // The displayed positions were animated from those baselines.
    assert_eq!(positions[0], Vec2 { x: 0, y: 50 * PX });
}

#[test]
fn unchanged_frame_keeps_cache_and_animates_from_it() {
    let baseline = Vec2 { x: 4 * PX, y: PX };
    let mut positions = vec![baseline];
    let mut cache = InitialGyphPositionsCache::new();
    let anim = TextAnimation::sine_wave(50 * PX, 16384, 0, 0);
    // Frame 1: layout changed, quarter-turn phase displaces the glyph.
    animate_text_system(&mut positions, true, &mut cache, &anim, SECOND);
    assert_eq!(positions[0], Vec2 { x: 4 * PX, y: PX + 50 * PX });
    // Frame 2: unchanged layout at half-turn phase. The displaced displayed
    // position is not read back: the offset is measured from the cached
    // baseline, so the glyph returns exactly to it.
    animate_text_system(&mut positions, false, &mut cache, &anim, 2 * SECOND);
    assert_eq!(cache.baseline(0), baseline);
    assert_eq!(positions[0], baseline);
}

#[test]
fn length_mismatch_forces_resync() {
    // No change signal, but the cache length disagrees with the glyph count:
    // the pass rebuilds the cache instead of indexing out of bounds.
    let mut positions = vec![Vec2 { x: 1, y: 2 }, Vec2 { x: 3, y: 4 }];
    let mut cache = InitialGyphPositionsCache::new();
    let anim: TextAnimation<ZeroAnimator> = TextAnimation::default();
    animate_text_system(&mut positions, false, &mut cache, &anim, 0);
    assert_eq!(cache.len(), 2);
    assert_eq!(cache.baseline(0), Vec2 { x: 1, y: 2 });
    assert_eq!(cache.baseline(1), Vec2 { x: 3, y: 4 });
}

#[test]
fn update_applies_animator_to_every_glyph() {
    let mut positions: Vec<Vec2> = (0..6).map(|i| Vec2 { x: i * PX, y: 0 }).collect();
    let mut cache = InitialGyphPositionsCache::new();
    let disp = Vec2 { x: 0, y: -5 * PX };
    let anim = TextAnimation::bump(disp, 0, 6, 65536);
    animate_text_system(&mut positions, true, &mut cache, &anim, 2 * SECOND);
    for (i, p) in positions.iter().enumerate() {
        if i == 2 {
            assert_eq!(*p, Vec2 { x: 2 * PX, y: -5 * PX });
        } else {
            assert_eq!(*p, Vec2 { x: i as i64 * PX, y: 0 });
        }
    }
}

#[test]
fn empty_layout_update_is_noop() {
    let mut positions: Vec<Vec2> = Vec::new();
    let mut cache = InitialGyphPositionsCache::new();
    let anim = TextAnimation::box_wave(PX, 65536, 0, 0);
    animate_text_system(&mut positions, true, &mut cache, &anim, 12345);
    assert!(positions.is_empty());
    assert_eq!(cache.len(), 0);
}

#[test]
fn default_animation_pins_glyphs_to_origin() {
    let mut positions = vec![Vec2 { x: 9 * PX, y: 9 * PX }];
    let mut cache = InitialGyphPositionsCache::new();
    let anim: TextAnimation<ZeroAnimator> = TextAnimation::default();
    animate_text_system(&mut positions, true, &mut cache, &anim, 777);
    assert_eq!(positions[0], Vec2 { x: 0, y: 0 });
    // The baseline survives in the cache, not in the displayed position.
    assert_eq!(cache.baseline(0), Vec2 { x: 9 * PX, y: 9 * PX });
}

#[test]
fn bundle_starts_with_an_empty_cache() {
    let anim = TextAnimation::sine_wave(PX, 65536, 0, 0);
    let mut bundle = TextAnimationBundle::new(anim);
    assert_eq!(bundle.initial_positions_cache.len(), 0);
    // A first frame on a stale (empty) cache resyncs it even without the
    // change flag.
    let mut positions = vec![Vec2 { x: 5, y: 6 }];
    animate_text_system(
        &mut positions,
        false,
        &mut bundle.initial_positions_cache,
        &bundle.text_animation,
        0,
    );
    assert_eq!(bundle.initial_positions_cache.baseline(0), Vec2 { x: 5, y: 6 });
}

#[test]
fn default_bundle_holds_the_zero_strategy() {
    let bundle: TextAnimationBundle<ZeroAnimator> = TextAnimationBundle::default();
    assert_eq!(bundle.initial_positions_cache.len(), 0);
    let out = bundle.text_animation.animator.animate_glyph(0, 1, Vec2 { x: 3, y: 4 }, 5);
    assert_eq!(out, Vec2 { x: 0, y: 0 });
}

#[test]
fn plugin_declares_world_space_orderings() {
    let orderings = AnimatedTextPlugin.build(TextRenderMode::WorldSpace);
    assert_eq!(
        orderings,
        vec![
            SystemOrdering::RunsAfter(PipelineStage::LayoutFinalized),
            SystemOrdering::RunsBefore(PipelineStage::BoundsComputation),
        ]
    );
}

#[test]
fn plugin_declares_screen_space_orderings() {
    let orderings = AnimatedTextPlugin.build(TextRenderMode::ScreenSpace);
    assert_eq!(
        orderings,
        vec![
            SystemOrdering::RunsAfter(PipelineStage::LayoutFinalized),
            SystemOrdering::RunsAfter(PipelineStage::TextModeFinalize),
            SystemOrdering::RunsBefore(PipelineStage::BoundsComputation),
        ]
    );
}
