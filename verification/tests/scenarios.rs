//! End-to-end frame scenarios.

use animated_text::animate_text_system;
use animated_text::InitialGyphPositionsCache;
use animated_text::TextAnimation;
use animated_text::Vec2;

const PX: i64 = 65536;
const SECOND: u64 = 65536;

#[test]
fn two_glyph_sine_wave_at_one_second() {
    // Two glyphs at baselines (0,0) and (10,0); amplitude 50, frequency 0.25
    // cycles per second, zero phase shift, stagger of one radian (10430 angle
    // units). After one second glyph 0 sits a quarter turn into the cycle, so
    // its offset is exactly the amplitude; glyph 1 is staggered one radian
    // further and lands near 27 pixels (1769550 units) above its baseline.
    let mut positions = vec![Vec2 { x: 0, y: 0 }, Vec2 { x: 10 * PX, y: 0 }];
    let mut cache = InitialGyphPositionsCache::new();
    let anim = TextAnimation::sine_wave(50 * PX, 16384, 0, 10430);
    animate_text_system(&mut positions, true, &mut cache, &anim, SECOND);
    assert_eq!(positions[0], Vec2 { x: 0, y: 50 * PX });
    assert_eq!(positions[1], Vec2 { x: 10 * PX, y: 1769550 });
}

#[test]
fn ten_glyph_bump_sweeps_each_window_once() {
    // Ten glyphs, displacement (0,-5), start 0, m 10, frequency 10 steps per
    // second: across one second the active bucket visits indices 0..9 once,
    // each for a 0.1-second window.
    let disp = Vec2 { x: 0, y: -5 * PX };
    let anim = TextAnimation::bump(disp, 0, 10, 10 * 65536);
    let baselines: Vec<Vec2> = (0..10).map(|i| Vec2 { x: i * PX, y: 0 }).collect();
    for window in 0..10usize {
        // A tick in the middle of the window's 0.1-second span.
        let tick = 3277 + 6554 * window as u64;
        let mut positions = baselines.clone();
        let mut cache = InitialGyphPositionsCache::new();
        animate_text_system(&mut positions, true, &mut cache, &anim, tick);
        for (i, p) in positions.iter().enumerate() {
            if i == window {
                assert_eq!(*p, Vec2 { x: baselines[i].x, y: -5 * PX });
            } else {
                assert_eq!(*p, baselines[i]);
            }
        }
    }
}

#[test]
fn bump_at_point_thirty_five_seconds_hits_glyph_three() {
    let disp = Vec2 { x: 0, y: -5 * PX };
    let anim = TextAnimation::bump(disp, 0, 10, 10 * 65536);
    let mut positions: Vec<Vec2> = (0..10).map(|i| Vec2 { x: i * PX, y: 0 }).collect();
    let mut cache = InitialGyphPositionsCache::new();
    // 0.35 seconds, rounded to the next whole tick.
    animate_text_system(&mut positions, true, &mut cache, &anim, 22938);
    for (i, p) in positions.iter().enumerate() {
        if i == 3 {
            assert_eq!(*p, Vec2 { x: 3 * PX, y: -5 * PX });
        } else {
            assert_eq!(*p, Vec2 { x: i as i64 * PX, y: 0 });
        }
    }
}

#[test]
fn shrinking_text_rebuilds_cache_with_no_leftovers() {
    // Glyph count shrinks from 5 to 3 between frames; on the frame the host
    // reports "changed", the cache is rebuilt to length 3.
    let anim = TextAnimation::sine_wave(50 * PX, 16384, 0, 0);
    let mut cache = InitialGyphPositionsCache::new();
    let mut positions: Vec<Vec2> = (0..5).map(|i| Vec2 { x: i * PX, y: 0 }).collect();
    animate_text_system(&mut positions, true, &mut cache, &anim, 0);
    assert_eq!(cache.len(), 5);
    // The host recomputes a three-glyph layout and raises the changed flag.
    let mut shrunk: Vec<Vec2> = (0..3).map(|i| Vec2 { x: i * PX, y: 2 * PX }).collect();
    animate_text_system(&mut shrunk, true, &mut cache, &anim, SECOND);
    assert_eq!(cache.len(), 3);
    for i in 0..3usize {
        assert_eq!(cache.baseline(i), Vec2 { x: i as i64 * PX, y: 2 * PX });
    }
}
