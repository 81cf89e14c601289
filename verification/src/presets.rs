//! The preset animators: sine wave, box wave (squared sine), and bump.

use crate::animator::TextAnimation;
use crate::animator::TextAnimator;
use crate::geometry::in_bounds;
use crate::geometry::spec_vec2_add;
use crate::geometry::Vec2;
use crate::geometry::POS_LIMIT;
use crate::trig::lemma_sin_sign;
use crate::trig::phase_angle;
use crate::trig::sin_q16;
use crate::trig::spec_phase_angle;
use crate::trig::spec_sin;
use vstd::arithmetic::div_mod::lemma_div_is_ordered;
use vstd::arithmetic::mul::lemma_mul_basics;
use vstd::arithmetic::mul::lemma_mul_upper_bound;
use vstd::prelude::*;

verus! {

/// The sign of a sine value: 1, -1, or 0.
pub open spec fn spec_sign(v: int) -> int {
    if v > 0 {
        1
    } else if v < 0 {
        -1
    } else {
        0
    }
}

/// `amplitude` times a Q16.16 sine value, scaled back to position units,
/// rounded toward zero.
pub open spec fn scale_q16(amplitude: int, s: int) -> int {
    let p = amplitude * s;
    if p >= 0 {
        p / 65536
    } else {
        -((-p) / 65536)
    }
}

/// A product's magnitude is the product of the factors' magnitudes, and its
/// sign follows the factors' signs.
proof fn lemma_mul_magnitude(a: int, b: int, ma: int, mb: int)
    by (nonlinear_arith)
    requires
        ma == if a >= 0 { a } else { -a },
        mb == if b >= 0 { b } else { -b },
    ensures
        ma * mb == if a * b >= 0 { a * b } else { -(a * b) },
        a >= 0 && b >= 0 ==> a * b >= 0,
        a <= 0 && b <= 0 ==> a * b >= 0,
        a >= 0 && b <= 0 ==> a * b <= 0,
        a <= 0 && b >= 0 ==> a * b <= 0,
{
}

/// Vertical sine wave: `y_offset = amplitude * sin(angle)` where the angle is
/// `frequency * elapsed` cycles plus `phase_shift` plus `index * stagger`
/// (all in units of 1/65536 turn); `x` is unchanged. `stagger`
/// desynchronizes neighboring glyphs.
#[derive(Clone, Copy, Debug, PartialEq, Eq, Structural)]
pub struct SineWave {
    pub amplitude: i64,
    pub frequency: u64,
    pub phase_shift: u64,
    pub stagger: u64,
}

impl TextAnimator for SineWave {
    open spec fn wf(&self) -> bool {
        &&& -POS_LIMIT <= self.amplitude <= POS_LIMIT
        &&& self.phase_shift < 65536
        &&& self.stagger < 65536
    }

    open spec fn spec_animate(&self, index: int, total: int, baseline: Vec2, elapsed: int) -> Vec2 {
        let angle = spec_phase_angle(
            self.frequency as int,
            elapsed,
            self.phase_shift as int,
            self.stagger as int,
            index,
        );
        Vec2 {
            x: baseline.x,
            y: (baseline.y + scale_q16(self.amplitude as int, spec_sin(angle))) as i64,
        }
    }

    fn animate_glyph(
        &self,
        glyph_index: usize,
        len: usize,
        initial_position: Vec2,
        elapsed_ticks: u64,
    ) -> (r: Vec2) {
        let angle: u64 = phase_angle(
            self.frequency,
            elapsed_ticks,
            self.phase_shift,
            self.stagger,
            glyph_index,
        );
        let s: i64 = sin_q16(angle);
        let a: i64 = self.amplitude;
        let am: u64 = if a >= 0 {
            a as u64
        } else {
            (-a) as u64
        };
        let sm: u64 = if s >= 0 {
            s as u64
        } else {
            (-s) as u64
        };
        proof {
            lemma_mul_magnitude(a as int, s as int, am as int, sm as int);
            lemma_mul_upper_bound(am as int, POS_LIMIT as int, sm as int, 65536);
        }
        let prod: u64 = am * sm;
        let mag: u64 = prod / 65536;
        proof {
            lemma_div_is_ordered(prod as int, 0x100_0000_0000_0000, 65536);
            assert(0x100_0000_0000_0000int / 65536 == 0x100_0000_0000);
        }
        let off: i64 = if (a >= 0) == (s >= 0) {
            mag as i64
        } else {
            -(mag as i64)
        };
        proof {
            assert(off as int == scale_q16(a as int, s as int));
        }
        Vec2 { x: initial_position.x, y: initial_position.y + off }
    }
}

/// Square wave: the same phase argument as the sine wave, but only the
/// *sign* of the sine is kept, so the vertical offset is exactly
/// `+amplitude`, `-amplitude`, or zero — never an intermediate value.
#[derive(Clone, Copy, Debug, PartialEq, Eq, Structural)]
pub struct BoxWave {
    pub amplitude: i64,
    pub frequency: u64,
    pub phase_shift: u64,
    pub stagger: u64,
}

impl TextAnimator for BoxWave {
    open spec fn wf(&self) -> bool {
        &&& -POS_LIMIT <= self.amplitude <= POS_LIMIT
        &&& self.phase_shift < 65536
        &&& self.stagger < 65536
    }

    open spec fn spec_animate(&self, index: int, total: int, baseline: Vec2, elapsed: int) -> Vec2 {
        let angle = spec_phase_angle(
            self.frequency as int,
            elapsed,
            self.phase_shift as int,
            self.stagger as int,
            index,
        );
        Vec2 {
            x: baseline.x,
            y: (baseline.y + self.amplitude * spec_sign(spec_sin(angle))) as i64,
        }
    }

    fn animate_glyph(
        &self,
        glyph_index: usize,
        len: usize,
        initial_position: Vec2,
        elapsed_ticks: u64,
    ) -> (r: Vec2) {
        let angle: u64 = phase_angle(
            self.frequency,
            elapsed_ticks,
            self.phase_shift,
            self.stagger,
            glyph_index,
        );
        let s: i64 = sin_q16(angle);
        let off: i64 = if s > 0 {
            self.amplitude
        } else if s < 0 {
            -self.amplitude
        } else {
            0
        };
        proof {
            lemma_mul_basics(self.amplitude as int);
            assert(self.amplitude as int * -1 == -(self.amplitude as int)) by (nonlinear_arith);
        }
        Vec2 { x: initial_position.x, y: initial_position.y + off }
    }
}

/// Scanning highlight: the active bucket is `floor(frequency * elapsed)`
/// whole steps past `start`, taken modulo the live glyph count; a glyph is
/// displaced by the fixed `displacement` vector exactly when its index is
/// congruent to the active bucket modulo `m`. An empty layout is a no-op.
#[derive(Clone, Copy, Debug, PartialEq, Eq, Structural)]
pub struct Bump {
    pub displacement: Vec2,
    pub start: usize,
    pub m: usize,
    pub frequency: u64,
}

/// The active bucket: `frequency * elapsed` (both Q16.16, so the product
/// carries 32 fractional bits) floored to whole steps, advanced by `start`,
/// reduced modulo the glyph count.
pub open spec fn spec_bucket(frequency: int, elapsed: int, start: int, total: int) -> int
    recommends
        total > 0,
{
    ((frequency * elapsed) / 0x1_0000_0000 + start) % total
}

impl TextAnimator for Bump {
    open spec fn wf(&self) -> bool {
        &&& self.m >= 1
        &&& in_bounds(self.displacement)
    }

    open spec fn spec_animate(&self, index: int, total: int, baseline: Vec2, elapsed: int) -> Vec2 {
        if total <= 0 {
            baseline
        } else {
            let b = spec_bucket(self.frequency as int, elapsed, self.start as int, total);
            if index % (self.m as int) == b % (self.m as int) {
                spec_vec2_add(baseline, self.displacement)
            } else {
                baseline
            }
        }
    }

    fn animate_glyph(
        &self,
        glyph_index: usize,
        len: usize,
        initial_position: Vec2,
        elapsed_ticks: u64,
    ) -> (r: Vec2) {
        if len == 0 {
            return initial_position;
        }
        proof {
            lemma_mul_upper_bound(
                self.frequency as int,
                0xffff_ffff_ffff_ffff,
                elapsed_ticks as int,
                0xffff_ffff_ffff_ffff,
            );
        }
        let steps: u128 = ((self.frequency as u128) * (elapsed_ticks as u128)) / 0x1_0000_0000;
        let bucket: usize = ((steps + self.start as u128) % (len as u128)) as usize;
        if glyph_index % self.m == bucket % self.m {
            initial_position.translated(self.displacement)
        } else {
            initial_position
        }
    }
}

impl TextAnimation<SineWave> {
    /// A vertical sine wave. `amplitude` is Q16.16 position units,
    /// `frequency` is Q16.16 cycles per second, and `phase_shift` and
    /// `stagger` are angle units (1/65536 turn); the latter two are reduced
    /// into one turn.
    pub fn sine_wave(amplitude: i64, frequency: u64, phase_shift: u64, stagger: u64) -> (r: Self)
        requires
            -POS_LIMIT <= amplitude <= POS_LIMIT,
        ensures
            r.animator == (SineWave {
                amplitude,
                frequency,
                phase_shift: (phase_shift % 65536) as u64,
                stagger: (stagger % 65536) as u64,
            }),
            r.wf(),
    {
        TextAnimation {
            animator: SineWave {
                amplitude,
                frequency,
                phase_shift: phase_shift % 65536,
                stagger: stagger % 65536,
            },
        }
    }
}

impl TextAnimation<BoxWave> {
    /// A square wave with the sine wave's phase argument: the offset is
    /// exactly `+amplitude`, `-amplitude`, or zero. Units as in
    /// [`TextAnimation::sine_wave`].
    pub fn box_wave(amplitude: i64, frequency: u64, phase_shift: u64, stagger: u64) -> (r: Self)
        requires
            -POS_LIMIT <= amplitude <= POS_LIMIT,
        ensures
            r.animator == (BoxWave {
                amplitude,
                frequency,
                phase_shift: (phase_shift % 65536) as u64,
                stagger: (stagger % 65536) as u64,
            }),
            r.wf(),
    {
        TextAnimation {
            animator: BoxWave {
                amplitude,
                frequency,
                phase_shift: phase_shift % 65536,
                stagger: stagger % 65536,
            },
        }
    }
}

impl TextAnimation<Bump> {
    /// A cyclic scanning highlight: every `m`-th glyph, starting from the
    /// bucket `start`, is displaced by `displacement`; the active bucket
    /// advances `frequency` times per second (Q16.16).
    pub fn bump(displacement: Vec2, start: usize, m: usize, frequency: u64) -> (r: Self)
        requires
            m >= 1,
            in_bounds(displacement),
        ensures
            r.animator == (Bump { displacement, start, m, frequency }),
            r.wf(),
    {
        TextAnimation { animator: Bump { displacement, start, m, frequency } }
    }
}

/// A sine wave with zero phase shift and zero stagger leaves every glyph
/// exactly at its baseline at elapsed time zero.
pub proof fn lemma_sine_wave_fixes_baseline_at_time_zero(
    a: SineWave,
    index: int,
    total: int,
    baseline: Vec2,
)
    requires
        a.phase_shift == 0,
        a.stagger == 0,
    ensures
        a.spec_animate(index, total, baseline, 0) == baseline,
{
    lemma_mul_basics(a.frequency as int);
    lemma_mul_basics(index);
    lemma_mul_basics(a.amplitude as int);
    assert(spec_phase_angle(a.frequency as int, 0, 0, 0, index) == 0);
    assert(spec_sin(0) == 0);
    assert(scale_q16(a.amplitude as int, 0) == 0);
    assert(a.spec_animate(index, total, baseline, 0) == baseline);
}

/// At any instant the box wave's vertical offset is exactly `+amplitude`,
/// `-amplitude`, or zero — never a fractional magnitude — and the horizontal
/// coordinate is untouched. The full offset is taken strictly inside each
/// half turn of the phase (positive in the first, negative in the second);
/// the zero offset occurs exactly at the two crossings.
pub proof fn lemma_box_wave_offset_is_full_or_zero(
    a: BoxWave,
    index: int,
    total: int,
    baseline: Vec2,
    elapsed: int,
)
    requires
        a.wf(),
        in_bounds(baseline),
    ensures
        ({
            let angle = spec_phase_angle(
                a.frequency as int,
                elapsed,
                a.phase_shift as int,
                a.stagger as int,
                index,
            );
            let r = a.spec_animate(index, total, baseline, elapsed);
            &&& r.x == baseline.x
            &&& (r.y == baseline.y + a.amplitude || r.y == baseline.y - a.amplitude || r.y
                == baseline.y)
            &&& (0 < angle < 32768 ==> r.y == baseline.y + a.amplitude)
            &&& (32768 < angle < 65536 ==> r.y == baseline.y - a.amplitude)
            &&& (angle == 0 || angle == 32768 ==> r.y == baseline.y)
        }),
{
    let angle = spec_phase_angle(
        a.frequency as int,
        elapsed,
        a.phase_shift as int,
        a.stagger as int,
        index,
    );
    lemma_sin_sign(angle);
    lemma_mul_basics(a.amplitude as int);
    assert(a.amplitude as int * -1 == -(a.amplitude as int)) by (nonlinear_arith);
}

/// With a positive glyph count, the bump displaces exactly the glyphs whose
/// index is congruent to the active bucket modulo `m`; every other glyph is
/// left at its baseline.
pub proof fn lemma_bump_displaces_active_residue_only(
    a: Bump,
    index: int,
    total: int,
    baseline: Vec2,
    elapsed: int,
)
    requires
        a.wf(),
        in_bounds(baseline),
        total > 0,
    ensures
        ({
            let b = spec_bucket(a.frequency as int, elapsed, a.start as int, total);
            let r = a.spec_animate(index, total, baseline, elapsed);
            if index % (a.m as int) == b % (a.m as int) {
                r.x == baseline.x + a.displacement.x && r.y == baseline.y + a.displacement.y
            } else {
                r == baseline
            }
        }),
{
}

/// On an empty layout the bump is a no-op, whatever its parameters.
pub proof fn lemma_bump_empty_layout_is_noop(a: Bump, index: int, baseline: Vec2, elapsed: int)
    ensures
        a.spec_animate(index, 0, baseline, elapsed) == baseline,
{
}

} // verus!
