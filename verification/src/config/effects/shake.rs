//! The shake: a small offset that wanders with two waves of unlike pace.

use vstd::prelude::*;
use crate::fixed::ONE;
use crate::fixed::abs_int;
use crate::fixed::fx_mul;
use crate::fixed::floor_mod;
use crate::fixed::mul_fixed;
use crate::fixed::lemma_mul_bound;
use super::turn_fraction;
use super::turn_fraction_of;

verus! {

/// How fast the vertical wave runs beside the horizontal one: the two paces
/// differ so that the offset follows neither a line nor a circle.
pub const VERTICAL_PACE: i32 = 850_000;

/// The shake's settings.
#[derive(Debug, Clone, Copy)]
pub struct ShakeEffect {
    pub enabled: bool,
    /// The reach of the offset in pixels, in fixed point.
    pub intensity: i32,
    /// Cycles per second of the horizontal wave, in fixed point.
    pub speed: i32,
}

impl Default for ShakeEffect {
    fn default() -> (effect: Self)
        ensures
            effect == ShakeEffect::initial(),
    {
        ShakeEffect { enabled: false, intensity: 2_000_000, speed: 10_000_000 }
    }
}

impl ShakeEffect {
    /// The settings a shake starts from: off, two pixels, ten cycles per second.
    pub open spec fn initial() -> ShakeEffect {
        ShakeEffect { enabled: false, intensity: 2_000_000, speed: 10_000_000 }
    }

    /// Where the horizontal wave stands after `time`.
    pub open spec fn phase_x_at(&self, time: int) -> int {
        turn_fraction(time, self.speed as int)
    }

    /// Where the vertical wave stands after `time`: it runs at
    /// [`VERTICAL_PACE`] of the horizontal wave's speed.
    pub open spec fn phase_y_at(&self, time: int) -> int {
        fx_mul(fx_mul(time, self.speed as int), VERTICAL_PACE as int) % (ONE as int)
    }

    /// The offset in millionths of a pixel where the horizontal wave's sine
    /// is `wave_x` and the vertical wave's cosine is `wave_y`: each times the
    /// intensity. A shake that is off moves nothing.
    pub open spec fn offset(&self, wave_x: int, wave_y: int) -> (int, int) {
        if self.enabled {
            (fx_mul(wave_x, self.intensity as int), fx_mul(wave_y, self.intensity as int))
        } else {
            (0, 0)
        }
    }

    /// Where the horizontal wave stands at `time`, in millionths of a turn:
    /// the sine there is the `wave_x` that [`ShakeEffect::get_offset`] takes.
    pub fn phase_x(&self, time: u64) -> (phase: u32)
        ensures
            phase == self.phase_x_at(time as int),
            phase < ONE,
    {
        turn_fraction_of(time as i128, self.speed)
    }

    /// Where the vertical wave stands at `time`, in millionths of a turn:
    /// the cosine there is the `wave_y` that [`ShakeEffect::get_offset`] takes.
    pub fn phase_y(&self, time: u64) -> (phase: u32)
        ensures
            phase == self.phase_y_at(time as int),
            phase < ONE,
    {
        proof {
            lemma_mul_bound(time as int, self.speed as int, 0x1_0000_0000_0000_0000, 0x8000_0000);
        }
        let turns: i128 = mul_fixed(time as i128, self.speed as i128);
        proof {
            lemma_mul_bound(turns as int, VERTICAL_PACE as int, 0x8000_0000_0000_0000_0000_0000, 850_000);
        }
        let slowed: i128 = mul_fixed(turns, VERTICAL_PACE as i128);
        floor_mod(slowed, ONE as i128) as u32
    }

    /// The offset for one frame, in millionths of a pixel.
    pub fn get_offset(&self, wave_x: i32, wave_y: i32) -> (offset: (i64, i64))
        ensures
            offset.0 == self.offset(wave_x as int, wave_y as int).0,
            offset.1 == self.offset(wave_x as int, wave_y as int).1,
            !self.enabled ==> offset == (0i64, 0i64),
            -0x1_0000_0000_0000 <= offset.0 <= 0x1_0000_0000_0000,
            -0x1_0000_0000_0000 <= offset.1 <= 0x1_0000_0000_0000,
    {
        if !self.enabled {
            return (0, 0);
        }
        proof {
            lemma_mul_bound(wave_x as int, self.intensity as int, 0x8000_0000, 0x8000_0000);
            lemma_mul_bound(wave_y as int, self.intensity as int, 0x8000_0000, 0x8000_0000);
        }
        let shake_x: i128 = mul_fixed(wave_x as i128, self.intensity as i128);
        let shake_y: i128 = mul_fixed(wave_y as i128, self.intensity as i128);
        (shake_x as i64, shake_y as i64)
    }
}

/// The offset stays within the intensity either way, wherever the two
/// waves stand between minus one and one.
pub proof fn lemma_shake_stays_within_intensity(shake: ShakeEffect, wave_x: int, wave_y: int)
    requires
        -ONE <= wave_x <= ONE,
        -ONE <= wave_y <= ONE,
    ensures
        abs_int(shake.offset(wave_x, wave_y).0) <= abs_int(shake.intensity as int),
        abs_int(shake.offset(wave_x, wave_y).1) <= abs_int(shake.intensity as int),
{
    let reach = abs_int(shake.intensity as int);
    lemma_mul_bound(wave_x, shake.intensity as int, ONE as int, reach);
    lemma_mul_bound(wave_y, shake.intensity as int, ONE as int, reach);
    assert(ONE * reach == reach * ONE) by (nonlinear_arith);
}

} // verus!
