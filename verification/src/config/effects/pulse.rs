//! The pulse: an opacity that rises and falls with a sine wave.

use vstd::prelude::*;
use crate::fixed::ONE;
use crate::fixed::fx_mul;
use crate::fixed::floor_div;
use crate::fixed::mul_fixed;
use crate::fixed::lemma_mul_bound;
use crate::color::ALPHA_UNIT;
use crate::color::alpha_of;
use crate::color::rgb_of;
use crate::color::scaled_alpha;
use crate::color::with_scaled_alpha;
use crate::color::scale_alpha;
use super::turn_fraction;
use super::turn_fraction_of;

verus! {

/// The pulse's settings.
#[derive(Debug, Clone, Copy)]
pub struct PulseEffect {
    pub enabled: bool,
    /// Cycles per second, in fixed point.
    pub speed: i32,
    /// The share of the opacity kept at the bottom of the wave.
    pub min_alpha: i32,
    /// The share of the opacity kept at the top of the wave.
    pub max_alpha: i32,
}

impl Default for PulseEffect {
    fn default() -> (effect: Self)
        ensures
            effect == PulseEffect::initial(),
    {
        PulseEffect { enabled: false, speed: 2_000_000, min_alpha: 300_000, max_alpha: 1_000_000 }
    }
}

impl PulseEffect {
    /// The settings a pulse starts from: off, two cycles per second, between
    /// three tenths and all of the opacity.
    pub open spec fn initial() -> PulseEffect {
        PulseEffect { enabled: false, speed: 2_000_000, min_alpha: 300_000, max_alpha: 1_000_000 }
    }

    /// Where the wave stands after `time`.
    pub open spec fn phase_at(&self, time: int) -> int {
        turn_fraction(time, self.speed as int)
    }

    /// The share of the opacity kept where the wave's sine is `wave`: the
    /// sine is moved from between minus one and one to between zero and one,
    /// and the share lies as far between `min_alpha` and `max_alpha`.
    pub open spec fn envelope(&self, wave: int) -> int {
        self.min_alpha + fx_mul(self.max_alpha - self.min_alpha, (wave + ONE) / 2)
    }

    /// `color` under the pulse: its opacity byte times the envelope, its
    /// red, green and blue untouched. A pulse that is off changes nothing.
    pub open spec fn applied(&self, color: u32, wave: int) -> u32 {
        if self.enabled {
            with_scaled_alpha(color, self.envelope(wave))
        } else {
            color
        }
    }

    /// Where the wave stands at `time`, in millionths of a turn: the sine
    /// there is the `wave` that [`PulseEffect::apply`] takes.
    pub fn phase(&self, time: u64) -> (phase: u32)
        ensures
            phase == self.phase_at(time as int),
            phase < ONE,
    {
        turn_fraction_of(time as i128, self.speed)
    }

    /// Applies the pulse to a colour, given the wave's sine in millionths.
    pub fn apply(&self, color: u32, wave: i32) -> (pulsed: u32)
        ensures
            pulsed == self.applied(color, wave as int),
            !self.enabled ==> pulsed == color,
    {
        if !self.enabled {
            return color;
        }
        let pulse_factor: i128 = floor_div(wave as i128 + ONE as i128, 2);
        let span: i128 = self.max_alpha as i128 - self.min_alpha as i128;
        proof {
            lemma_mul_bound(span as int, pulse_factor as int, 0x1_0000_0000, 0x8000_0000);
        }
        let alpha_multiplier: i128 = self.min_alpha as i128 + mul_fixed(span, pulse_factor);
        scale_alpha(color, alpha_multiplier as i64)
    }
}

/// A pulse whose two shares lie in order from zero to one never raises the
/// opacity of a colour, and leaves its red, green and blue alone, wherever
/// the wave stands between minus one and one.
pub proof fn lemma_pulse_never_raises_opacity(pulse: PulseEffect, color: u32, wave: int)
    requires
        0 <= pulse.min_alpha <= pulse.max_alpha <= ONE,
        -ONE <= wave <= ONE,
    ensures
        alpha_of(pulse.applied(color, wave)) <= alpha_of(color),
        rgb_of(pulse.applied(color, wave)) == rgb_of(color),
        pulse.min_alpha <= pulse.envelope(wave) <= pulse.max_alpha,
{
    let span = pulse.max_alpha - pulse.min_alpha;
    let factor = (wave + ONE) / 2;
    assert(0 <= span * factor <= span * ONE) by (nonlinear_arith)
        requires
            0 <= span,
            0 <= factor <= ONE,
    ;
    let envelope = pulse.envelope(wave);
    assert(0 <= envelope <= ONE);
    let alpha = alpha_of(color);
    assert(0 <= alpha <= 255);
    assert(0 <= alpha * envelope <= alpha * ONE) by (nonlinear_arith)
        requires
            0 <= alpha,
            0 <= envelope <= ONE,
    ;
    let scaled = scaled_alpha(alpha, envelope);
    assert(0 <= scaled <= alpha);
    let rgb = rgb_of(color);
    assert(with_scaled_alpha(color, envelope) == scaled * ALPHA_UNIT + rgb);
}

} // verus!
