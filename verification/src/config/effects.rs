//! Visual effects: what moves with time and what reacts to the mouse.
//!
//! The animated effects follow sines and cosines of the elapsed time. The
//! library works out at which point of its cycle each wave stands (a phase,
//! in millionths of a turn); the caller samples the wave there and hands the
//! sample back, in millionths, as part of a [`FrameWaves`].

use vstd::prelude::*;
use crate::fixed::ONE;
use crate::fixed::fx_mul;
use crate::fixed::floor_div;
use crate::fixed::floor_mod;
use crate::fixed::lemma_mul_bound;

pub mod mouse;
pub mod pulse;
pub mod rainbow;
pub mod shake;

pub use mouse::MouseEffect;
pub use pulse::PulseEffect;
pub use rainbow::RainbowEffect;
pub use shake::ShakeEffect;

verus! {

/// The factor by which the centre dot's pulse runs ahead of the reticle's.
pub const DOT_PULSE_PACE: i32 = 1_200_000;

/// The factor by which the centre dot's colour cycle runs ahead of the reticle's.
pub const DOT_RAINBOW_PACE: i32 = 1_500_000;

/// The times that the functions below take: as far either way as leaves
/// room for the product of a time and a speed in 128 bits. Any time that a
/// `u64` holds lies within, run ahead or back by any pace.
pub open spec fn time_in_range(time: int) -> bool {
    -0x4000_0000_0000_0000_0000_0000 <= time <= 0x4000_0000_0000_0000_0000_0000
}

/// The point of its cycle that a wave of `speed` turns per second has
/// reached after `time`, in millionths of a turn: at least zero, below one.
pub open spec fn turn_fraction(time: int, speed: int) -> int {
    fx_mul(time, speed) % (ONE as int)
}

/// `time` run ahead by the fixed-point factor `pace`.
pub open spec fn paced(time: int, pace: int) -> int {
    fx_mul(time, pace)
}

/// The point of its cycle that a wave has reached.
pub fn turn_fraction_of(time: i128, speed: i32) -> (phase: u32)
    requires
        time_in_range(time as int),
    ensures
        phase == turn_fraction(time as int, speed as int),
        phase < ONE,
{
    proof {
        lemma_mul_bound(time as int, speed as int, 0x4000_0000_0000_0000_0000_0000, 0x8000_0000);
    }
    let turns: i128 = floor_div(time * (speed as i128), ONE as i128);
    floor_mod(turns, ONE as i128) as u32
}

/// A time run ahead by `pace`; a pace below one holds it back, one below
/// zero turns it round.
pub fn paced_time(time: u64, pace: i32) -> (later: i128)
    ensures
        later == paced(time as int, pace as int),
        time_in_range(later as int),
{
    proof {
        lemma_mul_bound(time as int, pace as int, 0x1_0000_0000_0000_0000, 0x8000_0000);
    }
    floor_div((time as i128) * (pace as i128), ONE as i128)
}

/// The phases at which one frame's waves are to be sampled, each in
/// millionths of a turn.
#[derive(Debug, Clone, Copy)]
pub struct FramePhases {
    /// Where the reticle's pulse stands; its sine is wanted.
    pub pulse: u32,
    /// Where the centre dot's pulse stands; its sine is wanted.
    pub dot_pulse: u32,
    /// Where the horizontal shake stands; its sine is wanted.
    pub shake_x: u32,
    /// Where the vertical shake stands; its cosine is wanted.
    pub shake_y: u32,
}

/// One frame's wave samples, each in millionths: the answers to a
/// [`FramePhases`].
#[derive(Debug, Clone, Copy)]
pub struct FrameWaves {
    pub pulse: i32,
    pub dot_pulse: i32,
    pub shake_x: i32,
    pub shake_y: i32,
}

/// All effects of a reticle.
#[derive(Debug, Clone, Copy)]
pub struct Effects {
    pub pulse: PulseEffect,
    pub shake: ShakeEffect,
    pub rainbow: RainbowEffect,
    pub mouse: MouseEffect,
}

impl Default for Effects {
    fn default() -> (effects: Self)
        ensures
            effects == Effects::initial(),
    {
        Effects {
            pulse: PulseEffect::default(),
            shake: ShakeEffect::default(),
            rainbow: RainbowEffect::default(),
            mouse: MouseEffect::default(),
        }
    }
}

impl Effects {
    /// The settings the effects start from: every effect off.
    pub open spec fn initial() -> Effects {
        Effects {
            pulse: PulseEffect::initial(),
            shake: ShakeEffect::initial(),
            rainbow: RainbowEffect::initial(),
            mouse: MouseEffect::initial(),
        }
    }

    /// Whether some effect changes with time alone, so that frames must
    /// follow one another without waiting for input.
    pub open spec fn is_animated(&self) -> bool {
        self.pulse.enabled || self.shake.enabled || self.rainbow.enabled
    }

    /// The phases of this frame's waves at `time`.
    pub open spec fn phases_at(&self, time: int) -> FramePhases {
        FramePhases {
            pulse: self.pulse.phase_at(time) as u32,
            dot_pulse: self.pulse.phase_at(paced(time, DOT_PULSE_PACE as int)) as u32,
            shake_x: self.shake.phase_x_at(time) as u32,
            shake_y: self.shake.phase_y_at(time) as u32,
        }
    }

    /// Whether some effect changes with time alone.
    pub fn has_animated_effects(&self) -> (animated: bool)
        ensures
            animated == self.is_animated(),
    {
        self.pulse.enabled || self.shake.enabled || self.rainbow.enabled
    }

    /// Whether the mouse effects are on, so that a frame is due when a
    /// button changes.
    pub fn has_mouse_effects(&self) -> (reactive: bool)
        ensures
            reactive == self.mouse.enabled,
    {
        self.mouse.enabled
    }

    /// The phases at which the waves of the frame at `time` are to be sampled.
    pub fn phases(&self, time: u64) -> (phases: FramePhases)
        ensures
            phases == self.phases_at(time as int),
            phases.pulse < ONE,
            phases.dot_pulse < ONE,
            phases.shake_x < ONE,
            phases.shake_y < ONE,
    {
        let dot_time: i128 = paced_time(time, DOT_PULSE_PACE);
        FramePhases {
            pulse: self.pulse.phase(time),
            dot_pulse: turn_fraction_of(dot_time, self.pulse.speed),
            shake_x: self.shake.phase_x(time),
            shake_y: self.shake.phase_y(time),
        }
    }
}

} // verus!
