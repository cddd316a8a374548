//! The rainbow: a colour that travels round the colour wheel.

use vstd::prelude::*;
use crate::fixed::ONE;
use crate::fixed::abs_int;
use crate::fixed::clamp_int;
use crate::fixed::fx_mul;
use crate::fixed::floor_div;
use crate::fixed::floor_mod;
use crate::fixed::lemma_mul_bound;
use crate::color::alpha_byte;
use crate::color::alpha_to_byte;
use crate::color::pack;
use crate::color::pack_color;
use super::time_in_range;

verus! {

/// A full turn of the colour wheel, in millionths of a degree.
pub const FULL_TURN: i64 = 360_000_000;

/// One of the wheel's six sectors, in millionths of a degree.
pub const SECTOR: i64 = 60_000_000;

/// The rainbow's settings.
#[derive(Debug, Clone, Copy)]
pub struct RainbowEffect {
    pub enabled: bool,
    /// Turns of the wheel per second, in fixed point.
    pub speed: i32,
    /// How far the colour is from grey, from zero to one.
    pub saturation: i32,
    /// How far the colour is from black, from zero to one.
    pub brightness: i32,
}

impl Default for RainbowEffect {
    fn default() -> (effect: Self)
        ensures
            effect == RainbowEffect::initial(),
    {
        RainbowEffect { enabled: false, speed: 1_000_000, saturation: 1_000_000, brightness: 1_000_000 }
    }
}

/// The share of the chroma that the middle channel has at hue `h`: it rises
/// from zero to one over every odd sector of the wheel and falls back over
/// every even one.
pub open spec fn ramp(h: int) -> int {
    ONE - abs_int((h / 60) % (2 * ONE) - ONE)
}

/// The chroma of a colour: brightness times saturation, both limited to the
/// range from zero to one.
pub open spec fn chroma(s: int, v: int) -> int {
    fx_mul(clamp_int(v, 0, ONE as int), clamp_int(s, 0, ONE as int))
}

/// A colour channel as a byte: the channel's share of the chroma, lifted by
/// what brightness exceeds the chroma, scaled to 255 and rounded down.
pub open spec fn channel_byte(part: int, s: int, v: int) -> int {
    (part + (clamp_int(v, 0, ONE as int) - chroma(s, v))) * 255 / (ONE as int)
}

/// Red, green and blue, each as a byte, for hue `h` in millionths of a
/// degree, saturation `s` and brightness `v`, by the six sectors of the
/// colour wheel. A hue below the first sector counts as in it, one beyond
/// the last as in the last.
pub open spec fn hsv_bytes(h: int, s: int, v: int) -> (int, int, int) {
    let c = chroma(s, v);
    let x = fx_mul(c, ramp(h));
    let parts = if h < SECTOR {
        (c, x, 0int)
    } else if h < 2 * SECTOR {
        (x, c, 0int)
    } else if h < 3 * SECTOR {
        (0int, c, x)
    } else if h < 4 * SECTOR {
        (0int, x, c)
    } else if h < 5 * SECTOR {
        (x, 0int, c)
    } else {
        (c, 0int, x)
    };
    (channel_byte(parts.0, s, v), channel_byte(parts.1, s, v), channel_byte(parts.2, s, v))
}

impl RainbowEffect {
    /// The settings a rainbow starts from: off, one turn per second, full
    /// saturation and brightness.
    pub open spec fn initial() -> RainbowEffect {
        RainbowEffect { enabled: false, speed: 1_000_000, saturation: 1_000_000, brightness: 1_000_000 }
    }

    /// The hue after `time`, in millionths of a degree: `time * speed * 360`
    /// taken modulo a full turn.
    pub open spec fn hue_at(&self, time: int) -> int {
        (fx_mul(time, self.speed as int) * 360) % (FULL_TURN as int)
    }

    /// The colour after `time`, under the opacity `base_alpha`. A rainbow
    /// that is off gives zero, which stands for "no colour of mine".
    pub open spec fn color_at(&self, time: int, base_alpha: int) -> u32 {
        if self.enabled {
            let bytes = hsv_bytes(self.hue_at(time), self.saturation as int, self.brightness as int);
            pack(alpha_byte(base_alpha), bytes.0 * 0x1_0000 + bytes.1 * 0x100 + bytes.2)
        } else {
            0
        }
    }

    /// The colour at `time` (millionths of a second) under the opacity
    /// `base_alpha`.
    pub fn get_color(&self, time: u64, base_alpha: i32) -> (color: u32)
        ensures
            color == self.color_at(time as int, base_alpha as int),
            !self.enabled ==> color == 0,
    {
        self.color_after(time as i128, base_alpha)
    }

    /// The colour after a time that need not be one that a `u64` holds.
    pub fn color_after(&self, time: i128, base_alpha: i32) -> (color: u32)
        requires
            time_in_range(time as int),
        ensures
            color == self.color_at(time as int, base_alpha as int),
            !self.enabled ==> color == 0,
    {
        if !self.enabled {
            return 0;
        }
        proof {
            lemma_mul_bound(time as int, self.speed as int, 0x4000_0000_0000_0000_0000_0000, 0x8000_0000);
        }
        let turns: i128 = floor_div(time * (self.speed as i128), ONE as i128);
        let hue: i128 = floor_mod(turns * 360, FULL_TURN as i128);
        let (r, g, b) = self.hsv_to_rgb(hue as i64, self.saturation, self.brightness);
        pack_color(alpha_to_byte(base_alpha), r * 0x1_0000 + g * 0x100 + b)
    }

    /// Red, green and blue, each from 0 to 255, for a hue in millionths of a
    /// degree, a saturation and a brightness.
    pub fn hsv_to_rgb(&self, h: i64, s: i32, v: i32) -> (rgb: (u32, u32, u32))
        ensures
            rgb.0 == hsv_bytes(h as int, s as int, v as int).0,
            rgb.1 == hsv_bytes(h as int, s as int, v as int).1,
            rgb.2 == hsv_bytes(h as int, s as int, v as int).2,
            rgb.0 <= 255,
            rgb.1 <= 255,
            rgb.2 <= 255,
    {
        let one: i128 = ONE as i128;
        let s_unit: i128 = if s < 0 { 0 } else if s > ONE { one } else { s as i128 };
        let v_unit: i128 = if v < 0 { 0 } else if v > ONE { one } else { v as i128 };
        let c: i128 = unit_mul(v_unit, s_unit);
        let position: i128 = floor_mod(floor_div(h as i128, 60), 2 * one);
        let distance: i128 = if position >= one { position - one } else { one - position };
        let x: i128 = unit_mul(c, one - distance);
        let m: i128 = v_unit - c;
        let sector: i128 = SECTOR as i128;
        let wide_h: i128 = h as i128;
        if wide_h < sector {
            (to_channel(c + m), to_channel(x + m), to_channel(m))
        } else if wide_h < 2 * sector {
            (to_channel(x + m), to_channel(c + m), to_channel(m))
        } else if wide_h < 3 * sector {
            (to_channel(m), to_channel(c + m), to_channel(x + m))
        } else if wide_h < 4 * sector {
            (to_channel(m), to_channel(x + m), to_channel(c + m))
        } else if wide_h < 5 * sector {
            (to_channel(x + m), to_channel(m), to_channel(c + m))
        } else {
            (to_channel(c + m), to_channel(m), to_channel(x + m))
        }
    }
}

/// The fixed-point product of two shares, each from zero to one.
pub fn unit_mul(a: i128, b: i128) -> (product: i128)
    requires
        0 <= a <= ONE,
        0 <= b <= ONE,
    ensures
        product == fx_mul(a as int, b as int),
        0 <= product <= a,
{
    proof {
        lemma_unit_product(a as int, b as int);
    }
    (a * b) / (ONE as i128)
}

/// A level from zero to one as a byte, rounded down.
pub fn to_channel(level: i128) -> (byte: u32)
    requires
        0 <= level <= ONE,
    ensures
        byte == level * 255 / (ONE as int),
        byte <= 255,
{
    ((level * 255) / (ONE as i128)) as u32
}

/// The product of two shares, each from zero to one, is a share no larger
/// than the first.
pub proof fn lemma_unit_product(a: int, b: int)
    requires
        0 <= a <= ONE,
        0 <= b <= ONE,
    ensures
        0 <= a * b <= a * ONE,
        0 <= fx_mul(a, b) <= a,
{
    assert(0 <= a * b <= a * ONE) by (nonlinear_arith)
        requires
            0 <= a,
            0 <= b <= ONE,
    ;
}

} // verus!
