//! Packed colours: eight bits of opacity above twenty-four bits of red, green and blue.

use vstd::prelude::*;
use vstd::string::StrSliceExecFns;
use crate::fixed::ONE;
use crate::fixed::clamp_int;

verus! {

/// The colour that stands for "nothing painted here".
pub const TRANSPARENT: u32 = 0;

/// The red, green and blue of the colour that replaces an unreadable one.
pub const WHITE: u32 = 0xFF_FFFF;

/// The weight of the opacity byte inside a packed colour.
pub const ALPHA_UNIT: u32 = 0x100_0000;

/// The opacity byte of a packed colour.
pub open spec fn alpha_of(color: u32) -> int {
    color as int / ALPHA_UNIT as int
}

/// The red, green and blue of a packed colour, as one number.
pub open spec fn rgb_of(color: u32) -> int {
    color as int % ALPHA_UNIT as int
}

/// The packed colour with opacity byte `alpha` over `rgb`.
pub open spec fn pack(alpha: int, rgb: int) -> u32
    recommends
        0 <= alpha <= 255,
        0 <= rgb < ALPHA_UNIT,
{
    (alpha * ALPHA_UNIT as int + rgb) as u32
}

/// The opacity byte for a fixed-point opacity: the opacity is first limited to
/// the range from zero to one, then scaled to 255 and rounded down.
pub open spec fn alpha_byte(alpha: int) -> int {
    clamp_int(alpha, 0, ONE as int) * 255 / ONE as int
}

/// An opacity byte scaled by a fixed-point factor, rounded down and kept
/// within a byte.
pub open spec fn scaled_alpha(alpha: int, multiplier: int) -> int {
    clamp_int(alpha * multiplier / ONE as int, 0, 255)
}

/// A colour whose opacity byte is scaled by `multiplier`; red, green and blue stay.
pub open spec fn with_scaled_alpha(color: u32, multiplier: int) -> u32 {
    pack(scaled_alpha(alpha_of(color), multiplier), rgb_of(color))
}

/// Whether `c` is one of `0-9`, `a-f`, `A-F`.
pub open spec fn is_hex_digit(c: char) -> bool {
    ('0' <= c <= '9') || ('a' <= c <= 'f') || ('A' <= c <= 'F')
}

/// The value of a hexadecimal digit.
pub open spec fn hex_digit_value(c: char) -> int
    recommends
        is_hex_digit(c),
{
    if '0' <= c <= '9' {
        c as int - '0' as int
    } else if 'a' <= c <= 'f' {
        c as int - 'a' as int + 10
    } else {
        c as int - 'A' as int + 10
    }
}

/// Whether `s` is exactly six hexadecimal digits.
pub open spec fn is_rgb_hex(s: Seq<char>) -> bool {
    s.len() == 6 && forall|i: int| 0 <= i < 6 ==> is_hex_digit(#[trigger] s[i])
}

/// The number that the first `n` digits of `s` spell, most significant first.
pub open spec fn hex_prefix_value(s: Seq<char>, n: nat) -> int
    recommends
        n <= s.len(),
    decreases n,
{
    if n == 0 {
        0
    } else {
        hex_prefix_value(s, (n - 1) as nat) * 16 + hex_digit_value(s[n - 1])
    }
}

/// The digits of a colour string: the string without its first character
/// where that is a `#`, else the string as it is. Only one `#` is taken off.
pub open spec fn digits_of(s: Seq<char>) -> Seq<char> {
    if s.len() > 0 && s[0] == '#' {
        s.subrange(1, s.len() as int)
    } else {
        s
    }
}

/// The red, green and blue that a colour string names, or `fallback` where
/// its digits are not exactly six hexadecimal digits.
pub open spec fn rgb_or(s: Seq<char>, fallback: int) -> int {
    let digits = digits_of(s);
    if is_rgb_hex(digits) {
        hex_prefix_value(digits, 6)
    } else {
        fallback
    }
}

/// The packed colour for a colour string and a fixed-point opacity.
pub open spec fn color_or(s: Seq<char>, alpha: int, fallback: int) -> u32 {
    pack(alpha_byte(alpha), rgb_or(s, fallback))
}

/// The value of the digits before position `n` stays below `16^n`.
pub proof fn lemma_hex_prefix_bound(s: Seq<char>, n: nat)
    requires
        n <= 6,
        n <= s.len(),
        forall|i: int| 0 <= i < n ==> is_hex_digit(#[trigger] s[i]),
    ensures
        0 <= hex_prefix_value(s, n),
        n == 0 ==> hex_prefix_value(s, n) < 1,
        n == 1 ==> hex_prefix_value(s, n) < 0x10,
        n == 2 ==> hex_prefix_value(s, n) < 0x100,
        n == 3 ==> hex_prefix_value(s, n) < 0x1000,
        n == 4 ==> hex_prefix_value(s, n) < 0x1_0000,
        n == 5 ==> hex_prefix_value(s, n) < 0x10_0000,
        n == 6 ==> hex_prefix_value(s, n) < 0x100_0000,
    decreases n,
{
    if n > 0 {
        lemma_hex_prefix_bound(s, (n - 1) as nat);
        assert(is_hex_digit(s[n - 1]));
    }
}

/// Scaling the opacity by one leaves a colour as it is.
pub proof fn lemma_scaling_by_one_keeps_color(color: u32)
    ensures
        with_scaled_alpha(color, ONE as int) == color,
{
    let alpha = alpha_of(color);
    assert(0 <= alpha <= 255);
    assert(alpha * ONE / (ONE as int) == alpha);
}

/// The opacity byte for a fixed-point opacity.
pub fn alpha_to_byte(alpha: i32) -> (byte: u32)
    ensures
        byte == alpha_byte(alpha as int),
        byte <= 255,
{
    let limited: i32 = if alpha < 0 {
        0
    } else if alpha > ONE {
        ONE
    } else {
        alpha
    };
    let scaled: i64 = limited as i64 * 255;
    (scaled / ONE as i64) as u32
}

/// Packs an opacity byte with red, green and blue.
pub fn pack_color(alpha: u32, rgb: u32) -> (color: u32)
    requires
        alpha <= 255,
        rgb < ALPHA_UNIT,
    ensures
        color == pack(alpha as int, rgb as int),
        alpha_of(color) == alpha,
        rgb_of(color) == rgb,
{
    alpha * ALPHA_UNIT + rgb
}

/// Scales the opacity byte of a colour by a fixed-point factor.
pub fn scale_alpha(color: u32, multiplier: i64) -> (scaled: u32)
    ensures
        scaled == with_scaled_alpha(color, multiplier as int),
        rgb_of(scaled) == rgb_of(color),
        alpha_of(scaled) == scaled_alpha(alpha_of(color), multiplier as int),
{
    let alpha: u32 = color / ALPHA_UNIT;
    let rgb: u32 = color % ALPHA_UNIT;
    assert(alpha <= 255);
    proof {
        crate::fixed::lemma_mul_bound(alpha as int, multiplier as int, 255, 0x8000_0000_0000_0000);
    }
    let product: i128 = alpha as i128 * multiplier as i128;
    let quotient: i128 = crate::fixed::floor_div(product, ONE as i128);
    let byte: u32 = if quotient < 0 {
        0
    } else if quotient > 255 {
        255
    } else {
        quotient as u32
    };
    pack_color(byte, rgb)
}

/// The value of one hexadecimal digit, if `c` is one.
pub fn hex_digit(c: char) -> (digit: Option<u32>)
    ensures
        digit.is_some() == is_hex_digit(c),
        digit matches Some(v) ==> v == hex_digit_value(c) && v < 16,
{
    let code: u32 = c as u32;
    if code >= 48 && code <= 57 {
        Some(code - 48)
    } else if code >= 97 && code <= 102 {
        Some(code - 87)
    } else if code >= 65 && code <= 70 {
        Some(code - 55)
    } else {
        None
    }
}

/// Reads a colour string such as `#00FF00`: the red, green and blue it names,
/// or `fallback` where it names none.
pub fn parse_rgb(hex: &str, fallback: u32) -> (rgb: u32)
    requires
        fallback < ALPHA_UNIT,
    ensures
        rgb == rgb_or(hex@, fallback as int),
        rgb < ALPHA_UNIT,
{
    let len: usize = hex.unicode_len();
    let start: usize = if len > 0 && hex.get_char(0) == '#' {
        1
    } else {
        0
    };
    let ghost digits = hex@.subrange(start as int, len as int);
    proof {
        if start == 0 {
            assert(digits =~= hex@);
        }
        assert(digits_of(hex@) == digits);
    }
    if len - start != 6 {
        return fallback;
    }
    let mut value: u32 = 0;
    let mut n: usize = 0;
    while n < 6
        invariant
            n <= 6,
            start + 6 == len,
            len == hex@.len(),
            digits == hex@.subrange(start as int, len as int),
            digits_of(hex@) == digits,
            forall|i: int| 0 <= i < n ==> is_hex_digit(#[trigger] digits[i]),
            value == hex_prefix_value(digits, n as nat),
            value < ALPHA_UNIT,
            fallback < ALPHA_UNIT,
        decreases 6 - n,
    {
        let c: char = hex.get_char(start + n);
        assert(c == digits[n as int]);
        match hex_digit(c) {
            Some(v) => {
                proof {
                    assert(hex_prefix_value(digits, (n + 1) as nat) == value * 16 + v);
                    assert forall|i: int| 0 <= i < n + 1 implies is_hex_digit(
                        #[trigger] digits[i],
                    ) by {
                        if i == n {
                        }
                    }
                    lemma_hex_prefix_bound(digits, (n + 1) as nat);
                }
                value = value * 16 + v;
            },
            None => {
                return fallback;
            },
        }
        n += 1;
    }
    value
}

/// The packed colour for a colour string and a fixed-point opacity; a string
/// that names no colour gives `fallback` under the same opacity.
pub fn parse_color(hex: &str, alpha: i32, fallback: u32) -> (color: u32)
    requires
        fallback < ALPHA_UNIT,
    ensures
        color == color_or(hex@, alpha as int, fallback as int),
{
    let rgb: u32 = parse_rgb(hex, fallback);
    pack_color(alpha_to_byte(alpha), rgb)
}

} // verus!
