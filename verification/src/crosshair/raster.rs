//! Painting a shape into a buffer, pixel by pixel.

use vstd::prelude::*;
use vstd::arithmetic::div_mod::lemma_fundamental_div_mod_converse;
use crate::fixed::ONE;
use crate::fixed::max_int;
use crate::fixed::min_int;
use crate::config::effects::Effects;
use crate::config::effects::FrameWaves;
use super::Crosshair;
use super::CrosshairStyle;
use super::CircleCrosshair;
use super::ClassicCrosshair;
use super::CrossCrosshair;
use super::DiamondCrosshair;
use super::DotCrosshair;
use super::PlusCrosshair;
use super::SquareCrosshair;
use super::TShapeCrosshair;
use super::XShapeCrosshair;

verus! {

/// The coordinate at which the shape is asked about the pixel at `p` while
/// the shape is moved by `shift` millionths of a pixel: `p` less the shift,
/// cut to a whole number towards zero, and kept within what a coordinate
/// can hold. Moving the question back makes the shape appear moved forward.
pub open spec fn sample_coord(p: int, shift: int) -> int {
    if p * ONE - shift <= 0 {
        0
    } else {
        min_int((p * ONE - shift) / (ONE as int), usize::MAX as int)
    }
}

/// The coordinate before `p`, kept within a buffer that is `extent` wide.
pub open spec fn neighbor_before(p: int, extent: int) -> int {
    min_int(max_int(p - 1, 0), max_int(extent - 1, 0))
}

/// The coordinate after `p`, kept within a buffer that is `extent` wide.
pub open spec fn neighbor_after(p: int, extent: int) -> int {
    min_int(p + 1, max_int(extent - 1, 0))
}

/// Whether the pixel `(x, y)` of a buffer `width` by `height` belongs to the
/// shape of `style`, with the settings of `crosshair`.
pub open spec fn on_shape(style: CrosshairStyle, crosshair: &Crosshair, x: int, y: int, width: int, height: int) -> bool {
    match style {
        CrosshairStyle::Classic => ClassicCrosshair::covers(crosshair, x, y, width, height),
        CrosshairStyle::Dot => DotCrosshair::covers(crosshair, x, y, width, height),
        CrosshairStyle::Cross => CrossCrosshair::covers(crosshair, x, y, width, height),
        CrosshairStyle::Circle => CircleCrosshair::covers(crosshair, x, y, width, height),
        CrosshairStyle::T => TShapeCrosshair::covers(crosshair, x, y, width, height),
        CrosshairStyle::Plus => PlusCrosshair::covers(crosshair, x, y, width, height),
        CrosshairStyle::X => XShapeCrosshair::covers(crosshair, x, y, width, height),
        CrosshairStyle::Square => SquareCrosshair::covers(crosshair, x, y, width, height),
        CrosshairStyle::Diamond => DiamondCrosshair::covers(crosshair, x, y, width, height),
    }
}

/// Whether one of the four neighbours of `(x, y)` along the axes, each kept
/// within the buffer, lies off the shape. For a pixel of the shape this
/// says that it lies on the shape's border.
pub open spec fn on_edge(style: CrosshairStyle, crosshair: &Crosshair, x: int, y: int, width: int, height: int) -> bool {
    ||| !on_shape(style, crosshair, neighbor_before(x, width), y, width, height)
    ||| !on_shape(style, crosshair, neighbor_after(x, width), y, width, height)
    ||| !on_shape(style, crosshair, x, neighbor_before(y, height), width, height)
    ||| !on_shape(style, crosshair, x, neighbor_after(y, height), width, height)
}

/// The colour of the pixel `(x, y)` once the shape is painted over `under`
/// in `body`, with its border in `outline` where the outline is on; the
/// shape is moved by `(shift_x, shift_y)`. A pixel off the shape keeps
/// `under`.
pub open spec fn painted(
    style: CrosshairStyle,
    crosshair: &Crosshair,
    body: u32,
    outline: u32,
    shift_x: int,
    shift_y: int,
    x: int,
    y: int,
    width: int,
    height: int,
    under: u32,
) -> u32 {
    let sx = sample_coord(x, shift_x);
    let sy = sample_coord(y, shift_y);
    if on_shape(style, crosshair, sx, sy, width, height) {
        if crosshair.outline.enabled && on_edge(style, crosshair, sx, sy, width, height) {
            outline
        } else {
            body
        }
    } else {
        under
    }
}

/// The colour of the pixel `(x, y)` once the shape of `style` is painted
/// over `under` with the effects of one frame: the body in the rainbow's
/// colour, or else the reticle's own, under the pulse; the border in the
/// outline's colour; the whole moved by the shake.
pub open spec fn rendered_pixel(
    style: CrosshairStyle,
    crosshair: &Crosshair,
    effects: &Effects,
    time: int,
    waves: &FrameWaves,
    x: int,
    y: int,
    width: int,
    height: int,
    under: u32,
) -> u32 {
    painted(
        style,
        crosshair,
        crosshair.body_color(effects, time, waves.pulse as int),
        crosshair.outline_color(),
        effects.shake.offset(waves.shake_x as int, waves.shake_y as int).0,
        effects.shake.offset(waves.shake_x as int, waves.shake_y as int).1,
        x,
        y,
        width,
        height,
        under,
    )
}

/// In a buffer of `height` rows of `width` pixels, row `y` begins at the
/// index `y * width`. The rows follow one another without a gap, and after
/// the last of them comes the end of the buffer.
pub proof fn lemma_rows(y: int, width: int, height: int)
    requires
        0 <= y <= height,
        0 <= width,
    ensures
        y < height ==> (y + 1) * width == y * width + width,
        y < height ==> (y + 1) * width <= width * height,
        y == height ==> y * width == width * height,
{
    assert((y + 1) * width == y * width + width) by (nonlinear_arith);
    if y < height {
        assert((y + 1) * width <= width * height) by (nonlinear_arith)
            requires
                0 <= y < height,
                0 <= width,
        ;
    } else {
        assert(height * width == width * height) by (nonlinear_arith);
    }
}

/// In a buffer `width` wide, the pixel `(x, y)` has the index
/// `y * width + x`, which lies below `width * height` for a pixel of the
/// buffer, and from which division by the width gives `x` and `y` back.
pub proof fn lemma_pixel_index(x: int, y: int, width: int, height: int)
    requires
        0 <= x < width,
        0 <= y < height,
    ensures
        0 <= y * width + x < width * height,
        (y * width + x) / width == y,
        (y * width + x) % width == x,
{
    lemma_rows(y, width, height);
    assert(0 <= y * width) by (nonlinear_arith)
        requires
            0 <= y,
            0 < width,
    ;
    lemma_fundamental_div_mod_converse(y * width + x, width, y, x);
}

/// The coordinate at which the shape is asked about the pixel at `p`.
pub fn sample(p: usize, shift: i64) -> (s: usize)
    ensures
        s == sample_coord(p as int, shift as int),
{
    let moved: i128 = (p as i128) * (ONE as i128) - (shift as i128);
    if moved <= 0 {
        return 0;
    }
    let whole: i128 = moved / (ONE as i128);
    if whole > usize::MAX as i128 {
        usize::MAX
    } else {
        whole as usize
    }
}

/// The coordinate before `p`, kept within the buffer.
pub fn before(p: usize, extent: usize) -> (n: usize)
    ensures
        n == neighbor_before(p as int, extent as int),
{
    let last: usize = if extent > 0 { extent - 1 } else { 0 };
    let lower: usize = if p > 0 { p - 1 } else { 0 };
    if lower < last { lower } else { last }
}

/// The coordinate after `p`, kept within the buffer.
pub fn after(p: usize, extent: usize) -> (n: usize)
    ensures
        n == neighbor_after(p as int, extent as int),
{
    let last: usize = if extent > 0 { extent - 1 } else { 0 };
    if p < last { p + 1 } else { last }
}

/// Whether the pixel `(x, y)` belongs to the shape of `style`.
pub fn is_on_shape(style: CrosshairStyle, crosshair: &Crosshair, x: usize, y: usize, width: usize, height: usize) -> (on: bool)
    ensures
        on == on_shape(style, crosshair, x as int, y as int, width as int, height as int),
{
    match style {
        CrosshairStyle::Classic => ClassicCrosshair.is_on_classic_line(crosshair, x, y, width, height),
        CrosshairStyle::Dot => DotCrosshair.is_on_dot(crosshair, x, y, width, height),
        CrosshairStyle::Cross => CrossCrosshair.is_on_cross(crosshair, x, y, width, height),
        CrosshairStyle::Circle => CircleCrosshair.is_on_circle(crosshair, x, y, width, height),
        CrosshairStyle::T => TShapeCrosshair.is_on_t_shape(crosshair, x, y, width, height),
        CrosshairStyle::Plus => PlusCrosshair.is_on_plus(crosshair, x, y, width, height),
        CrosshairStyle::X => XShapeCrosshair.is_on_x_shape(crosshair, x, y, width, height),
        CrosshairStyle::Square => SquareCrosshair.is_on_square(crosshair, x, y, width, height),
        CrosshairStyle::Diamond => DiamondCrosshair.is_on_diamond(crosshair, x, y, width, height),
    }
}

/// Whether a neighbour of the pixel `(x, y)` lies off the shape of `style`.
pub fn is_on_edge(style: CrosshairStyle, crosshair: &Crosshair, x: usize, y: usize, width: usize, height: usize) -> (edge: bool)
    ensures
        edge == on_edge(style, crosshair, x as int, y as int, width as int, height as int),
{
    !is_on_shape(style, crosshair, before(x, width), y, width, height) || !is_on_shape(
        style,
        crosshair,
        after(x, width),
        y,
        width,
        height,
    ) || !is_on_shape(style, crosshair, x, before(y, height), width, height) || !is_on_shape(
        style,
        crosshair,
        x,
        after(y, height),
        width,
        height,
    )
}

/// Paints the shape of `style` into `buffer`, which holds `height` rows of
/// `width` pixels: the pixels of the shape get its colours, the others stay.
pub fn draw_shape(
    style: CrosshairStyle,
    crosshair: &Crosshair,
    buffer: &mut [u32],
    width: usize,
    height: usize,
    effects: &Effects,
    time: u64,
    waves: &FrameWaves,
)
    requires
        old(buffer).len() == width * height,
    ensures
        final(buffer).len() == old(buffer).len(),
        forall|i: int|
            0 <= i < old(buffer).len() ==> final(buffer)@[i] == rendered_pixel(
                style,
                crosshair,
                effects,
                time as int,
                waves,
                i % (width as int),
                i / (width as int),
                width as int,
                height as int,
                old(buffer)@[i],
            ),
{
    let color: u32 = crosshair.shape_color(effects, time, waves.pulse);
    let outline_color: u32 = crosshair.get_outline_color();
    let (shake_x, shake_y) = effects.shake.get_offset(waves.shake_x, waves.shake_y);
    let mut y: usize = 0;
    let mut row: usize = 0;
    while y < height
        invariant
            y <= height,
            row == y * width,
            buffer.len() == width * height,
            old(buffer).len() == width * height,
            color == crosshair.body_color(effects, time as int, waves.pulse as int),
            outline_color == crosshair.outline_color(),
            shake_x == effects.shake.offset(waves.shake_x as int, waves.shake_y as int).0,
            shake_y == effects.shake.offset(waves.shake_x as int, waves.shake_y as int).1,
            forall|i: int|
                0 <= i < row ==> buffer@[i] == rendered_pixel(
                    style,
                    crosshair,
                    effects,
                    time as int,
                    waves,
                    i % (width as int),
                    i / (width as int),
                    width as int,
                    height as int,
                    old(buffer)@[i],
                ),
            forall|i: int| row <= i < buffer.len() ==> buffer@[i] == old(buffer)@[i],
        decreases height - y,
    {
        let mut x: usize = 0;
        while x < width
            invariant
                x <= width,
                y < height,
                row == y * width,
                buffer.len() == width * height,
                old(buffer).len() == width * height,
                color == crosshair.body_color(effects, time as int, waves.pulse as int),
                outline_color == crosshair.outline_color(),
                shake_x == effects.shake.offset(waves.shake_x as int, waves.shake_y as int).0,
                shake_y == effects.shake.offset(waves.shake_x as int, waves.shake_y as int).1,
                forall|i: int|
                    0 <= i < row + x ==> buffer@[i] == rendered_pixel(
                        style,
                        crosshair,
                        effects,
                        time as int,
                        waves,
                        i % (width as int),
                        i / (width as int),
                        width as int,
                        height as int,
                        old(buffer)@[i],
                    ),
                forall|i: int| row + x <= i < buffer.len() ==> buffer@[i] == old(buffer)@[i],
            decreases width - x,
        {
            proof {
                lemma_pixel_index(x as int, y as int, width as int, height as int);
            }
            let adjusted_x: usize = sample(x, shake_x);
            let adjusted_y: usize = sample(y, shake_y);
            if is_on_shape(style, crosshair, adjusted_x, adjusted_y, width, height) {
                let mut final_color: u32 = color;
                if crosshair.outline.enabled {
                    if is_on_edge(style, crosshair, adjusted_x, adjusted_y, width, height) {
                        final_color = outline_color;
                    }
                }
                buffer[row + x] = final_color;
            }
            x += 1;
        }
        proof {
            lemma_rows(y as int, width as int, height as int);
        }
        row += width;
        y += 1;
    }
    proof {
        lemma_rows(height as int, width as int, height as int);
    }
}

} // verus!
