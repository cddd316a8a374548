//! One frame: the shape under the mouse effects, the mask over it, the
//! centre dot on top.

use vstd::prelude::*;
use crate::fixed::ONE;
use crate::fixed::abs_int;
use crate::color::ALPHA_UNIT;
use crate::color::TRANSPARENT;
use crate::color::alpha_byte;
use crate::color::alpha_to_byte;
use crate::color::pack;
use crate::color::pack_color;
use crate::color::rgb_of;
use crate::color::scale_alpha;
use crate::color::with_scaled_alpha;
use crate::color::lemma_scaling_by_one_keeps_color;
use crate::config::effects::DOT_RAINBOW_PACE;
use crate::config::effects::Effects;
use crate::config::effects::FrameWaves;
use crate::config::effects::paced;
use crate::config::effects::paced_time;
use crate::config::effects::mouse::MouseState;
use crate::config::effects::mouse::VisibilityMask;
use super::CenterDot;
use super::CircleCrosshair;
use super::ClassicCrosshair;
use super::CrossCrosshair;
use super::Crosshair;
use super::CrosshairRenderer;
use super::CrosshairStyle;
use super::DiamondCrosshair;
use super::DotCrosshair;
use super::Outline;
use super::PlusCrosshair;
use super::SquareCrosshair;
use super::TShapeCrosshair;
use super::XShapeCrosshair;
use super::magnitude;
use super::square;
use super::within_radius;
use super::raster::is_on_shape;
use super::raster::lemma_pixel_index;
use super::raster::lemma_rows;
use super::raster::on_shape;
use super::raster::rendered_pixel;

verus! {

/// Half of [`ONE`]: the centre of a pixel span lies at so many millionths
/// per pixel of its extent.
pub const HALF: i32 = 500_000;

/// How far the pixel at `p` lies from the centre of a span of `extent`
/// pixels, in millionths of a pixel. The centre is at half the extent.
pub open spec fn pixel_offset(p: int, extent: int) -> int {
    (2 * p - extent) * HALF
}

/// The centre of a span of `extent` pixels, in millionths of a pixel.
pub open spec fn span_center(extent: int) -> int {
    extent * HALF
}

/// The colour of the pixel `(x, y)` once a painted pixel `rendered` has gone
/// through `mask` onto `under`. A pixel that was not painted, which shows by
/// its being transparent, or that the mask hides, keeps `under`. One that
/// the mask shows has its opacity scaled by the mask's multiplier.
pub open spec fn masked_pixel(
    mask: &VisibilityMask,
    rendered: u32,
    x: int,
    y: int,
    width: int,
    height: int,
    under: u32,
) -> u32 {
    if rendered != TRANSPARENT && mask.shows(
        pixel_offset(x, width),
        pixel_offset(y, height),
        span_center(width),
        span_center(height),
    ) {
        with_scaled_alpha(rendered, mask.alpha_multiplier as int)
    } else {
        under
    }
}

/// The colour of the pixel `(x, y)` once the shape of `style` has been
/// painted on a transparent sheet and the sheet laid through `mask` onto
/// `under`. A mask that hides all leaves `under`. What the mask judges is
/// the painted sheet, so the shape's border is hidden like its body.
pub open spec fn masked_layer(
    style: CrosshairStyle,
    crosshair: &Crosshair,
    effects: &Effects,
    time: int,
    waves: &FrameWaves,
    mask: &VisibilityMask,
    x: int,
    y: int,
    width: int,
    height: int,
    under: u32,
) -> u32 {
    if mask.show_full {
        masked_pixel(
            mask,
            rendered_pixel(style, crosshair, effects, time, waves, x, y, width, height, TRANSPARENT),
            x,
            y,
            width,
            height,
            under,
        )
    } else {
        under
    }
}

/// Whether the pixel `(x, y)` lies within `radius` pixels of the centre
/// dot's middle: the middle pixel of the buffer, moved by
/// `(shift_x, shift_y)` millionths of a pixel.
pub open spec fn in_center_dot(
    radius: int,
    shift_x: int,
    shift_y: int,
    x: int,
    y: int,
    width: int,
    height: int,
) -> bool {
    square(abs_int((x - width / 2) * ONE - shift_x)) + square(
        abs_int((y - height / 2) * ONE - shift_y),
    ) <= square(radius * ONE)
}

impl Crosshair {
    /// These settings with another gap, size and opacity.
    pub open spec fn with_geometry(&self, gap: u32, size: u32, alpha: i32) -> Crosshair {
        Crosshair { gap, size, alpha, ..*self }
    }

    /// The colour of the centre dot in one frame. Where the rainbow is on,
    /// the dot has the rainbow's red, green and blue of a time half as far
    /// on again, under the dot's own opacity; else its own colour. The
    /// pulse comes on top, where `wave` is its sine for the dot.
    pub open spec fn dot_color(&self, effects: &Effects, time: int, wave: int) -> u32 {
        let base = if effects.rainbow.enabled {
            pack(
                alpha_byte(self.center_dot.alpha as int),
                rgb_of(effects.rainbow.color_at(paced(time, DOT_RAINBOW_PACE as int), self.alpha as int)),
            )
        } else {
            self.center_dot_color()
        };
        effects.pulse.applied(base, wave)
    }

    /// The colour of the pixel `(x, y)` once the centre dot is painted over
    /// `under`.
    pub open spec fn dot_pixel(
        &self,
        effects: &Effects,
        time: int,
        waves: &FrameWaves,
        x: int,
        y: int,
        width: int,
        height: int,
        under: u32,
    ) -> u32 {
        if in_center_dot(
            self.center_dot.size as int,
            effects.shake.offset(waves.shake_x as int, waves.shake_y as int).0,
            effects.shake.offset(waves.shake_x as int, waves.shake_y as int).1,
            x,
            y,
            width,
            height,
        ) {
            self.dot_color(effects, time, waves.dot_pulse as int)
        } else {
            under
        }
    }

    /// The colour of the pixel `(x, y)` of a whole frame over `under`. The
    /// mouse effects give a gap, a size, an opacity and a mask. The shape is
    /// painted with these and laid through the mask. The centre dot, if it
    /// is on and the mask shows the centre, is painted last, with the
    /// settings as they were before the mouse effects.
    pub open spec fn frame_pixel(
        &self,
        effects: &Effects,
        time: u64,
        mouse_state: &MouseState,
        waves: &FrameWaves,
        x: int,
        y: int,
        width: int,
        height: int,
        under: u32,
    ) -> u32 {
        let outcome = effects.mouse.outcome(self.gap, self.size, self.alpha, mouse_state, time);
        let modified = self.with_geometry(outcome.0 as u32, outcome.1 as u32, outcome.2 as i32);
        let shape = masked_layer(
            self.style,
            &modified,
            effects,
            time as int,
            waves,
            &outcome.3,
            x,
            y,
            width,
            height,
            under,
        );
        if self.center_dot.enabled && outcome.3.show_center {
            self.dot_pixel(effects, time as int, waves, x, y, width, height, shape)
        } else {
            shape
        }
    }

    /// Whether the pixel `(x, y)` of a buffer `width` by `height` belongs to
    /// the reticle's shape, whichever its style.
    pub fn is_on_crosshair_line(&self, x: usize, y: usize, width: usize, height: usize) -> (on: bool)
        ensures
            on == on_shape(self.style, self, x as int, y as int, width as int, height as int),
    {
        is_on_shape(self.style, self, x, y, width, height)
    }

    /// A copy of these settings with another gap, size and opacity.
    pub fn modified(&self, gap: u32, size: u32, alpha: i32) -> (crosshair: Crosshair)
        ensures
            crosshair == self.with_geometry(gap, size, alpha),
    {
        Crosshair {
            size,
            thickness: self.thickness,
            gap,
            color: self.color.clone(),
            alpha,
            rotation: self.rotation,
            center_dot: CenterDot {
                enabled: self.center_dot.enabled,
                size: self.center_dot.size,
                color: self.center_dot.color.clone(),
                alpha: self.center_dot.alpha,
            },
            style: self.style,
            outline: Outline {
                enabled: self.outline.enabled,
                thickness: self.outline.thickness,
                color: self.outline.color.clone(),
                alpha: self.outline.alpha,
            },
            triangle_bars: self.triangle_bars,
            filled_circle: self.filled_circle,
        }
    }

    /// The colour of the centre dot in the frame at `time`, where `wave` is
    /// the sine of the pulse for the dot.
    pub fn center_dot_frame_color(&self, effects: &Effects, time: u64, wave: i32) -> (color: u32)
        ensures
            color == self.dot_color(effects, time as int, wave as int),
    {
        let mut dot_color: u32 = if effects.rainbow.enabled {
            let rainbow: u32 = effects.rainbow.color_after(
                paced_time(time, DOT_RAINBOW_PACE),
                self.alpha,
            );
            pack_color(alpha_to_byte(self.center_dot.alpha), rainbow % ALPHA_UNIT)
        } else {
            self.get_center_dot_color()
        };
        if effects.pulse.enabled {
            dot_color = effects.pulse.apply(dot_color, wave);
        }
        dot_color
    }

    /// Paints the shape with `renderer` and the settings of
    /// `modified_crosshair`, and lays it through `visibility_mask` into
    /// `buffer`, which holds `height` rows of `width` pixels.
    pub fn draw_with_visibility_mask<T: CrosshairRenderer>(
        &self,
        renderer: &T,
        modified_crosshair: &Crosshair,
        buffer: &mut [u32],
        width: usize,
        height: usize,
        effects: &Effects,
        time: u64,
        waves: &FrameWaves,
        visibility_mask: &VisibilityMask,
    )
        requires
            old(buffer).len() == width * height,
        ensures
            final(buffer).len() == old(buffer).len(),
            forall|i: int|
                0 <= i < old(buffer).len() ==> final(buffer)@[i] == masked_layer(
                    renderer.style(),
                    modified_crosshair,
                    effects,
                    time as int,
                    waves,
                    visibility_mask,
                    i % (width as int),
                    i / (width as int),
                    width as int,
                    height as int,
                    old(buffer)@[i],
                ),
    {
        if !visibility_mask.show_full {
            return ;
        }
        let mut temp_buffer: Vec<u32> = vec![0u32; buffer.len()];
        renderer.draw(modified_crosshair, temp_buffer.as_mut_slice(), width, height, effects, time, waves);
        let center_x: i128 = (width as i128) * (HALF as i128);
        let center_y: i128 = (height as i128) * (HALF as i128);
        let ghost style = renderer.style();
        let mut y: usize = 0;
        let mut row: usize = 0;
        while y < height
            invariant
                y <= height,
                row == y * width,
                buffer.len() == width * height,
                old(buffer).len() == width * height,
                temp_buffer.len() == width * height,
                visibility_mask.show_full,
                center_x == span_center(width as int),
                center_y == span_center(height as int),
                forall|i: int|
                    0 <= i < temp_buffer.len() ==> temp_buffer@[i] == rendered_pixel(
                        style,
                        modified_crosshair,
                        effects,
                        time as int,
                        waves,
                        i % (width as int),
                        i / (width as int),
                        width as int,
                        height as int,
                        TRANSPARENT,
                    ),
                forall|i: int|
                    0 <= i < row ==> buffer@[i] == masked_layer(
                        style,
                        modified_crosshair,
                        effects,
                        time as int,
                        waves,
                        visibility_mask,
                        i % (width as int),
                        i / (width as int),
                        width as int,
                        height as int,
                        old(buffer)@[i],
                    ),
                forall|i: int| row <= i < buffer.len() ==> buffer@[i] == old(buffer)@[i],
            decreases height - y,
        {
            let mut x: usize = 0;
            while x < width
                invariant
                    x <= width,
                    y < height,
                    row == y * width,
                    buffer.len() == width * height,
                    old(buffer).len() == width * height,
                    temp_buffer.len() == width * height,
                    visibility_mask.show_full,
                    center_x == span_center(width as int),
                    center_y == span_center(height as int),
                    forall|i: int|
                        0 <= i < temp_buffer.len() ==> temp_buffer@[i] == rendered_pixel(
                            style,
                            modified_crosshair,
                            effects,
                            time as int,
                            waves,
                            i % (width as int),
                            i / (width as int),
                            width as int,
                            height as int,
                            TRANSPARENT,
                        ),
                    forall|i: int|
                        0 <= i < row + x ==> buffer@[i] == masked_layer(
                            style,
                            modified_crosshair,
                            effects,
                            time as int,
                            waves,
                            visibility_mask,
                            i % (width as int),
                            i / (width as int),
                            width as int,
                            height as int,
                            old(buffer)@[i],
                        ),
                    forall|i: int| row + x <= i < buffer.len() ==> buffer@[i] == old(buffer)@[i],
                decreases width - x,
            {
                proof {
                    lemma_pixel_index(x as int, y as int, width as int, height as int);
                }
                let pixel: u32 = temp_buffer[row + x];
                if pixel != 0 {
                    let dx: i128 = (2 * (x as i128) - (width as i128)) * (HALF as i128);
                    let dy: i128 = (2 * (y as i128) - (height as i128)) * (HALF as i128);
                    if visibility_mask.should_show_point(dx, dy, center_x, center_y) {
                        buffer[row + x] = scale_alpha(pixel, visibility_mask.alpha_multiplier as i64);
                    }
                }
                x += 1;
            }
            proof {
                lemma_rows(y as int, width as int, height as int);
            }
            row += width;
            y += 1;
        }
        proof {
            lemma_rows(height as int, width as int, height as int);
        }
    }

    /// Paints the centre dot into `buffer`, which holds `height` rows of
    /// `width` pixels: a disc round the middle pixel, moved by the shake.
    pub fn draw_center_dot_with_effects(
        &self,
        buffer: &mut [u32],
        width: usize,
        height: usize,
        effects: &Effects,
        time: u64,
        waves: &FrameWaves,
    )
        requires
            old(buffer).len() == width * height,
        ensures
            final(buffer).len() == old(buffer).len(),
            forall|i: int|
                0 <= i < old(buffer).len() ==> final(buffer)@[i] == self.dot_pixel(
                    effects,
                    time as int,
                    waves,
                    i % (width as int),
                    i / (width as int),
                    width as int,
                    height as int,
                    old(buffer)@[i],
                ),
    {
        let center_x: i128 = (width / 2) as i128;
        let center_y: i128 = (height / 2) as i128;
        let dot_color: u32 = self.center_dot_frame_color(effects, time, waves.dot_pulse);
        let radius: i128 = (self.center_dot.size as i128) * (ONE as i128);
        let (shake_x, shake_y) = effects.shake.get_offset(waves.shake_x, waves.shake_y);
        let mut y: usize = 0;
        let mut row: usize = 0;
        while y < height
            invariant
                y <= height,
                row == y * width,
                buffer.len() == width * height,
                old(buffer).len() == width * height,
                center_x == width as int / 2,
                center_y == height as int / 2,
                radius == self.center_dot.size * ONE,
                dot_color == self.dot_color(effects, time as int, waves.dot_pulse as int),
                shake_x == effects.shake.offset(waves.shake_x as int, waves.shake_y as int).0,
                shake_y == effects.shake.offset(waves.shake_x as int, waves.shake_y as int).1,
                forall|i: int|
                    0 <= i < row ==> buffer@[i] == self.dot_pixel(
                        effects,
                        time as int,
                        waves,
                        i % (width as int),
                        i / (width as int),
                        width as int,
                        height as int,
                        old(buffer)@[i],
                    ),
                forall|i: int| row <= i < buffer.len() ==> buffer@[i] == old(buffer)@[i],
            decreases height - y,
        {
            let mut x: usize = 0;
            while x < width
                invariant
                    x <= width,
                    y < height,
                    row == y * width,
                    buffer.len() == width * height,
                    old(buffer).len() == width * height,
                    center_x == width as int / 2,
                    center_y == height as int / 2,
                    radius == self.center_dot.size * ONE,
                    dot_color == self.dot_color(effects, time as int, waves.dot_pulse as int),
                    shake_x == effects.shake.offset(waves.shake_x as int, waves.shake_y as int).0,
                    shake_y == effects.shake.offset(waves.shake_x as int, waves.shake_y as int).1,
                    forall|i: int|
                        0 <= i < row + x ==> buffer@[i] == self.dot_pixel(
                            effects,
                            time as int,
                            waves,
                            i % (width as int),
                            i / (width as int),
                            width as int,
                            height as int,
                            old(buffer)@[i],
                        ),
                    forall|i: int| row + x <= i < buffer.len() ==> buffer@[i] == old(buffer)@[i],
                decreases width - x,
            {
                proof {
                    lemma_pixel_index(x as int, y as int, width as int, height as int);
                }
                let dx: i128 = ((x as i128) - center_x) * (ONE as i128) - (shake_x as i128);
                let dy: i128 = ((y as i128) - center_y) * (ONE as i128) - (shake_y as i128);
                if within_radius(magnitude(dx), magnitude(dy), radius) {
                    buffer[row + x] = dot_color;
                }
                x += 1;
            }
            proof {
                lemma_rows(y as int, width as int, height as int);
            }
            row += width;
            y += 1;
        }
        proof {
            lemma_rows(height as int, width as int, height as int);
        }
    }

    /// Draws one frame of the reticle into `buffer`, which holds `height`
    /// rows of `width` pixels, over what the buffer holds. `time` is the
    /// time elapsed, in millionths of a second, on the clock that
    /// `mouse_state` counts by; `waves` holds the samples asked for by
    /// [`Effects::phases`] at that time.
    pub fn draw(
        &self,
        buffer: &mut [u32],
        width: usize,
        height: usize,
        effects: &Effects,
        time: u64,
        mouse_state: &MouseState,
        waves: &FrameWaves,
    )
        requires
            old(buffer).len() == width * height,
        ensures
            final(buffer).len() == old(buffer).len(),
            forall|i: int|
                0 <= i < old(buffer).len() ==> final(buffer)@[i] == self.frame_pixel(
                    effects,
                    time,
                    mouse_state,
                    waves,
                    i % (width as int),
                    i / (width as int),
                    width as int,
                    height as int,
                    old(buffer)@[i],
                ),
    {
        let (modified_gap, modified_size, modified_alpha, visibility_mask) =
            effects.mouse.apply_effects(self.gap, self.size, self.alpha, mouse_state, time);
        let modified_crosshair = self.modified(modified_gap, modified_size, modified_alpha);
        match self.style {
            CrosshairStyle::Classic => {
                let renderer = ClassicCrosshair;
                self.draw_with_visibility_mask(
                    &renderer,
                    &modified_crosshair,
                    buffer,
                    width,
                    height,
                    effects,
                    time,
                    waves,
                    &visibility_mask,
                );
            },
            CrosshairStyle::Dot => {
                let renderer = DotCrosshair;
                self.draw_with_visibility_mask(
                    &renderer,
                    &modified_crosshair,
                    buffer,
                    width,
                    height,
                    effects,
                    time,
                    waves,
                    &visibility_mask,
                );
            },
            CrosshairStyle::Cross => {
                let renderer = CrossCrosshair;
                self.draw_with_visibility_mask(
                    &renderer,
                    &modified_crosshair,
                    buffer,
                    width,
                    height,
                    effects,
                    time,
                    waves,
                    &visibility_mask,
                );
            },
            CrosshairStyle::Circle => {
                let renderer = CircleCrosshair;
                self.draw_with_visibility_mask(
                    &renderer,
                    &modified_crosshair,
                    buffer,
                    width,
                    height,
                    effects,
                    time,
                    waves,
                    &visibility_mask,
                );
            },
            CrosshairStyle::T => {
                let renderer = TShapeCrosshair;
                self.draw_with_visibility_mask(
                    &renderer,
                    &modified_crosshair,
                    buffer,
                    width,
                    height,
                    effects,
                    time,
                    waves,
                    &visibility_mask,
                );
            },
            CrosshairStyle::Plus => {
                let renderer = PlusCrosshair;
                self.draw_with_visibility_mask(
                    &renderer,
                    &modified_crosshair,
                    buffer,
                    width,
                    height,
                    effects,
                    time,
                    waves,
                    &visibility_mask,
                );
            },
            CrosshairStyle::X => {
                let renderer = XShapeCrosshair;
                self.draw_with_visibility_mask(
                    &renderer,
                    &modified_crosshair,
                    buffer,
                    width,
                    height,
                    effects,
                    time,
                    waves,
                    &visibility_mask,
                );
            },
            CrosshairStyle::Square => {
                let renderer = SquareCrosshair;
                self.draw_with_visibility_mask(
                    &renderer,
                    &modified_crosshair,
                    buffer,
                    width,
                    height,
                    effects,
                    time,
                    waves,
                    &visibility_mask,
                );
            },
            CrosshairStyle::Diamond => {
                let renderer = DiamondCrosshair;
                self.draw_with_visibility_mask(
                    &renderer,
                    &modified_crosshair,
                    buffer,
                    width,
                    height,
                    effects,
                    time,
                    waves,
                    &visibility_mask,
                );
            },
        }
        if self.center_dot.enabled && visibility_mask.show_center {
            self.draw_center_dot_with_effects(buffer, width, height, effects, time, waves);
        }
    }
}

/// Through a mask that shows everything and keeps all opacity, the painted
/// sheet arrives as it was painted. Only where the paint itself is the
/// transparent colour does the buffer keep what it held.
pub proof fn lemma_open_mask_lets_the_shape_through(
    style: CrosshairStyle,
    crosshair: &Crosshair,
    effects: &Effects,
    time: int,
    waves: &FrameWaves,
    x: int,
    y: int,
    width: int,
    height: int,
    under: u32,
)
    ensures
        masked_layer(
            style,
            crosshair,
            effects,
            time,
            waves,
            &VisibilityMask::everything(),
            x,
            y,
            width,
            height,
            under,
        ) == (if rendered_pixel(style, crosshair, effects, time, waves, x, y, width, height, TRANSPARENT)
            != TRANSPARENT {
            rendered_pixel(style, crosshair, effects, time, waves, x, y, width, height, TRANSPARENT)
        } else {
            under
        }),
{
    lemma_scaling_by_one_keeps_color(
        rendered_pixel(style, crosshair, effects, time, waves, x, y, width, height, TRANSPARENT),
    );
}

/// While the mouse effects are off, or no button is held, a frame is the
/// shape as the settings have it, let through whole, with the centre dot on
/// top where it is on.
pub proof fn lemma_frame_without_mouse_effects(
    crosshair: &Crosshair,
    effects: &Effects,
    time: u64,
    mouse_state: &MouseState,
    waves: &FrameWaves,
    x: int,
    y: int,
    width: int,
    height: int,
    under: u32,
)
    requires
        !effects.mouse.enabled || !mouse_state.is_pressed(),
    ensures
        crosshair.frame_pixel(effects, time, mouse_state, waves, x, y, width, height, under) == ({
            let shape = masked_layer(
                crosshair.style,
                crosshair,
                effects,
                time as int,
                waves,
                &VisibilityMask::everything(),
                x,
                y,
                width,
                height,
                under,
            );
            if crosshair.center_dot.enabled {
                crosshair.dot_pixel(effects, time as int, waves, x, y, width, height, shape)
            } else {
                shape
            }
        }),
{
    assert(crosshair.with_geometry(crosshair.gap, crosshair.size, crosshair.alpha) == *crosshair);
}

} // verus!
