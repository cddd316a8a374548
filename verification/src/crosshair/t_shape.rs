//! The T: a bar through the centre with a stem below it.

use vstd::prelude::*;
use crate::fixed::abs_int;
use super::half_reach;
use super::half_reach_of;
use crate::config::effects::Effects;
use crate::config::effects::FrameWaves;
use super::Crosshair;
use super::CrosshairRenderer;
use super::CrosshairStyle;
use super::raster::draw_shape;
use super::reach;
use super::reach_of;
use super::magnitude;

verus! {

/// The T-shaped reticle.
pub struct TShapeCrosshair;

/// Whether the point at `(lx, ly)` in the shape's own frame lies on the T:
/// on the bar, which reaches `size` to either side of the centre, or on the
/// stem, which reaches `size` from the centre in the direction of growing
/// `ly` only. Both are `half_width` wide on either side.
pub open spec fn on_t(lx: int, ly: int, size: int, half_width: int) -> bool {
    let ax = abs_int(lx);
    let ay = abs_int(ly);
    (ay <= half_width && ax <= size) || (ax <= half_width && ly >= 0 && ay <= size)
}

impl TShapeCrosshair {
    /// Whether the pixel `(x, y)` of a buffer `width` by `height` belongs to
    /// the T of `crosshair`.
    pub open spec fn covers(crosshair: &Crosshair, x: int, y: int, width: int, height: int) -> bool {
        on_t(
            crosshair.local_x(x, y, width, height),
            crosshair.local_y(x, y, width, height),
            reach(crosshair.size as int),
            half_reach(crosshair.thickness as int),
        )
    }

    /// Whether the pixel `(x, y)` of a buffer `width` by `height` belongs to
    /// the T of `crosshair`.
    pub fn is_on_t_shape(&self, crosshair: &Crosshair, x: usize, y: usize, width: usize, height: usize) -> (on: bool)
        ensures
            on == Self::covers(crosshair, x as int, y as int, width as int, height as int),
    {
        let (lx, ly) = crosshair.local_point(x, y, width, height);
        let dx: i128 = magnitude(lx);
        let dy: i128 = magnitude(ly);
        let size: i128 = reach_of(crosshair.size);
        let thickness: i128 = half_reach_of(crosshair.thickness);
        let on_horizontal = dy <= thickness && dx <= size;
        let on_vertical = dx <= thickness && ly >= 0 && dy <= size;
        on_horizontal || on_vertical
    }
}

impl CrosshairRenderer for TShapeCrosshair {
    open spec fn style(&self) -> CrosshairStyle {
        CrosshairStyle::T
    }

    fn draw(
        &self,
        crosshair: &Crosshair,
        buffer: &mut [u32],
        width: usize,
        height: usize,
        effects: &Effects,
        time: u64,
        waves: &FrameWaves,
    ) {
        draw_shape(CrosshairStyle::T, crosshair, buffer, width, height, effects, time, waves);
    }
}

} // verus!
