//! The cross: two bars through the centre, without a gap.

use vstd::prelude::*;
use crate::fixed::abs_int;
use super::half_reach;
use super::half_reach_of;
use crate::config::effects::Effects;
use crate::config::effects::FrameWaves;
use super::Crosshair;
use super::CrosshairRenderer;
use super::CrosshairStyle;
use super::raster::draw_shape;
use super::reach;
use super::reach_of;
use super::magnitude;

verus! {

/// The cross-shaped reticle.
pub struct CrossCrosshair;

/// Whether the point at `(lx, ly)` in the shape's own frame lies on one of
/// two bars through the centre, each reaching `size` either way and `half_width`
/// to either side, both in local units.
pub open spec fn on_bars(lx: int, ly: int, size: int, half_width: int) -> bool {
    let ax = abs_int(lx);
    let ay = abs_int(ly);
    (ay <= half_width && ax <= size) || (ax <= half_width && ay <= size)
}

impl CrossCrosshair {
    /// Whether the pixel `(x, y)` of a buffer `width` by `height` belongs to
    /// the cross of `crosshair`: to a bar half the thickness wide on either
    /// side.
    pub open spec fn covers(crosshair: &Crosshair, x: int, y: int, width: int, height: int) -> bool {
        on_bars(
            crosshair.local_x(x, y, width, height),
            crosshair.local_y(x, y, width, height),
            reach(crosshair.size as int),
            half_reach(crosshair.thickness as int),
        )
    }

    /// Whether the pixel `(x, y)` of a buffer `width` by `height` belongs to
    /// the cross of `crosshair`.
    pub fn is_on_cross(&self, crosshair: &Crosshair, x: usize, y: usize, width: usize, height: usize) -> (on: bool)
        ensures
            on == Self::covers(crosshair, x as int, y as int, width as int, height as int),
    {
        let (lx, ly) = crosshair.local_point(x, y, width, height);
        let dx: i128 = magnitude(lx);
        let dy: i128 = magnitude(ly);
        let size: i128 = reach_of(crosshair.size);
        let thickness: i128 = half_reach_of(crosshair.thickness);
        let on_horizontal = dy <= thickness && dx <= size;
        let on_vertical = dx <= thickness && dy <= size;
        on_horizontal || on_vertical
    }
}

impl CrosshairRenderer for CrossCrosshair {
    open spec fn style(&self) -> CrosshairStyle {
        CrosshairStyle::Cross
    }

    fn draw(
        &self,
        crosshair: &Crosshair,
        buffer: &mut [u32],
        width: usize,
        height: usize,
        effects: &Effects,
        time: u64,
        waves: &FrameWaves,
    ) {
        draw_shape(CrosshairStyle::Cross, crosshair, buffer, width, height, effects, time, waves);
    }
}

} // verus!
