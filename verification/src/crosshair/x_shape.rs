//! The X: two diagonal bands through the centre.

use vstd::prelude::*;
use crate::fixed::abs_int;
use crate::config::effects::Effects;
use crate::config::effects::FrameWaves;
use super::Crosshair;
use super::CrosshairRenderer;
use super::CrosshairStyle;
use super::raster::draw_shape;
use super::reach;
use super::reach_of;
use super::magnitude;

verus! {

/// The X-shaped reticle.
pub struct XShapeCrosshair;

/// Whether the point at `(lx, ly)` in the shape's own frame lies on the X:
/// within `size` of the centre along both axes, and within `width` of one of
/// the two diagonals, measured along an axis.
pub open spec fn on_x(lx: int, ly: int, size: int, width: int) -> bool {
    let ax = abs_int(lx);
    let ay = abs_int(ly);
    &&& ax <= size
    &&& ay <= size
    &&& (abs_int(ax - ay) <= width || abs_int(lx + ly) <= width)
}

impl XShapeCrosshair {
    /// Whether the pixel `(x, y)` of a buffer `width` by `height` belongs to
    /// the X of `crosshair`, whose bands are the thickness wide on either
    /// side.
    pub open spec fn covers(crosshair: &Crosshair, x: int, y: int, width: int, height: int) -> bool {
        on_x(
            crosshair.local_x(x, y, width, height),
            crosshair.local_y(x, y, width, height),
            reach(crosshair.size as int),
            reach(crosshair.thickness as int),
        )
    }

    /// Whether the pixel `(x, y)` of a buffer `width` by `height` belongs to
    /// the X of `crosshair`.
    pub fn is_on_x_shape(&self, crosshair: &Crosshair, x: usize, y: usize, width: usize, height: usize) -> (on: bool)
        ensures
            on == Self::covers(crosshair, x as int, y as int, width as int, height as int),
    {
        let (lx, ly) = crosshair.local_point(x, y, width, height);
        let dx: i128 = magnitude(lx);
        let dy: i128 = magnitude(ly);
        let size: i128 = reach_of(crosshair.size);
        let thickness: i128 = reach_of(crosshair.thickness);
        if dx > size || dy > size {
            return false;
        }
        let diag1 = magnitude(dx - dy) <= thickness;
        let diag2 = magnitude(lx + ly) <= thickness;
        diag1 || diag2
    }
}

impl CrosshairRenderer for XShapeCrosshair {
    open spec fn style(&self) -> CrosshairStyle {
        CrosshairStyle::X
    }

    fn draw(
        &self,
        crosshair: &Crosshair,
        buffer: &mut [u32],
        width: usize,
        height: usize,
        effects: &Effects,
        time: u64,
        waves: &FrameWaves,
    ) {
        draw_shape(CrosshairStyle::X, crosshair, buffer, width, height, effects, time, waves);
    }
}

} // verus!
