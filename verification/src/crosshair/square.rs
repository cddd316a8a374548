//! The square: a filled square with a square hole.

use vstd::prelude::*;
use crate::fixed::abs_int;
use crate::config::effects::Effects;
use crate::config::effects::FrameWaves;
use super::Crosshair;
use super::CrosshairRenderer;
use super::CrosshairStyle;
use super::raster::draw_shape;
use super::reach;
use super::reach_of;
use super::magnitude;

verus! {

/// The square reticle.
pub struct SquareCrosshair;

/// Whether the point at `(lx, ly)` in the shape's own frame lies on the
/// square: within `size` of the centre along both axes, but not within `gap`
/// of it along both.
pub open spec fn on_square(lx: int, ly: int, size: int, gap: int) -> bool {
    let ax = abs_int(lx);
    let ay = abs_int(ly);
    !(ax <= gap && ay <= gap) && ax <= size && ay <= size
}

impl SquareCrosshair {
    /// Whether the pixel `(x, y)` of a buffer `width` by `height` belongs to
    /// the square of `crosshair`.
    pub open spec fn covers(crosshair: &Crosshair, x: int, y: int, width: int, height: int) -> bool {
        on_square(
            crosshair.local_x(x, y, width, height),
            crosshair.local_y(x, y, width, height),
            reach(crosshair.size as int),
            reach(crosshair.gap as int),
        )
    }

    /// Whether the pixel `(x, y)` of a buffer `width` by `height` belongs to
    /// the square of `crosshair`.
    pub fn is_on_square(&self, crosshair: &Crosshair, x: usize, y: usize, width: usize, height: usize) -> (on: bool)
        ensures
            on == Self::covers(crosshair, x as int, y as int, width as int, height as int),
    {
        let (lx, ly) = crosshair.local_point(x, y, width, height);
        let dx: i128 = magnitude(lx);
        let dy: i128 = magnitude(ly);
        let size: i128 = reach_of(crosshair.size);
        let gap: i128 = reach_of(crosshair.gap);
        if dx <= gap && dy <= gap {
            return false;
        }
        dx <= size && dy <= size
    }
}

impl CrosshairRenderer for SquareCrosshair {
    open spec fn style(&self) -> CrosshairStyle {
        CrosshairStyle::Square
    }

    fn draw(
        &self,
        crosshair: &Crosshair,
        buffer: &mut [u32],
        width: usize,
        height: usize,
        effects: &Effects,
        time: u64,
        waves: &FrameWaves,
    ) {
        draw_shape(CrosshairStyle::Square, crosshair, buffer, width, height, effects, time, waves);
    }
}

} // verus!
