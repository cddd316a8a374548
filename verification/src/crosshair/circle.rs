//! The circle: a ring, or a disc with a hole.

use vstd::prelude::*;
use crate::fixed::abs_int;
use crate::fixed::max_int;
use super::square;
use super::within_radius;
use super::beyond_radius;
use crate::config::effects::Effects;
use crate::config::effects::FrameWaves;
use super::Crosshair;
use super::CrosshairRenderer;
use super::CrosshairStyle;
use super::raster::draw_shape;
use super::reach;
use super::reach_of;
use super::magnitude;

verus! {

/// The circle reticle.
pub struct CircleCrosshair;

/// The inner radius of the circle in pixels. A filled circle begins at the
/// gap. A ring is the thickness wide, but begins no nearer to the centre
/// than the gap.
pub open spec fn inner_radius(size: int, thickness: int, gap: int, filled: bool) -> int {
    if filled {
        gap
    } else {
        max_int(size - thickness, gap)
    }
}

/// Whether the point at `(lx, ly)` in the shape's own frame lies at least
/// `inner` and at most `outer` from the centre.
pub open spec fn on_ring(lx: int, ly: int, inner: int, outer: int) -> bool {
    let distance_squared = square(abs_int(lx)) + square(abs_int(ly));
    square(inner) <= distance_squared <= square(outer)
}

impl CircleCrosshair {
    /// Whether the pixel `(x, y)` of a buffer `width` by `height` belongs to
    /// the circle of `crosshair`.
    pub open spec fn covers(crosshair: &Crosshair, x: int, y: int, width: int, height: int) -> bool {
        on_ring(
            crosshair.local_x(x, y, width, height),
            crosshair.local_y(x, y, width, height),
            reach(
                inner_radius(
                    crosshair.size as int,
                    crosshair.thickness as int,
                    crosshair.gap as int,
                    crosshair.filled_circle,
                ),
            ),
            reach(crosshair.size as int),
        )
    }

    /// Whether the pixel `(x, y)` of a buffer `width` by `height` belongs to
    /// the circle of `crosshair`.
    pub fn is_on_circle(&self, crosshair: &Crosshair, x: usize, y: usize, width: usize, height: usize) -> (on: bool)
        ensures
            on == Self::covers(crosshair, x as int, y as int, width as int, height as int),
    {
        let (lx, ly) = crosshair.local_point(x, y, width, height);
        let dx: i128 = magnitude(lx);
        let dy: i128 = magnitude(ly);
        let inner: u32 = if crosshair.filled_circle {
            crosshair.gap
        } else if crosshair.size >= crosshair.thickness && crosshair.size - crosshair.thickness
            > crosshair.gap {
            crosshair.size - crosshair.thickness
        } else {
            crosshair.gap
        };
        beyond_radius(dx, dy, reach_of(inner)) && within_radius(dx, dy, reach_of(crosshair.size))
    }
}

impl CrosshairRenderer for CircleCrosshair {
    open spec fn style(&self) -> CrosshairStyle {
        CrosshairStyle::Circle
    }

    fn draw(
        &self,
        crosshair: &Crosshair,
        buffer: &mut [u32],
        width: usize,
        height: usize,
        effects: &Effects,
        time: u64,
        waves: &FrameWaves,
    ) {
        draw_shape(CrosshairStyle::Circle, crosshair, buffer, width, height, effects, time, waves);
    }
}

} // verus!
