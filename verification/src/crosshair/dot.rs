//! The dot: a filled disc round the centre.

use vstd::prelude::*;
use crate::fixed::abs_int;
use super::square;
use super::within_radius;
use crate::config::effects::Effects;
use crate::config::effects::FrameWaves;
use super::Crosshair;
use super::CrosshairRenderer;
use super::CrosshairStyle;
use super::raster::draw_shape;
use super::reach;
use super::reach_of;
use super::magnitude;

verus! {

/// The dot reticle.
pub struct DotCrosshair;

/// Whether the point at `(lx, ly)` in the shape's own frame lies within
/// `radius` of the centre.
pub open spec fn on_disc(lx: int, ly: int, radius: int) -> bool {
    square(abs_int(lx)) + square(abs_int(ly)) <= square(radius)
}

impl DotCrosshair {
    /// Whether the pixel `(x, y)` of a buffer `width` by `height` belongs to
    /// the dot of `crosshair`: to the disc whose radius is the size.
    pub open spec fn covers(crosshair: &Crosshair, x: int, y: int, width: int, height: int) -> bool {
        on_disc(
            crosshair.local_x(x, y, width, height),
            crosshair.local_y(x, y, width, height),
            reach(crosshair.size as int),
        )
    }

    /// Whether the pixel `(x, y)` of a buffer `width` by `height` belongs to
    /// the dot of `crosshair`.
    pub fn is_on_dot(&self, crosshair: &Crosshair, x: usize, y: usize, width: usize, height: usize) -> (on: bool)
        ensures
            on == Self::covers(crosshair, x as int, y as int, width as int, height as int),
    {
        let (lx, ly) = crosshair.local_point(x, y, width, height);
        within_radius(magnitude(lx), magnitude(ly), reach_of(crosshair.size))
    }
}

impl CrosshairRenderer for DotCrosshair {
    open spec fn style(&self) -> CrosshairStyle {
        CrosshairStyle::Dot
    }

    fn draw(
        &self,
        crosshair: &Crosshair,
        buffer: &mut [u32],
        width: usize,
        height: usize,
        effects: &Effects,
        time: u64,
        waves: &FrameWaves,
    ) {
        draw_shape(CrosshairStyle::Dot, crosshair, buffer, width, height, effects, time, waves);
    }
}

} // verus!
