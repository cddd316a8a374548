//! The diamond: a band between two diamonds round the centre.

use vstd::prelude::*;
use crate::fixed::abs_int;
use crate::config::effects::Effects;
use crate::config::effects::FrameWaves;
use super::Crosshair;
use super::CrosshairRenderer;
use super::CrosshairStyle;
use super::raster::draw_shape;
use super::reach;
use super::reach_of;
use super::magnitude;

verus! {

/// The diamond reticle.
pub struct DiamondCrosshair;

/// Whether the point at `(lx, ly)` in the shape's own frame lies on the
/// diamond: the sum of its distances from the centre along the two axes is
/// more than `gap` and at most `size`.
pub open spec fn on_diamond(lx: int, ly: int, size: int, gap: int) -> bool {
    let manhattan = abs_int(lx) + abs_int(ly);
    gap < manhattan <= size
}

impl DiamondCrosshair {
    /// Whether the pixel `(x, y)` of a buffer `width` by `height` belongs to
    /// the diamond of `crosshair`.
    pub open spec fn covers(crosshair: &Crosshair, x: int, y: int, width: int, height: int) -> bool {
        on_diamond(
            crosshair.local_x(x, y, width, height),
            crosshair.local_y(x, y, width, height),
            reach(crosshair.size as int),
            reach(crosshair.gap as int),
        )
    }

    /// Whether the pixel `(x, y)` of a buffer `width` by `height` belongs to
    /// the diamond of `crosshair`.
    pub fn is_on_diamond(&self, crosshair: &Crosshair, x: usize, y: usize, width: usize, height: usize) -> (on: bool)
        ensures
            on == Self::covers(crosshair, x as int, y as int, width as int, height as int),
    {
        let (lx, ly) = crosshair.local_point(x, y, width, height);
        let dx: i128 = magnitude(lx);
        let dy: i128 = magnitude(ly);
        let size: i128 = reach_of(crosshair.size);
        let gap: i128 = reach_of(crosshair.gap);
        let manhattan_distance: i128 = dx + dy;
        if manhattan_distance <= gap {
            return false;
        }
        manhattan_distance <= size
    }
}

/// Of the points round the centre, told apart by the sum of their distances
/// along the two axes, the diamond holds those between the gap and the
/// size: a point at the gap or nearer is off it, one beyond the gap and up
/// to the size is on it, one beyond the size is off it.
pub proof fn lemma_diamond_band(lx: int, ly: int, size: int, gap: int)
    ensures
        abs_int(lx) + abs_int(ly) <= gap ==> !on_diamond(lx, ly, size, gap),
        gap < abs_int(lx) + abs_int(ly) <= size ==> on_diamond(lx, ly, size, gap),
        abs_int(lx) + abs_int(ly) > size ==> !on_diamond(lx, ly, size, gap),
{
}

impl CrosshairRenderer for DiamondCrosshair {
    open spec fn style(&self) -> CrosshairStyle {
        CrosshairStyle::Diamond
    }

    fn draw(
        &self,
        crosshair: &Crosshair,
        buffer: &mut [u32],
        width: usize,
        height: usize,
        effects: &Effects,
        time: u64,
        waves: &FrameWaves,
    ) {
        draw_shape(CrosshairStyle::Diamond, crosshair, buffer, width, height, effects, time, waves);
    }
}

} // verus!
