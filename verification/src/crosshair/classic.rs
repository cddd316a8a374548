//! The classic shape: four arms that leave a gap round the centre.

use vstd::prelude::*;
use crate::fixed::abs_int;
use crate::fixed::lemma_mul_bound;
use super::half_reach;
use super::half_reach_of;
use crate::config::effects::Effects;
use crate::config::effects::FrameWaves;
use super::Crosshair;
use super::CrosshairRenderer;
use super::CrosshairStyle;
use super::raster::draw_shape;
use super::reach;
use super::reach_of;
use super::magnitude;

verus! {

/// The classic reticle.
pub struct ClassicCrosshair;

/// Whether a point lies on one straight arm: `along` is its distance from
/// the centre along the arm and `across` its distance from the arm's middle
/// line, both in local units. The arm runs from the gap to the size and is
/// half the thickness wide on either side.
pub open spec fn on_straight_arm(along: int, across: int, size: int, thickness: int, gap: int) -> bool {
    across <= half_reach(thickness) && reach(gap) <= along <= reach(size)
}

/// Whether a point lies on one tapered arm. The arm's half width grows in
/// proportion from nothing where the arm begins, at the gap, to half the
/// thickness where it ends, at the size. An arm without length, where size
/// and gap are equal, has no width.
pub open spec fn on_tapered_arm(along: int, across: int, size: int, thickness: int, gap: int) -> bool {
    &&& across <= half_reach(thickness)
    &&& reach(gap) <= along <= reach(size)
    &&& if size > gap {
        2 * across * (size - gap) <= thickness * (along - reach(gap))
    } else {
        across <= 0
    }
}

/// Whether the point at `(lx, ly)` in the shape's own frame lies on the
/// classic shape: on the arm along either axis.
pub open spec fn on_classic(lx: int, ly: int, size: int, thickness: int, gap: int, tapered: bool) -> bool {
    let ax = abs_int(lx);
    let ay = abs_int(ly);
    if tapered {
        on_tapered_arm(ax, ay, size, thickness, gap) || on_tapered_arm(ay, ax, size, thickness, gap)
    } else {
        on_straight_arm(ax, ay, size, thickness, gap) || on_straight_arm(ay, ax, size, thickness, gap)
    }
}

impl ClassicCrosshair {
    /// Whether the pixel `(x, y)` of a buffer `width` by `height` belongs to
    /// the classic shape of `crosshair`.
    pub open spec fn covers(crosshair: &Crosshair, x: int, y: int, width: int, height: int) -> bool {
        on_classic(
            crosshair.local_x(x, y, width, height),
            crosshair.local_y(x, y, width, height),
            crosshair.size as int,
            crosshair.thickness as int,
            crosshair.gap as int,
            crosshair.triangle_bars,
        )
    }

    /// Whether a point lies on one tapered arm.
    pub fn is_on_tapered_arm(along: i128, across: i128, size: u32, thickness: u32, gap: u32) -> (on: bool)
        requires
            0 <= along,
            0 <= across,
        ensures
            on == on_tapered_arm(along as int, across as int, size as int, thickness as int, gap as int),
    {
        if across > half_reach_of(thickness) || along < reach_of(gap) || along > reach_of(size) {
            return false;
        }
        if size > gap {
            let run: i128 = (size - gap) as i128;
            let progress: i128 = along - reach_of(gap);
            proof {
                lemma_mul_bound(2 * across, run as int, 0x20_0000_0000_0000, 0x1_0000_0000);
                lemma_mul_bound(thickness as int, progress as int, 0x1_0000_0000, 0x20_0000_0000_0000);
            }
            2 * across * run <= (thickness as i128) * progress
        } else {
            across <= 0
        }
    }

    /// Whether the pixel `(x, y)` of a buffer `width` by `height` belongs to
    /// the classic shape of `crosshair`.
    pub fn is_on_classic_line(&self, crosshair: &Crosshair, x: usize, y: usize, width: usize, height: usize) -> (on: bool)
        ensures
            on == Self::covers(crosshair, x as int, y as int, width as int, height as int),
    {
        let (lx, ly) = crosshair.local_point(x, y, width, height);
        let dx: i128 = magnitude(lx);
        let dy: i128 = magnitude(ly);
        let size: i128 = reach_of(crosshair.size);
        let thickness: i128 = half_reach_of(crosshair.thickness);
        let gap: i128 = reach_of(crosshair.gap);
        if crosshair.triangle_bars {
            let on_horizontal = Self::is_on_tapered_arm(
                dx,
                dy,
                crosshair.size,
                crosshair.thickness,
                crosshair.gap,
            );
            let on_vertical = Self::is_on_tapered_arm(
                dy,
                dx,
                crosshair.size,
                crosshair.thickness,
                crosshair.gap,
            );
            on_horizontal || on_vertical
        } else {
            let on_horizontal = dy <= thickness && dx <= size && dx >= gap;
            let on_vertical = dx <= thickness && dy <= size && dy >= gap;
            on_horizontal || on_vertical
        }
    }
}

impl CrosshairRenderer for ClassicCrosshair {
    open spec fn style(&self) -> CrosshairStyle {
        CrosshairStyle::Classic
    }

    fn draw(
        &self,
        crosshair: &Crosshair,
        buffer: &mut [u32],
        width: usize,
        height: usize,
        effects: &Effects,
        time: u64,
        waves: &FrameWaves,
    ) {
        draw_shape(CrosshairStyle::Classic, crosshair, buffer, width, height, effects, time, waves);
    }
}

} // verus!
