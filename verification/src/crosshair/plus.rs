//! The plus: a cross whose bars are twice as wide.

use vstd::prelude::*;
use super::cross::on_bars;
use crate::config::effects::Effects;
use crate::config::effects::FrameWaves;
use super::Crosshair;
use super::CrosshairRenderer;
use super::CrosshairStyle;
use super::raster::draw_shape;
use super::reach;
use super::reach_of;
use super::magnitude;

verus! {

/// The plus-shaped reticle.
pub struct PlusCrosshair;

impl PlusCrosshair {
    /// Whether the pixel `(x, y)` of a buffer `width` by `height` belongs to
    /// the plus of `crosshair`: to a bar the whole thickness wide on either
    /// side.
    pub open spec fn covers(crosshair: &Crosshair, x: int, y: int, width: int, height: int) -> bool {
        on_bars(
            crosshair.local_x(x, y, width, height),
            crosshair.local_y(x, y, width, height),
            reach(crosshair.size as int),
            reach(crosshair.thickness as int),
        )
    }

    /// Whether the pixel `(x, y)` of a buffer `width` by `height` belongs to
    /// the plus of `crosshair`.
    pub fn is_on_plus(&self, crosshair: &Crosshair, x: usize, y: usize, width: usize, height: usize) -> (on: bool)
        ensures
            on == Self::covers(crosshair, x as int, y as int, width as int, height as int),
    {
        let (lx, ly) = crosshair.local_point(x, y, width, height);
        let dx: i128 = magnitude(lx);
        let dy: i128 = magnitude(ly);
        let size: i128 = reach_of(crosshair.size);
        let thick: i128 = reach_of(crosshair.thickness);
        let on_horizontal = dy <= thick && dx <= size;
        let on_vertical = dx <= thick && dy <= size;
        on_horizontal || on_vertical
    }
}

impl CrosshairRenderer for PlusCrosshair {
    open spec fn style(&self) -> CrosshairStyle {
        CrosshairStyle::Plus
    }

    fn draw(
        &self,
        crosshair: &Crosshair,
        buffer: &mut [u32],
        width: usize,
        height: usize,
        effects: &Effects,
        time: u64,
        waves: &FrameWaves,
    ) {
        draw_shape(CrosshairStyle::Plus, crosshair, buffer, width, height, effects, time, waves);
    }
}

} // verus!
