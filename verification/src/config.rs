//! The configuration that a frame is drawn from.

use vstd::prelude::*;
use crate::fixed::ONE;
use crate::crosshair::Crosshair;
use crate::config::effects::mouse::MouseState;

pub mod effects;
pub mod window;

pub use effects::Effects;
pub use effects::FrameWaves;
pub use window::WindowConfig;

verus! {

/// Everything that is configured: the reticle, its effects, its window.
#[derive(Debug, Clone)]
pub struct CrosshairConfig {
    pub crosshair: Crosshair,
    pub effects: Effects,
    pub window: WindowConfig,
}

impl Default for CrosshairConfig {
    fn default() -> (config: Self)
        ensures
            config.crosshair.is_initial(),
            config.effects == Effects::initial(),
            config.window.is_initial(),
    {
        CrosshairConfig {
            crosshair: Crosshair::default(),
            effects: Effects::default(),
            window: WindowConfig::default(),
        }
    }
}

/// Whether a fixed-point value lies from zero to one.
pub open spec fn is_share(v: int) -> bool {
    0 <= v <= ONE
}

/// The complaint about a reticle of size zero.
pub open spec fn size_complaint() -> Seq<char> {
    "La taille du crosshair ne peut pas être 0"@
}

/// The complaint about a reticle of thickness zero.
pub open spec fn thickness_complaint() -> Seq<char> {
    "L'épaisseur du crosshair ne peut pas être 0"@
}

/// The complaint about a reticle whose opacity is not from zero to one.
pub open spec fn alpha_complaint() -> Seq<char> {
    "L'alpha du crosshair doit être entre 0.0 et 1.0"@
}

/// The complaint about a pulse whose lower opacity is not from zero to one.
pub open spec fn pulse_min_complaint() -> Seq<char> {
    "L'alpha minimum du pulse doit être entre 0.0 et 1.0"@
}

/// The complaint about a pulse whose upper opacity is not from zero to one.
pub open spec fn pulse_max_complaint() -> Seq<char> {
    "L'alpha maximum du pulse doit être entre 0.0 et 1.0"@
}

/// The complaint about a window of size zero.
pub open spec fn window_complaint() -> Seq<char> {
    "La taille de la fenêtre ne peut pas être 0"@
}

/// `list` with `complaint` at its end where `due`, else `list`.
pub open spec fn with_complaint(list: Seq<Seq<char>>, due: bool, complaint: Seq<char>) -> Seq<Seq<char>> {
    if due {
        list.push(complaint)
    } else {
        list
    }
}

impl CrosshairConfig {
    /// What is wrong with the configuration, in the order of the checks: the
    /// reticle's size, thickness and opacity, the two opacities of a pulse
    /// that is on, the window's size.
    pub open spec fn complaints(&self) -> Seq<Seq<char>> {
        let none = Seq::<Seq<char>>::empty();
        let a = with_complaint(none, self.crosshair.size == 0, size_complaint());
        let b = with_complaint(a, self.crosshair.thickness == 0, thickness_complaint());
        let c = with_complaint(b, !is_share(self.crosshair.alpha as int), alpha_complaint());
        let d = with_complaint(
            c,
            self.effects.pulse.enabled && !is_share(self.effects.pulse.min_alpha as int),
            pulse_min_complaint(),
        );
        let e = with_complaint(
            d,
            self.effects.pulse.enabled && !is_share(self.effects.pulse.max_alpha as int),
            pulse_max_complaint(),
        );
        with_complaint(e, self.window.size == 0, window_complaint())
    }

    /// Whether the configuration is free of complaints.
    pub open spec fn is_valid(&self) -> bool {
        self.complaints().len() == 0
    }

    /// The colour of the pixel `(x, y)` of a window's frame: the reticle's
    /// frame over the window's background.
    pub open spec fn window_pixel(
        &self,
        time: u64,
        mouse_state: &MouseState,
        waves: &FrameWaves,
        x: int,
        y: int,
        width: int,
        height: int,
    ) -> u32 {
        self.crosshair.frame_pixel(
            &self.effects,
            time,
            mouse_state,
            waves,
            x,
            y,
            width,
            height,
            self.window.background.fill(),
        )
    }

    /// Checks the configuration and lists what is wrong with it; an empty
    /// list means that nothing is.
    pub fn validate(&self) -> (errors: Vec<String>)
        ensures
            errors@.len() == self.complaints().len(),
            forall|i: int| 0 <= i < errors@.len() ==> (#[trigger] errors@[i])@ == self.complaints()[i],
    {
        let mut errors: Vec<String> = Vec::new();
        if self.crosshair.size == 0 {
            errors.push("La taille du crosshair ne peut pas être 0".to_owned());
        }
        if self.crosshair.thickness == 0 {
            errors.push("L'épaisseur du crosshair ne peut pas être 0".to_owned());
        }
        if self.crosshair.alpha < 0 || self.crosshair.alpha > ONE {
            errors.push("L'alpha du crosshair doit être entre 0.0 et 1.0".to_owned());
        }
        if self.effects.pulse.enabled && (self.effects.pulse.min_alpha < 0
            || self.effects.pulse.min_alpha > ONE) {
            errors.push("L'alpha minimum du pulse doit être entre 0.0 et 1.0".to_owned());
        }
        if self.effects.pulse.enabled && (self.effects.pulse.max_alpha < 0
            || self.effects.pulse.max_alpha > ONE) {
            errors.push("L'alpha maximum du pulse doit être entre 0.0 et 1.0".to_owned());
        }
        if self.window.size == 0 {
            errors.push("La taille de la fenêtre ne peut pas être 0".to_owned());
        }
        errors
    }

    /// Draws one frame of the window into `buffer`, which holds `height`
    /// rows of `width` pixels: the background first, the reticle over it.
    /// What the buffer held is gone.
    pub fn redraw(
        &self,
        buffer: &mut [u32],
        width: usize,
        height: usize,
        time: u64,
        mouse_state: &MouseState,
        waves: &FrameWaves,
    )
        requires
            old(buffer).len() == width * height,
        ensures
            final(buffer).len() == old(buffer).len(),
            forall|i: int|
                0 <= i < old(buffer).len() ==> final(buffer)@[i] == self.window_pixel(
                    time,
                    mouse_state,
                    waves,
                    i % (width as int),
                    i / (width as int),
                    width as int,
                    height as int,
                ),
    {
        let background: u32 = self.window.background.fill_color();
        let len: usize = buffer.len();
        let mut i: usize = 0;
        while i < len
            invariant
                i <= len,
                len == buffer.len(),
                buffer.len() == old(buffer).len(),
                forall|j: int| 0 <= j < i ==> buffer@[j] == background,
            decreases len - i,
        {
            buffer[i] = background;
            i += 1;
        }
        self.crosshair.draw(buffer, width, height, &self.effects, time, mouse_state, waves);
    }
}

} // verus!
