//! Effects that react to the mouse buttons.

use vstd::prelude::*;
use crate::fixed::ONE;
use crate::fixed::abs_int;

pub mod capture;
pub mod gap_effect;
pub mod visibility_effect;

pub use capture::MouseCapture;
pub use capture::get_global_mouse_state;
pub use capture::has_mouse_state_changed;
pub use capture::set_button_state;
pub use gap_effect::GapEffect;
pub use visibility_effect::VisibilityEffect;

verus! {

/// Which buttons are held, and since when.
///
/// `press_time` is the moment, in millionths of a second on the caller's
/// clock, at which the first button of the current press went down. It stays
/// while any button is held and is `None` while none is.
#[derive(Debug, Clone, Copy)]
pub struct MouseState {
    pub left_pressed: bool,
    pub right_pressed: bool,
    pub middle_pressed: bool,
    pub press_time: Option<u64>,
}

impl Default for MouseState {
    fn default() -> (state: Self)
        ensures
            state == MouseState::released(),
    {
        MouseState { left_pressed: false, right_pressed: false, middle_pressed: false, press_time: None }
    }
}

impl MouseState {
    /// The state with no button held.
    pub open spec fn released() -> MouseState {
        MouseState { left_pressed: false, right_pressed: false, middle_pressed: false, press_time: None }
    }

    /// Whether some button is held.
    pub open spec fn is_pressed(&self) -> bool {
        self.left_pressed || self.right_pressed || self.middle_pressed
    }

    /// How long the current press has lasted at time `now`, in millionths of
    /// a second: zero while no press is under way, and never negative.
    pub open spec fn held_for(&self, now: int) -> int {
        match self.press_time {
            Some(start) => if now >= start { now - start } else { 0 },
            None => 0,
        }
    }

    /// Whether some button is held.
    pub fn any_pressed(&self) -> (pressed: bool)
        ensures
            pressed == self.is_pressed(),
    {
        self.left_pressed || self.right_pressed || self.middle_pressed
    }

    /// How long the current press has lasted at time `now`.
    pub fn press_duration(&self, now: u64) -> (duration: u64)
        ensures
            duration == self.held_for(now as int),
    {
        match self.press_time {
            Some(start) => if now >= start { now - start } else { 0 },
            None => 0,
        }
    }
}

/// Which parts of the reticle are shown, and how much of their opacity is kept.
#[derive(Debug, Clone, Copy)]
pub struct VisibilityMask {
    pub show_full: bool,
    pub show_left: bool,
    pub show_right: bool,
    pub show_top: bool,
    pub show_bottom: bool,
    pub show_center: bool,
    /// The fixed-point factor applied to the opacity of what is shown.
    pub alpha_multiplier: i32,
}

impl Default for VisibilityMask {
    fn default() -> (mask: Self)
        ensures
            mask == VisibilityMask::everything(),
    {
        VisibilityMask {
            show_full: true,
            show_left: true,
            show_right: true,
            show_top: true,
            show_bottom: true,
            show_center: true,
            alpha_multiplier: ONE,
        }
    }
}

impl VisibilityMask {
    /// The mask that hides nothing and keeps all opacity.
    pub open spec fn everything() -> VisibilityMask {
        VisibilityMask {
            show_full: true,
            show_left: true,
            show_right: true,
            show_top: true,
            show_bottom: true,
            show_center: true,
            alpha_multiplier: ONE,
        }
    }

    /// Whether an offset from the centre, in millionths of a pixel, lies in
    /// the box of three pixels each way round the centre.
    pub open spec fn in_center_box(dx: int, dy: int) -> bool {
        abs_int(dx) <= 3 * ONE && abs_int(dy) <= 3 * ONE
    }

    /// Whether the point at offset `(dx, dy)` from the centre
    /// `(center_x, center_y)` is shown. Inside the centre box `show_center`
    /// alone decides. Outside it the point must pass the flag of each side it
    /// lies on: left or right of the centre, above or below it.
    pub open spec fn shows(&self, dx: int, dy: int, center_x: int, center_y: int) -> bool {
        let x_pos = dx + center_x;
        let y_pos = dy + center_y;
        if Self::in_center_box(dx, dy) {
            self.show_center
        } else {
            &&& x_pos < center_x ==> self.show_left
            &&& x_pos > center_x ==> self.show_right
            &&& y_pos < center_y ==> self.show_top
            &&& y_pos > center_y ==> self.show_bottom
        }
    }

    /// Whether the point at offset `(dx, dy)` from the centre is shown. All
    /// four arguments are in millionths of a pixel.
    pub fn should_show_point(&self, dx: i128, dy: i128, center_x: i128, center_y: i128) -> (shown: bool)
        ensures
            shown == self.shows(dx as int, dy as int, center_x as int, center_y as int),
            Self::in_center_box(dx as int, dy as int) ==> shown == self.show_center,
            !Self::in_center_box(dx as int, dy as int) ==> shown == ((dx < 0 ==> self.show_left) && (dx > 0
                ==> self.show_right) && (dy < 0 ==> self.show_top) && (dy > 0 ==> self.show_bottom)),
    {
        let box_half: i128 = 3 * (ONE as i128);
        if -box_half <= dx && dx <= box_half && -box_half <= dy && dy <= box_half {
            return self.show_center;
        }
        if dx < 0 && !self.show_left {
            return false;
        }
        if dx > 0 && !self.show_right {
            return false;
        }
        if dy < 0 && !self.show_top {
            return false;
        }
        if dy > 0 && !self.show_bottom {
            return false;
        }
        true
    }
}

/// The mouse-driven effects: one on the gap, one on visibility.
#[derive(Debug, Clone, Copy)]
pub struct MouseEffect {
    pub enabled: bool,
    pub gap_effect: GapEffect,
    pub visibility_effect: VisibilityEffect,
}

impl Default for MouseEffect {
    fn default() -> (effect: Self)
        ensures
            effect == MouseEffect::initial(),
    {
        MouseEffect {
            enabled: false,
            gap_effect: GapEffect::default(),
            visibility_effect: VisibilityEffect::default(),
        }
    }
}

impl MouseEffect {
    /// The settings the mouse effects start from: off, each effect as it
    /// starts.
    pub open spec fn initial() -> MouseEffect {
        MouseEffect {
            enabled: false,
            gap_effect: GapEffect::initial(),
            visibility_effect: VisibilityEffect::initial(),
        }
    }

    /// Gap, size, opacity and mask, in this order, under the effects. The gap lane and the
    /// visibility lane do not touch each other; with the effects off, or no
    /// button held, everything is as it was and nothing is hidden.
    pub open spec fn outcome(
        &self,
        gap: u32,
        size: u32,
        alpha: i32,
        mouse_state: &MouseState,
        now: u64,
    ) -> (int, int, int, VisibilityMask) {
        if !self.enabled || !mouse_state.is_pressed() {
            (gap as int, size as int, alpha as int, VisibilityMask::everything())
        } else {
            let geometry = self.gap_effect.applied(gap, size, mouse_state, now);
            let seen = self.visibility_effect.applied(alpha, mouse_state, now);
            (geometry.0, geometry.1, seen.0, seen.1)
        }
    }

    /// Applies both mouse effects at time `now`.
    pub fn apply_effects(
        &self,
        original_gap: u32,
        original_size: u32,
        original_alpha: i32,
        mouse_state: &MouseState,
        now: u64,
    ) -> (result: (u32, u32, i32, VisibilityMask))
        ensures
            result.0 == self.outcome(original_gap, original_size, original_alpha, mouse_state, now).0,
            result.1 == self.outcome(original_gap, original_size, original_alpha, mouse_state, now).1,
            result.2 == self.outcome(original_gap, original_size, original_alpha, mouse_state, now).2,
            result.3 == self.outcome(original_gap, original_size, original_alpha, mouse_state, now).3,
    {
        if !self.enabled || !mouse_state.any_pressed() {
            return (original_gap, original_size, original_alpha, VisibilityMask::default());
        }
        let (modified_gap, modified_size) = self.gap_effect.apply_gap(
            original_gap,
            original_size,
            mouse_state,
            now,
        );
        let (modified_alpha, visibility_mask) = self.visibility_effect.apply_visibility(
            original_alpha,
            mouse_state,
            now,
        );
        (modified_gap, modified_size, modified_alpha, visibility_mask)
    }
}

/// The gap lane does not look at the visibility lane: gap and size come out
/// the same whatever the opacity and the visibility effect are.
pub proof fn lemma_gap_lane_ignores_visibility(
    a: MouseEffect,
    b: MouseEffect,
    gap: u32,
    size: u32,
    alpha_a: i32,
    alpha_b: i32,
    mouse_state: MouseState,
    now: u64,
)
    requires
        a.enabled == b.enabled,
        a.gap_effect == b.gap_effect,
    ensures
        a.outcome(gap, size, alpha_a, &mouse_state, now).0 == b.outcome(gap, size, alpha_b, &mouse_state, now).0,
        a.outcome(gap, size, alpha_a, &mouse_state, now).1 == b.outcome(gap, size, alpha_b, &mouse_state, now).1,
{
}

/// The visibility lane does not look at the gap lane: opacity and mask come
/// out the same whatever gap, size and the gap effect are.
pub proof fn lemma_visibility_lane_ignores_gap(
    a: MouseEffect,
    b: MouseEffect,
    gap_a: u32,
    size_a: u32,
    gap_b: u32,
    size_b: u32,
    alpha: i32,
    mouse_state: MouseState,
    now: u64,
)
    requires
        a.enabled == b.enabled,
        a.visibility_effect == b.visibility_effect,
    ensures
        a.outcome(gap_a, size_a, alpha, &mouse_state, now).2 == b.outcome(gap_b, size_b, alpha, &mouse_state, now).2,
        a.outcome(gap_a, size_a, alpha, &mouse_state, now).3 == b.outcome(gap_b, size_b, alpha, &mouse_state, now).3,
{
}

} // verus!
