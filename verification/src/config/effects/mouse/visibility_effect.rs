//! The effect that hides parts of the reticle while a button is held.

use vstd::prelude::*;
use crate::fixed::ONE;
use crate::fixed::fx_mul;
use crate::fixed::max_int;
use crate::fixed::min_int;
use crate::fixed::sat_i32;
use crate::fixed::mul_fixed;
use crate::fixed::to_i32;
use crate::fixed::lemma_mul_bound;
use super::MouseState;
use super::VisibilityMask;

verus! {

/// Which part of the reticle a press hides.
#[derive(Debug, Clone, Copy, PartialEq, Eq, Structural)]
pub enum HideMode {
    /// All of it.
    Full,
    /// What lies left of the centre.
    Left,
    /// What lies right of the centre.
    Right,
    /// What lies above the centre.
    Top,
    /// What lies below the centre.
    Bottom,
    /// The centre alone.
    Center,
    /// Left and right.
    Sides,
    /// Top and bottom.
    Vertical,
    /// Left, right, top and bottom.
    Cross,
}

/// The mode that each button selects, if any.
#[derive(Debug, Clone, Copy)]
pub struct VisibilityButtonBinding {
    pub left_click: Option<HideMode>,
    pub right_click: Option<HideMode>,
    pub middle_click: Option<HideMode>,
}

/// The visibility effect's settings.
#[derive(Debug, Clone, Copy)]
pub struct VisibilityEffect {
    pub enabled: bool,
    pub hide_mode: HideMode,
    /// The share of the opacity that a press takes away, in fixed point.
    pub fade_percentage: i32,
    /// Whether the fade grows with the length of the press.
    pub smooth_fade: bool,
    /// How fast a smooth fade grows: the share reached per second, in fixed point.
    pub fade_speed: i32,
    pub button_binding: VisibilityButtonBinding,
}

impl Default for VisibilityButtonBinding {
    fn default() -> (binding: Self)
        ensures
            binding == VisibilityButtonBinding::initial(),
    {
        VisibilityButtonBinding {
            left_click: Some(HideMode::Center),
            right_click: Some(HideMode::Sides),
            middle_click: None,
        }
    }
}

impl VisibilityButtonBinding {
    /// Left hides the centre, right hides the sides, middle does nothing.
    pub open spec fn initial() -> VisibilityButtonBinding {
        VisibilityButtonBinding {
            left_click: Some(HideMode::Center),
            right_click: Some(HideMode::Sides),
            middle_click: None,
        }
    }
}

impl Default for VisibilityEffect {
    fn default() -> (effect: Self)
        ensures
            effect == VisibilityEffect::initial(),
    {
        VisibilityEffect {
            enabled: false,
            hide_mode: HideMode::Center,
            fade_percentage: 800_000,
            smooth_fade: true,
            fade_speed: 3_000_000,
            button_binding: VisibilityButtonBinding::default(),
        }
    }
}

/// The mask that hides the regions of `mode` and keeps `alpha_multiplier` of
/// the opacity of the rest.
pub open spec fn mask_hiding(mode: HideMode, alpha_multiplier: i32) -> VisibilityMask {
    let sides = mode == HideMode::Sides || mode == HideMode::Cross;
    let vertical = mode == HideMode::Vertical || mode == HideMode::Cross;
    VisibilityMask {
        show_full: mode != HideMode::Full,
        show_left: !(mode == HideMode::Left || sides),
        show_right: !(mode == HideMode::Right || sides),
        show_top: !(mode == HideMode::Top || vertical),
        show_bottom: !(mode == HideMode::Bottom || vertical),
        show_center: mode != HideMode::Center,
        alpha_multiplier,
    }
}

impl VisibilityEffect {
    /// The settings an effect starts from: off, hiding the centre, fading by
    /// four fifths at speed three.
    pub open spec fn initial() -> VisibilityEffect {
        VisibilityEffect {
            enabled: false,
            hide_mode: HideMode::Center,
            fade_percentage: 800_000,
            smooth_fade: true,
            fade_speed: 3_000_000,
            button_binding: VisibilityButtonBinding::initial(),
        }
    }

    /// The mode in force: that of the left button if it is held, else that of
    /// the right, else that of the middle one.
    pub open spec fn active_mode(&self, mouse_state: &MouseState) -> Option<HideMode> {
        if mouse_state.left_pressed {
            self.button_binding.left_click
        } else if mouse_state.right_pressed {
            self.button_binding.right_click
        } else if mouse_state.middle_pressed {
            self.button_binding.middle_click
        } else {
            None
        }
    }

    /// How much of the fade is in force after `duration` millionths of a
    /// second: all of it at once, or, when smooth, `duration * fade_speed`
    /// up to one.
    pub open spec fn factor(&self, duration: int) -> int {
        if self.smooth_fade {
            min_int(fx_mul(duration, self.fade_speed as int), ONE as int)
        } else {
            ONE as int
        }
    }

    /// The share of the opacity that is left: one less
    /// `fade_percentage * factor`.
    pub open spec fn remaining(&self, duration: int) -> int {
        ONE - fx_mul(self.fade_percentage as int, self.factor(duration))
    }

    /// The mask for `mode` after the press has lasted `duration`.
    pub open spec fn mask_for(&self, mode: HideMode, duration: int) -> VisibilityMask {
        mask_hiding(mode, sat_i32(self.remaining(duration)) as i32)
    }

    /// The opacity `alpha` after the fade, never negative.
    pub open spec fn faded(&self, alpha: int, duration: int) -> int {
        sat_i32(max_int(fx_mul(alpha, self.remaining(duration)), 0))
    }

    /// Opacity and mask under the effect at time `now`: the opacity as it
    /// was and nothing hidden while the effect is off or no held button
    /// selects a mode. The fade enters twice, once in the opacity and once
    /// in the mask's multiplier.
    pub open spec fn applied(&self, alpha: i32, mouse_state: &MouseState, now: u64) -> (int, VisibilityMask) {
        if !self.enabled {
            (alpha as int, VisibilityMask::everything())
        } else {
            match self.active_mode(mouse_state) {
                Some(mode) => (
                    self.faded(alpha as int, mouse_state.held_for(now as int)),
                    self.mask_for(mode, mouse_state.held_for(now as int)),
                ),
                None => (alpha as int, VisibilityMask::everything()),
            }
        }
    }

    /// Opacity and mask under the effect at time `now`.
    pub fn apply_visibility(&self, original_alpha: i32, mouse_state: &MouseState, now: u64) -> (result: (i32, VisibilityMask))
        ensures
            result.0 == self.applied(original_alpha, mouse_state, now).0,
            result.1 == self.applied(original_alpha, mouse_state, now).1,
    {
        if !self.enabled {
            return (original_alpha, VisibilityMask::default());
        }
        match self.get_active_mode(mouse_state) {
            Some(mode) => {
                let visibility_mask = self.create_visibility_mask(mode, mouse_state, now);
                let modified_alpha = self.calculate_alpha(original_alpha, mouse_state, now);
                (modified_alpha, visibility_mask)
            },
            None => (original_alpha, VisibilityMask::default()),
        }
    }

    /// The mode in force for the buttons held.
    pub fn get_active_mode(&self, mouse_state: &MouseState) -> (mode: Option<HideMode>)
        ensures
            mode == self.active_mode(mouse_state),
    {
        if mouse_state.left_pressed {
            return self.button_binding.left_click;
        }
        if mouse_state.right_pressed {
            return self.button_binding.right_click;
        }
        if mouse_state.middle_pressed {
            return self.button_binding.middle_click;
        }
        None
    }

    /// The share of the opacity that is left at time `now`.
    pub fn remaining_share(&self, mouse_state: &MouseState, now: u64) -> (share: i128)
        ensures
            share == self.remaining(mouse_state.held_for(now as int)),
            -0x100_0000_0000_0000_0000_0000 <= share <= 0x100_0000_0000_0000_0000_0000,
    {
        let one: i128 = ONE as i128;
        let factor: i128 = if self.smooth_fade {
            let duration: u64 = mouse_state.press_duration(now);
            proof {
                lemma_mul_bound(
                    duration as int,
                    self.fade_speed as int,
                    0x1_0000_0000_0000_0000,
                    0x8000_0000,
                );
            }
            let grown: i128 = mul_fixed(duration as i128, self.fade_speed as i128);
            if grown < one {
                grown
            } else {
                one
            }
        } else {
            one
        };
        proof {
            lemma_mul_bound(
                self.fade_percentage as int,
                factor as int,
                0x8000_0000,
                0x1000_0000_0000_0000_0000,
            );
        }
        one - mul_fixed(self.fade_percentage as i128, factor)
    }

    /// The mask for `mode` at time `now`.
    pub fn create_visibility_mask(&self, mode: HideMode, mouse_state: &MouseState, now: u64) -> (mask: VisibilityMask)
        ensures
            mask == self.mask_for(mode, mouse_state.held_for(now as int)),
    {
        let fade_alpha: i32 = to_i32(self.remaining_share(mouse_state, now));
        let shown = VisibilityMask::default();
        match mode {
            HideMode::Full => VisibilityMask { show_full: false, alpha_multiplier: fade_alpha, ..shown },
            HideMode::Left => VisibilityMask { show_left: false, alpha_multiplier: fade_alpha, ..shown },
            HideMode::Right => VisibilityMask { show_right: false, alpha_multiplier: fade_alpha, ..shown },
            HideMode::Top => VisibilityMask { show_top: false, alpha_multiplier: fade_alpha, ..shown },
            HideMode::Bottom => VisibilityMask {
                show_bottom: false,
                alpha_multiplier: fade_alpha,
                ..shown
            },
            HideMode::Center => VisibilityMask {
                show_center: false,
                alpha_multiplier: fade_alpha,
                ..shown
            },
            HideMode::Sides => VisibilityMask {
                show_left: false,
                show_right: false,
                alpha_multiplier: fade_alpha,
                ..shown
            },
            HideMode::Vertical => VisibilityMask {
                show_top: false,
                show_bottom: false,
                alpha_multiplier: fade_alpha,
                ..shown
            },
            HideMode::Cross => VisibilityMask {
                show_left: false,
                show_right: false,
                show_top: false,
                show_bottom: false,
                alpha_multiplier: fade_alpha,
                ..shown
            },
        }
    }

    /// The opacity after the fade at time `now`.
    pub fn calculate_alpha(&self, original_alpha: i32, mouse_state: &MouseState, now: u64) -> (alpha: i32)
        ensures
            alpha == self.faded(original_alpha as int, mouse_state.held_for(now as int)),
    {
        let share: i128 = self.remaining_share(mouse_state, now);
        proof {
            lemma_mul_bound(
                original_alpha as int,
                share as int,
                0x8000_0000,
                0x100_0000_0000_0000_0000_0000,
            );
        }
        let faded: i128 = mul_fixed(original_alpha as i128, share);
        if faded < 0 {
            0
        } else {
            to_i32(faded)
        }
    }

    /// Settings for a scope: any press hides the centre at once and entirely.
    pub fn preset_sniper_clarity() -> (effect: Self)
        ensures
            effect == (VisibilityEffect {
                enabled: true,
                hide_mode: HideMode::Center,
                fade_percentage: ONE,
                smooth_fade: false,
                fade_speed: 10_000_000,
                button_binding: VisibilityButtonBinding {
                    left_click: Some(HideMode::Center),
                    right_click: Some(HideMode::Center),
                    middle_click: None,
                },
            }),
    {
        VisibilityEffect {
            enabled: true,
            hide_mode: HideMode::Center,
            fade_percentage: ONE,
            smooth_fade: false,
            fade_speed: 10_000_000,
            button_binding: VisibilityButtonBinding {
                left_click: Some(HideMode::Center),
                right_click: Some(HideMode::Center),
                middle_click: None,
            },
        }
    }

    /// Settings that clear the view to the sides, above and below, or
    /// altogether, by button.
    pub fn preset_peripheral_vision() -> (effect: Self)
        ensures
            effect == (VisibilityEffect {
                enabled: true,
                hide_mode: HideMode::Sides,
                fade_percentage: 700_000,
                smooth_fade: true,
                fade_speed: 2_000_000,
                button_binding: VisibilityButtonBinding {
                    left_click: Some(HideMode::Sides),
                    right_click: Some(HideMode::Vertical),
                    middle_click: Some(HideMode::Full),
                },
            }),
    {
        VisibilityEffect {
            enabled: true,
            hide_mode: HideMode::Sides,
            fade_percentage: 700_000,
            smooth_fade: true,
            fade_speed: 2_000_000,
            button_binding: VisibilityButtonBinding {
                left_click: Some(HideMode::Sides),
                right_click: Some(HideMode::Vertical),
                middle_click: Some(HideMode::Full),
            },
        }
    }

    /// Settings that leave little on screen: the arms go on a left press,
    /// everything on a right press.
    pub fn preset_minimal() -> (effect: Self)
        ensures
            effect == (VisibilityEffect {
                enabled: true,
                hide_mode: HideMode::Cross,
                fade_percentage: 900_000,
                smooth_fade: true,
                fade_speed: 4_000_000,
                button_binding: VisibilityButtonBinding {
                    left_click: Some(HideMode::Cross),
                    right_click: Some(HideMode::Full),
                    middle_click: None,
                },
            }),
    {
        VisibilityEffect {
            enabled: true,
            hide_mode: HideMode::Cross,
            fade_percentage: 900_000,
            smooth_fade: true,
            fade_speed: 4_000_000,
            button_binding: VisibilityButtonBinding {
                left_click: Some(HideMode::Cross),
                right_click: Some(HideMode::Full),
                middle_click: None,
            },
        }
    }
}

/// While a mode is in force the fade enters twice: the opacity that is
/// handed back has been scaled by the share that is left, and the mask
/// carries the same share as its multiplier, to be applied once more when
/// the mask is laid over what was painted.
pub proof fn lemma_fade_enters_twice(effect: VisibilityEffect, alpha: i32, mouse_state: MouseState, now: u64)
    requires
        effect.enabled,
        effect.active_mode(&mouse_state).is_some(),
    ensures
        effect.applied(alpha, &mouse_state, now).0 == sat_i32(
            max_int(fx_mul(alpha as int, effect.remaining(mouse_state.held_for(now as int))), 0),
        ),
        effect.applied(alpha, &mouse_state, now).1.alpha_multiplier == sat_i32(
            effect.remaining(mouse_state.held_for(now as int)),
        ),
{
}

} // verus!
