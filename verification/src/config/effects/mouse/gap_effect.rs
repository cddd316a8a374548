//! The effect that opens or closes the gap while a button is held.

use vstd::prelude::*;
use crate::fixed::ONE;
use crate::fixed::max_int;
use crate::fixed::min_int;
use crate::fixed::round_div;
use crate::fixed::sat_u32;
use crate::fixed::div_round;
use crate::fixed::to_u32;
use crate::fixed::lemma_mul_bound;
use super::MouseState;

verus! {

/// What a press does to the gap.
#[derive(Debug, Clone, Copy, PartialEq, Eq, Structural)]
pub enum GapMode {
    /// The gap widens.
    Expand,
    /// The gap narrows.
    Contract,
    /// The gap widens during the first half of each second of the press and
    /// narrows during the second half.
    Toggle,
}

/// The mode that each button selects, if any.
#[derive(Debug, Clone, Copy)]
pub struct GapButtonBinding {
    pub left_click: Option<GapMode>,
    pub right_click: Option<GapMode>,
    pub middle_click: Option<GapMode>,
}

/// The gap effect's settings.
#[derive(Debug, Clone, Copy)]
pub struct GapEffect {
    pub enabled: bool,
    pub mode: GapMode,
    /// How strongly the gap reacts, in fixed point.
    pub intensity: i32,
    /// Whether the effect grows over the first half second of a press.
    pub smooth_transition: bool,
    pub button_binding: GapButtonBinding,
}

impl Default for GapButtonBinding {
    fn default() -> (binding: Self)
        ensures
            binding == GapButtonBinding::initial(),
    {
        GapButtonBinding {
            left_click: Some(GapMode::Expand),
            right_click: Some(GapMode::Contract),
            middle_click: None,
        }
    }
}

impl GapButtonBinding {
    /// Left widens, right narrows, middle does nothing.
    pub open spec fn initial() -> GapButtonBinding {
        GapButtonBinding {
            left_click: Some(GapMode::Expand),
            right_click: Some(GapMode::Contract),
            middle_click: None,
        }
    }
}

impl Default for GapEffect {
    fn default() -> (effect: Self)
        ensures
            effect == GapEffect::initial(),
    {
        GapEffect {
            enabled: false,
            mode: GapMode::Expand,
            intensity: 2_000_000,
            smooth_transition: true,
            button_binding: GapButtonBinding::default(),
        }
    }
}

/// Twice the square of [`ONE`]: the denominator of a widened gap.
pub open spec fn expand_den() -> int {
    2 * ONE * ONE
}

/// Ten times the square of [`ONE`]: the denominator of a narrowed gap.
pub open spec fn contract_den() -> int {
    10 * ONE * ONE
}

/// Gap and size after widening: the gap grows by half of
/// `gap * intensity * factor`, and the size by the same amount, so that the
/// strokes keep their length. Both are rounded to the nearest integer.
pub open spec fn expanded(gap: int, size: int, intensity: int, factor: int) -> (int, int) {
    let increase = gap * intensity * factor;
    (
        sat_u32(round_div(gap * expand_den() + increase, expand_den())),
        sat_u32(round_div(size * expand_den() + increase, expand_den())),
    )
}

/// The narrowed gap before rounding, as a numerator over [`contract_den`]:
/// the gap less three tenths of `gap * intensity * factor`, but not below zero.
pub open spec fn contracted_gap_num(gap: int, intensity: int, factor: int) -> int {
    max_int(gap * contract_den() - 3 * (gap * intensity * factor), 0)
}

/// The size that goes with a narrowed gap, before rounding, as a numerator
/// over twice [`contract_den`]: the size less half of what the gap lost, but
/// not below seven tenths of the size.
pub open spec fn contracted_size_num(gap: int, size: int, intensity: int, factor: int) -> int {
    max_int(
        size * (2 * contract_den()) - (gap * contract_den() - contracted_gap_num(
            gap,
            intensity,
            factor,
        )),
        14 * size * ONE * ONE,
    )
}

/// Gap and size after narrowing, each rounded to the nearest integer.
pub open spec fn contracted(gap: int, size: int, intensity: int, factor: int) -> (int, int) {
    (
        sat_u32(round_div(contracted_gap_num(gap, intensity, factor), contract_den())),
        sat_u32(
            round_div(contracted_size_num(gap, size, intensity, factor), 2 * contract_den()),
        ),
    )
}

impl GapEffect {
    /// The settings an effect starts from: off, widening, intensity two,
    /// smooth.
    pub open spec fn initial() -> GapEffect {
        GapEffect {
            enabled: false,
            mode: GapMode::Expand,
            intensity: 2_000_000,
            smooth_transition: true,
            button_binding: GapButtonBinding::initial(),
        }
    }

    /// The mode in force: that of the left button if it is held, else that of
    /// the right, else that of the middle one.
    pub open spec fn active_mode(&self, mouse_state: &MouseState) -> Option<GapMode> {
        if mouse_state.left_pressed {
            self.button_binding.left_click
        } else if mouse_state.right_pressed {
            self.button_binding.right_click
        } else if mouse_state.middle_pressed {
            self.button_binding.middle_click
        } else {
            None
        }
    }

    /// How much of the effect is in force after `duration` millionths of a
    /// second: all of it at once, or, when smooth, a share that reaches one
    /// after half a second.
    pub open spec fn factor(&self, duration: int) -> int {
        if self.smooth_transition {
            min_int(2 * duration, ONE as int)
        } else {
            ONE as int
        }
    }

    /// Whether a toggling press is in its widening half.
    pub open spec fn toggle_expands(duration: int) -> bool {
        duration % (ONE as int) < ONE / 2
    }

    /// Gap and size under `mode` after the press has lasted `duration`.
    pub open spec fn modified(&self, gap: u32, size: u32, mode: GapMode, duration: int) -> (int, int) {
        let factor = self.factor(duration);
        let expands = match mode {
            GapMode::Expand => true,
            GapMode::Contract => false,
            GapMode::Toggle => Self::toggle_expands(duration),
        };
        if expands {
            expanded(gap as int, size as int, self.intensity as int, factor)
        } else {
            contracted(gap as int, size as int, self.intensity as int, factor)
        }
    }

    /// Gap and size under the effect at time `now`: unchanged while the
    /// effect is off or no held button selects a mode.
    pub open spec fn applied(&self, gap: u32, size: u32, mouse_state: &MouseState, now: u64) -> (int, int) {
        if !self.enabled {
            (gap as int, size as int)
        } else {
            match self.active_mode(mouse_state) {
                Some(mode) => self.modified(gap, size, mode, mouse_state.held_for(now as int)),
                None => (gap as int, size as int),
            }
        }
    }

    /// Gap and size under the effect at time `now`.
    pub fn apply_gap(&self, original_gap: u32, original_size: u32, mouse_state: &MouseState, now: u64) -> (result: (u32, u32))
        ensures
            result.0 == self.applied(original_gap, original_size, mouse_state, now).0,
            result.1 == self.applied(original_gap, original_size, mouse_state, now).1,
    {
        if !self.enabled {
            return (original_gap, original_size);
        }
        match self.get_active_mode(mouse_state) {
            Some(mode) => self.calculate_modified_gap_and_size(
                original_gap,
                original_size,
                mode,
                mouse_state,
                now,
            ),
            None => (original_gap, original_size),
        }
    }

    /// The mode in force for the buttons held.
    pub fn get_active_mode(&self, mouse_state: &MouseState) -> (mode: Option<GapMode>)
        ensures
            mode == self.active_mode(mouse_state),
    {
        if mouse_state.left_pressed {
            return self.button_binding.left_click;
        }
        if mouse_state.right_pressed {
            return self.button_binding.right_click;
        }
        if mouse_state.middle_pressed {
            return self.button_binding.middle_click;
        }
        None
    }

    /// Gap and size under `mode` at time `now`.
    pub fn calculate_modified_gap_and_size(
        &self,
        original_gap: u32,
        original_size: u32,
        mode: GapMode,
        mouse_state: &MouseState,
        now: u64,
    ) -> (result: (u32, u32))
        ensures
            result.0 == self.modified(original_gap, original_size, mode, mouse_state.held_for(now as int)).0,
            result.1 == self.modified(original_gap, original_size, mode, mouse_state.held_for(now as int)).1,
    {
        let duration: u64 = mouse_state.press_duration(now);
        let one: i128 = ONE as i128;
        let factor: i128 = if self.smooth_transition {
            let doubled: i128 = 2 * (duration as i128);
            if doubled < one {
                doubled
            } else {
                one
            }
        } else {
            one
        };
        let expands: bool = match mode {
            GapMode::Expand => true,
            GapMode::Contract => false,
            GapMode::Toggle => duration % (ONE as u64) < (ONE as u64) / 2,
        };
        let gap: i128 = original_gap as i128;
        let size: i128 = original_size as i128;
        proof {
            lemma_mul_bound(gap as int, self.intensity as int, 0x1_0000_0000, 0x8000_0000);
            lemma_mul_bound(gap * self.intensity, factor as int, 0x8000_0000_0000_0000, 1_000_000);
        }
        let increase: i128 = gap * (self.intensity as i128) * factor;
        let unit: i128 = 1_000_000_000_000;
        assert(unit == ONE * ONE);
        if expands {
            let den: i128 = 2 * unit;
            (
                to_u32(div_round(gap * den + increase, den)),
                to_u32(div_round(size * den + increase, den)),
            )
        } else {
            let den: i128 = 10 * unit;
            let lowered: i128 = gap * den - 3 * increase;
            let gap_num: i128 = if lowered > 0 {
                lowered
            } else {
                0
            };
            let wide_den: i128 = 2 * den;
            let shortened: i128 = size * wide_den - (gap * den - gap_num);
            let floor: i128 = 14 * size * unit;
            let size_num: i128 = if shortened > floor {
                shortened
            } else {
                floor
            };
            (to_u32(div_round(gap_num, den)), to_u32(div_round(size_num, wide_den)))
        }
    }

    /// Settings for a scope: every press widens at once, three times as far.
    pub fn preset_sniper() -> (effect: Self)
        ensures
            effect == (GapEffect {
                enabled: true,
                mode: GapMode::Expand,
                intensity: 3_000_000,
                smooth_transition: false,
                button_binding: GapButtonBinding {
                    left_click: Some(GapMode::Expand),
                    right_click: Some(GapMode::Expand),
                    middle_click: None,
                },
            }),
    {
        GapEffect {
            enabled: true,
            mode: GapMode::Expand,
            intensity: 3_000_000,
            smooth_transition: false,
            button_binding: GapButtonBinding {
                left_click: Some(GapMode::Expand),
                right_click: Some(GapMode::Expand),
                middle_click: None,
            },
        }
    }

    /// Settings for careful aim: every press narrows smoothly, one and a
    /// half times as far.
    pub fn preset_precision() -> (effect: Self)
        ensures
            effect == (GapEffect {
                enabled: true,
                mode: GapMode::Contract,
                intensity: 1_500_000,
                smooth_transition: true,
                button_binding: GapButtonBinding {
                    left_click: Some(GapMode::Contract),
                    right_click: Some(GapMode::Contract),
                    middle_click: None,
                },
            }),
    {
        GapEffect {
            enabled: true,
            mode: GapMode::Contract,
            intensity: 1_500_000,
            smooth_transition: true,
            button_binding: GapButtonBinding {
                left_click: Some(GapMode::Contract),
                right_click: Some(GapMode::Contract),
                middle_click: None,
            },
        }
    }
}

/// Widening at intensity two with the whole effect in force doubles the gap
/// and moves the size out by as much as the gap has grown, as long as both
/// still fit.
pub proof fn lemma_expand_doubles(effect: GapEffect, gap: u32, size: u32, duration: int)
    requires
        effect.intensity == 2 * ONE,
        effect.factor(duration) == ONE,
        2 * gap <= u32::MAX,
        size + gap <= u32::MAX,
    ensures
        effect.modified(gap, size, GapMode::Expand, duration).0 == 2 * gap,
        effect.modified(gap, size, GapMode::Expand, duration).1 == size + (effect.modified(
            gap,
            size,
            GapMode::Expand,
            duration,
        ).0 - gap),
{
    let den = expand_den();
    assert(den == 2_000_000_000_000);
    let increase = gap * (2 * ONE) * ONE;
    assert(increase == gap * den) by (nonlinear_arith)
        requires
            increase == gap * (2 * ONE) * ONE,
            den == 2 * ONE * ONE,
    ;
    assert(gap * den + increase == 2 * gap * den) by (nonlinear_arith)
        requires
            increase == gap * den,
    ;
    assert(size * den + increase == (size + gap) * den) by (nonlinear_arith)
        requires
            increase == gap * den,
    ;
    lemma_round_div_multiple(2 * gap, den);
    lemma_round_div_multiple(size + gap, den);
}

/// A whole multiple of the denominator divides without rounding.
pub proof fn lemma_round_div_multiple(k: int, den: int)
    requires
        k >= 0,
        den > 0,
    ensures
        round_div(k * den, den) == k,
{
    assert(k * den >= 0) by (nonlinear_arith)
        requires
            k >= 0,
            den > 0,
    ;
    assert(2 * (k * den) + den == k * (2 * den) + den) by (nonlinear_arith);
    vstd::arithmetic::div_mod::lemma_fundamental_div_mod_converse(
        2 * (k * den) + den,
        2 * den,
        k,
        den,
    );
}

} // verus!
