use crosshair_overlay::config::effects::mouse::capture::{
    get_global_mouse_state, has_mouse_state_changed, is_any_button_pressed, set_button_state,
    MouseCapture,
};
use crosshair_overlay::config::effects::mouse::gap_effect::{GapButtonBinding, GapEffect, GapMode};
use crosshair_overlay::config::effects::mouse::visibility_effect::{
    HideMode, VisibilityButtonBinding, VisibilityEffect,
};
use crosshair_overlay::config::effects::mouse::{MouseEffect, MouseState, VisibilityMask};
use crosshair_overlay::fixed::ONE;
use crosshair_overlay::mouse_capture::MouseButton;

fn left_since(start: u64) -> MouseState {
    MouseState { left_pressed: true, right_pressed: false, middle_pressed: false, press_time: Some(start) }
}

fn right_since(start: u64) -> MouseState {
    MouseState { left_pressed: false, right_pressed: true, middle_pressed: false, press_time: Some(start) }
}

fn middle_since(start: u64) -> MouseState {
    MouseState { left_pressed: false, right_pressed: false, middle_pressed: true, press_time: Some(start) }
}

fn expand(intensity: i32, smooth: bool) -> GapEffect {
    GapEffect {
        enabled: true,
        mode: GapMode::Expand,
        intensity,
        smooth_transition: smooth,
        button_binding: GapButtonBinding {
            left_click: Some(GapMode::Expand),
            right_click: Some(GapMode::Contract),
            middle_click: Some(GapMode::Toggle),
        },
    }
}

fn fading(fade_percentage: i32, smooth: bool, fade_speed: i32) -> VisibilityEffect {
    VisibilityEffect {
        enabled: true,
        hide_mode: HideMode::Center,
        fade_percentage,
        smooth_fade: smooth,
        fade_speed,
        button_binding: VisibilityButtonBinding {
            left_click: Some(HideMode::Center),
            right_click: Some(HideMode::Sides),
            middle_click: None,
        },
    }
}

fn flags(mask: &VisibilityMask) -> [bool; 6] {
    [mask.show_full, mask.show_left, mask.show_right, mask.show_top, mask.show_bottom, mask.show_center]
}

#[test]
fn released_state_has_no_button_pressed() {
    let state = MouseState::default();
    assert!(!state.any_pressed());
    assert_eq!(state.press_time, None);
    assert_eq!(state.press_duration(5_000_000), 0);
}

#[test]
fn any_button_counts_as_pressed() {
    assert!(left_since(0).any_pressed());
    assert!(right_since(0).any_pressed());
    assert!(middle_since(0).any_pressed());
}

#[test]
fn press_duration_is_time_since_the_start() {
    assert_eq!(left_since(1_000_000).press_duration(1_250_000), 250_000);
    assert_eq!(left_since(1_000_000).press_duration(1_000_000), 0);
    assert_eq!(left_since(0).press_duration(u64::MAX), u64::MAX);
}

#[test]
fn press_duration_is_never_negative() {
    assert_eq!(left_since(1_000_000).press_duration(999_999), 0);
    assert_eq!(left_since(u64::MAX).press_duration(0), 0);
}

#[test]
fn expand_at_intensity_two_doubles_the_gap() {
    let effect = expand(2 * ONE, false);
    assert_eq!(effect.apply_gap(5, 25, &left_since(0), 0), (10, 30));
    assert_eq!(effect.apply_gap(7, 40, &left_since(0), 123), (14, 47));
    assert_eq!(effect.apply_gap(0, 25, &left_since(0), 0), (0, 25));
}

#[test]
fn smooth_expand_reaches_full_strength_after_half_a_second() {
    let effect = expand(2 * ONE, true);
    assert_eq!(effect.apply_gap(5, 25, &left_since(0), 0), (5, 25));
    assert_eq!(effect.apply_gap(5, 25, &left_since(0), 250_000), (8, 28));
    assert_eq!(effect.apply_gap(5, 25, &left_since(0), 500_000), (10, 30));
    assert_eq!(effect.apply_gap(5, 25, &left_since(0), 9_000_000), (10, 30));
    assert_eq!(effect.apply_gap(5, 25, &left_since(0), u64::MAX), (10, 30));
}

#[test]
fn expand_rounds_to_the_nearest_pixel() {
    let effect = expand(ONE, false);
    assert_eq!(effect.apply_gap(5, 25, &left_since(0), 0), (8, 28));
    assert_eq!(effect.apply_gap(4, 25, &left_since(0), 0), (6, 27));
    let slight = expand(180_000, false);
    assert_eq!(effect.apply_gap(1, 1, &left_since(0), 0), (2, 2));
    assert_eq!(slight.apply_gap(5, 25, &left_since(0), 0), (5, 25));
    let more = expand(200_000, false);
    assert_eq!(more.apply_gap(5, 25, &left_since(0), 0), (6, 26));
}

#[test]
fn expand_stops_at_the_largest_number() {
    let effect = expand(2 * ONE, false);
    assert_eq!(effect.apply_gap(u32::MAX, u32::MAX, &left_since(0), 0), (u32::MAX, u32::MAX));
    assert_eq!(effect.apply_gap(u32::MAX, 0, &left_since(0), 0), (u32::MAX, u32::MAX));
    let extreme = expand(i32::MAX, false);
    assert_eq!(extreme.apply_gap(u32::MAX, u32::MAX, &left_since(0), 0), (u32::MAX, u32::MAX));
}

#[test]
fn expand_with_negative_intensity_stops_at_zero() {
    let effect = expand(-4 * ONE, false);
    assert_eq!(effect.apply_gap(5, 25, &left_since(0), 0), (0, 15));
    let extreme = expand(i32::MIN, false);
    assert_eq!(extreme.apply_gap(u32::MAX, u32::MAX, &left_since(0), 0), (0, 0));
}

#[test]
fn contract_takes_three_tenths_per_unit_of_intensity() {
    let effect = expand(2 * ONE, false);
    assert_eq!(effect.apply_gap(5, 25, &right_since(0), 0), (2, 24));
    assert_eq!(effect.apply_gap(10, 100, &right_since(0), 0), (4, 97));
}

#[test]
fn contract_stops_the_gap_at_zero() {
    let effect = expand(5 * ONE, false);
    assert_eq!(effect.apply_gap(5, 25, &right_since(0), 0), (0, 23));
}

#[test]
fn contract_keeps_seven_tenths_of_the_size() {
    let effect = expand(ONE, false);
    assert_eq!(effect.apply_gap(100, 25, &right_since(0), 0), (70, 18));
    assert_eq!(effect.apply_gap(100, 10, &right_since(0), 0), (70, 7));
}

#[test]
fn smooth_contract() {
    let effect = expand(2 * ONE, true);
    assert_eq!(effect.apply_gap(10, 100, &right_since(0), 0), (10, 100));
    assert_eq!(effect.apply_gap(10, 100, &right_since(0), 250_000), (7, 99));
    assert_eq!(effect.apply_gap(10, 100, &right_since(0), 500_000), (4, 97));
}

#[test]
fn contract_at_the_limits() {
    let extreme = expand(i32::MAX, false);
    assert_eq!(extreme.apply_gap(u32::MAX, u32::MAX, &right_since(0), 0), (0, 3_006_477_107));
    let negative = expand(i32::MIN, false);
    assert_eq!(negative.apply_gap(u32::MAX, u32::MAX, &right_since(0), 0), (u32::MAX, u32::MAX));
}

#[test]
fn toggle_alternates_every_half_second() {
    let effect = expand(2 * ONE, false);
    assert_eq!(effect.apply_gap(5, 25, &middle_since(0), 0), (10, 30));
    assert_eq!(effect.apply_gap(5, 25, &middle_since(0), 499_999), (10, 30));
    assert_eq!(effect.apply_gap(5, 25, &middle_since(0), 500_000), (2, 24));
    assert_eq!(effect.apply_gap(5, 25, &middle_since(0), 999_999), (2, 24));
    assert_eq!(effect.apply_gap(5, 25, &middle_since(0), 1_000_000), (10, 30));
    assert_eq!(effect.apply_gap(5, 25, &middle_since(0), 7_600_000), (2, 24));
}

#[test]
fn gap_effect_that_is_off_changes_nothing() {
    let effect = GapEffect { enabled: false, ..expand(2 * ONE, false) };
    assert_eq!(effect.apply_gap(5, 25, &left_since(0), 1_000_000), (5, 25));
}

#[test]
fn gap_effect_without_a_button_changes_nothing() {
    let effect = expand(2 * ONE, false);
    assert_eq!(effect.apply_gap(5, 25, &MouseState::default(), 1_000_000), (5, 25));
}

#[test]
fn gap_effect_with_an_unbound_button_changes_nothing() {
    let effect = GapEffect::default();
    assert_eq!(effect.get_active_mode(&middle_since(0)), None);
    let effect = GapEffect { enabled: true, ..GapEffect::default() };
    assert_eq!(effect.apply_gap(5, 25, &middle_since(0), 1_000_000), (5, 25));
}

#[test]
fn left_button_goes_before_right_before_middle() {
    let effect = expand(2 * ONE, false);
    let all = MouseState { left_pressed: true, right_pressed: true, middle_pressed: true, press_time: Some(0) };
    assert_eq!(effect.get_active_mode(&all), Some(GapMode::Expand));
    let two = MouseState { left_pressed: false, ..all };
    assert_eq!(effect.get_active_mode(&two), Some(GapMode::Contract));
    assert_eq!(effect.get_active_mode(&middle_since(0)), Some(GapMode::Toggle));
    assert_eq!(effect.get_active_mode(&MouseState::default()), None);
}

#[test]
fn held_button_without_a_mode_hides_the_next_button() {
    let effect = GapEffect {
        button_binding: GapButtonBinding {
            left_click: None,
            right_click: Some(GapMode::Contract),
            middle_click: None,
        },
        ..expand(2 * ONE, false)
    };
    let both = MouseState { left_pressed: true, right_pressed: true, middle_pressed: false, press_time: Some(0) };
    assert_eq!(effect.get_active_mode(&both), None);
    assert_eq!(effect.apply_gap(5, 25, &both, 0), (5, 25));
}

#[test]
fn modified_gap_and_size_by_mode() {
    let effect = expand(2 * ONE, false);
    let state = left_since(100);
    assert_eq!(effect.calculate_modified_gap_and_size(5, 25, GapMode::Expand, &state, 100), (10, 30));
    assert_eq!(effect.calculate_modified_gap_and_size(5, 25, GapMode::Contract, &state, 100), (2, 24));
    assert_eq!(effect.calculate_modified_gap_and_size(5, 25, GapMode::Toggle, &state, 700_000), (2, 24));
}

#[test]
fn gap_presets() {
    let sniper = GapEffect::preset_sniper();
    assert!(sniper.enabled);
    assert_eq!(sniper.mode, GapMode::Expand);
    assert_eq!(sniper.intensity, 3 * ONE);
    assert!(!sniper.smooth_transition);
    assert_eq!(sniper.button_binding.left_click, Some(GapMode::Expand));
    assert_eq!(sniper.button_binding.right_click, Some(GapMode::Expand));
    assert_eq!(sniper.button_binding.middle_click, None);
    assert_eq!(sniper.apply_gap(5, 25, &right_since(0), 0), (13, 33));
    let precision = GapEffect::preset_precision();
    assert!(precision.enabled);
    assert_eq!(precision.mode, GapMode::Contract);
    assert_eq!(precision.intensity, 1_500_000);
    assert!(precision.smooth_transition);
    assert_eq!(precision.button_binding.left_click, Some(GapMode::Contract));
    assert_eq!(precision.button_binding.right_click, Some(GapMode::Contract));
    assert_eq!(precision.button_binding.middle_click, None);
    assert_eq!(precision.apply_gap(20, 100, &left_since(0), 500_000), (11, 96));
}

#[test]
fn default_gap_effect() {
    let effect = GapEffect::default();
    assert!(!effect.enabled);
    assert_eq!(effect.mode, GapMode::Expand);
    assert_eq!(effect.intensity, 2 * ONE);
    assert!(effect.smooth_transition);
    assert_eq!(effect.button_binding.left_click, Some(GapMode::Expand));
    assert_eq!(effect.button_binding.right_click, Some(GapMode::Contract));
    assert_eq!(effect.button_binding.middle_click, None);
}

#[test]
fn visibility_effect_that_is_off_hides_nothing() {
    let effect = VisibilityEffect { enabled: false, ..fading(800_000, false, 3 * ONE) };
    let (alpha, mask) = effect.apply_visibility(900_000, &left_since(0), 1_000_000);
    assert_eq!(alpha, 900_000);
    assert_eq!(flags(&mask), [true; 6]);
    assert_eq!(mask.alpha_multiplier, ONE);
}

#[test]
fn visibility_effect_without_a_bound_button_hides_nothing() {
    let effect = fading(800_000, false, 3 * ONE);
    let (alpha, mask) = effect.apply_visibility(900_000, &middle_since(0), 1_000_000);
    assert_eq!(alpha, 900_000);
    assert_eq!(flags(&mask), [true; 6]);
    assert_eq!(mask.alpha_multiplier, ONE);
    let (alpha, mask) = effect.apply_visibility(900_000, &MouseState::default(), 1_000_000);
    assert_eq!(alpha, 900_000);
    assert_eq!(flags(&mask), [true; 6]);
    assert_eq!(mask.alpha_multiplier, ONE);
}

#[test]
fn instant_fade() {
    let effect = fading(800_000, false, 3 * ONE);
    let (alpha, mask) = effect.apply_visibility(ONE, &left_since(0), 0);
    assert_eq!(alpha, 200_000);
    assert_eq!(mask.alpha_multiplier, 200_000);
    assert_eq!(flags(&mask), [true, true, true, true, true, false]);
}

#[test]
fn smooth_fade_grows_with_the_press() {
    let effect = fading(800_000, true, 3 * ONE);
    let (alpha, mask) = effect.apply_visibility(ONE, &left_since(0), 0);
    assert_eq!((alpha, mask.alpha_multiplier), (ONE, ONE));
    let (alpha, mask) = effect.apply_visibility(ONE, &left_since(0), 100_000);
    assert_eq!((alpha, mask.alpha_multiplier), (760_000, 760_000));
    let (alpha, mask) = effect.apply_visibility(ONE / 2, &left_since(0), 100_000);
    assert_eq!((alpha, mask.alpha_multiplier), (380_000, 760_000));
    let (alpha, mask) = effect.apply_visibility(ONE, &left_since(0), 1_000_000);
    assert_eq!((alpha, mask.alpha_multiplier), (200_000, 200_000));
    let (alpha, mask) = effect.apply_visibility(ONE, &left_since(0), u64::MAX);
    assert_eq!((alpha, mask.alpha_multiplier), (200_000, 200_000));
}

#[test]
fn faded_opacity_is_never_negative() {
    let effect = fading(2 * ONE, false, ONE);
    let (alpha, mask) = effect.apply_visibility(ONE, &left_since(0), 0);
    assert_eq!(alpha, 0);
    assert_eq!(mask.alpha_multiplier, -ONE);
    assert_eq!(effect.calculate_alpha(-ONE, &left_since(0), 0), ONE);
}

#[test]
fn fade_at_the_limits() {
    let effect = fading(i32::MIN, true, i32::MIN);
    let (alpha, mask) = effect.apply_visibility(i32::MAX, &left_since(0), u64::MAX);
    assert_eq!(alpha, 0);
    assert_eq!(mask.alpha_multiplier, i32::MIN);
    let effect = fading(i32::MAX, true, i32::MIN);
    let (alpha, mask) = effect.apply_visibility(i32::MAX, &left_since(0), u64::MAX);
    assert_eq!(alpha, i32::MAX);
    assert_eq!(mask.alpha_multiplier, i32::MAX);
}

#[test]
fn mask_of_each_mode() {
    let effect = fading(ONE / 2, false, ONE);
    let state = left_since(0);
    let expected = [
        (HideMode::Full, [false, true, true, true, true, true]),
        (HideMode::Left, [true, false, true, true, true, true]),
        (HideMode::Right, [true, true, false, true, true, true]),
        (HideMode::Top, [true, true, true, false, true, true]),
        (HideMode::Bottom, [true, true, true, true, false, true]),
        (HideMode::Center, [true, true, true, true, true, false]),
        (HideMode::Sides, [true, false, false, true, true, true]),
        (HideMode::Vertical, [true, true, true, false, false, true]),
        (HideMode::Cross, [true, false, false, false, false, true]),
    ];
    for (mode, shown) in expected {
        let mask = effect.create_visibility_mask(mode, &state, 0);
        assert_eq!(flags(&mask), shown);
        assert_eq!(mask.alpha_multiplier, ONE / 2);
    }
}

#[test]
fn visibility_mode_follows_the_button() {
    let effect = fading(ONE / 2, false, ONE);
    assert_eq!(effect.get_active_mode(&left_since(0)), Some(HideMode::Center));
    assert_eq!(effect.get_active_mode(&right_since(0)), Some(HideMode::Sides));
    assert_eq!(effect.get_active_mode(&middle_since(0)), None);
    let both = MouseState { left_pressed: true, right_pressed: true, middle_pressed: true, press_time: Some(0) };
    assert_eq!(effect.get_active_mode(&both), Some(HideMode::Center));
    let (_, mask) = effect.apply_visibility(ONE, &right_since(0), 0);
    assert_eq!(flags(&mask), [true, false, false, true, true, true]);
}

#[test]
fn visibility_presets() {
    let clarity = VisibilityEffect::preset_sniper_clarity();
    assert!(clarity.enabled && !clarity.smooth_fade);
    assert_eq!(clarity.hide_mode, HideMode::Center);
    assert_eq!((clarity.fade_percentage, clarity.fade_speed), (ONE, 10 * ONE));
    assert_eq!(clarity.button_binding.left_click, Some(HideMode::Center));
    assert_eq!(clarity.button_binding.right_click, Some(HideMode::Center));
    assert_eq!(clarity.button_binding.middle_click, None);
    let peripheral = VisibilityEffect::preset_peripheral_vision();
    assert!(peripheral.enabled && peripheral.smooth_fade);
    assert_eq!(peripheral.hide_mode, HideMode::Sides);
    assert_eq!((peripheral.fade_percentage, peripheral.fade_speed), (700_000, 2 * ONE));
    assert_eq!(peripheral.button_binding.left_click, Some(HideMode::Sides));
    assert_eq!(peripheral.button_binding.right_click, Some(HideMode::Vertical));
    assert_eq!(peripheral.button_binding.middle_click, Some(HideMode::Full));
    let minimal = VisibilityEffect::preset_minimal();
    assert!(minimal.enabled && minimal.smooth_fade);
    assert_eq!(minimal.hide_mode, HideMode::Cross);
    assert_eq!((minimal.fade_percentage, minimal.fade_speed), (900_000, 4 * ONE));
    assert_eq!(minimal.button_binding.left_click, Some(HideMode::Cross));
    assert_eq!(minimal.button_binding.right_click, Some(HideMode::Full));
    assert_eq!(minimal.button_binding.middle_click, None);
}

#[test]
fn default_visibility_effect() {
    let effect = VisibilityEffect::default();
    assert!(!effect.enabled && effect.smooth_fade);
    assert_eq!(effect.hide_mode, HideMode::Center);
    assert_eq!((effect.fade_percentage, effect.fade_speed), (800_000, 3 * ONE));
    assert_eq!(effect.button_binding.left_click, Some(HideMode::Center));
    assert_eq!(effect.button_binding.right_click, Some(HideMode::Sides));
    assert_eq!(effect.button_binding.middle_click, None);
}

#[test]
fn default_mask_shows_everything() {
    let mask = VisibilityMask::default();
    assert_eq!(flags(&mask), [true; 6]);
    assert_eq!(mask.alpha_multiplier, ONE);
}

#[test]
fn centre_box_follows_the_centre_flag_alone() {
    for bits in 0u32..64 {
        let mask = VisibilityMask {
            show_full: bits & 1 != 0,
            show_left: bits & 2 != 0,
            show_right: bits & 4 != 0,
            show_top: bits & 8 != 0,
            show_bottom: bits & 16 != 0,
            show_center: bits & 32 != 0,
            alpha_multiplier: ONE,
        };
        for (dx, dy) in [(0, 0), (3, 3), (-3, 3), (3, -3), (-3, -3), (0, 3), (-3, 0), (1, -2)] {
            let shown = mask.should_show_point(
                dx * ONE as i128,
                dy * ONE as i128,
                50 * ONE as i128,
                50 * ONE as i128,
            );
            assert_eq!(shown, mask.show_center);
        }
    }
}

#[test]
fn outside_the_centre_box_every_side_must_pass() {
    let one = ONE as i128;
    for bits in 0u32..64 {
        let mask = VisibilityMask {
            show_full: bits & 1 != 0,
            show_left: bits & 2 != 0,
            show_right: bits & 4 != 0,
            show_top: bits & 8 != 0,
            show_bottom: bits & 16 != 0,
            show_center: bits & 32 != 0,
            alpha_multiplier: ONE,
        };
        let c = 50 * one;
        assert_eq!(mask.should_show_point(-10 * one, 0, c, c), mask.show_left);
        assert_eq!(mask.should_show_point(10 * one, 0, c, c), mask.show_right);
        assert_eq!(mask.should_show_point(0, -10 * one, c, c), mask.show_top);
        assert_eq!(mask.should_show_point(0, 10 * one, c, c), mask.show_bottom);
        assert_eq!(mask.should_show_point(-10 * one, -10 * one, c, c), mask.show_left && mask.show_top);
        assert_eq!(mask.should_show_point(10 * one, -10 * one, c, c), mask.show_right && mask.show_top);
        assert_eq!(mask.should_show_point(-10 * one, 10 * one, c, c), mask.show_left && mask.show_bottom);
        assert_eq!(mask.should_show_point(10 * one, 10 * one, c, c), mask.show_right && mask.show_bottom);
    }
}

#[test]
fn centre_box_ends_just_beyond_three_pixels() {
    let one = ONE as i128;
    let mask = VisibilityMask { show_center: false, ..VisibilityMask::default() };
    assert!(!mask.should_show_point(3 * one, 3 * one, 0, 0));
    assert!(mask.should_show_point(3 * one + 1, 0, 0, 0));
    assert!(mask.should_show_point(0, -3 * one - 1, 0, 0));
    assert!(mask.should_show_point(3 * one, 3 * one + 1, 0, 0));
    assert!(mask.should_show_point(i128::MAX, i128::MIN, i128::MAX, i128::MIN));
}

#[test]
fn mouse_effects_that_are_off_change_nothing() {
    let effects = MouseEffect {
        enabled: false,
        gap_effect: expand(2 * ONE, false),
        visibility_effect: fading(800_000, false, ONE),
    };
    let (gap, size, alpha, mask) = effects.apply_effects(5, 25, ONE, &left_since(0), 0);
    assert_eq!((gap, size, alpha), (5, 25, ONE));
    assert_eq!(flags(&mask), [true; 6]);
    assert_eq!(mask.alpha_multiplier, ONE);
}

#[test]
fn mouse_effects_without_a_button_change_nothing() {
    let effects = MouseEffect {
        enabled: true,
        gap_effect: expand(2 * ONE, false),
        visibility_effect: fading(800_000, false, ONE),
    };
    let (gap, size, alpha, mask) = effects.apply_effects(5, 25, ONE, &MouseState::default(), 0);
    assert_eq!((gap, size, alpha), (5, 25, ONE));
    assert_eq!(flags(&mask), [true; 6]);
    assert_eq!(mask.alpha_multiplier, ONE);
}

#[test]
fn both_mouse_effects_at_once() {
    let effects = MouseEffect {
        enabled: true,
        gap_effect: expand(2 * ONE, false),
        visibility_effect: fading(800_000, false, ONE),
    };
    let (gap, size, alpha, mask) = effects.apply_effects(5, 25, ONE, &left_since(0), 0);
    assert_eq!((gap, size, alpha), (10, 30, 200_000));
    assert_eq!(flags(&mask), [true, true, true, true, true, false]);
    assert_eq!(mask.alpha_multiplier, 200_000);
}

#[test]
fn the_two_mouse_effects_do_not_touch_each_other() {
    let only_gap = MouseEffect {
        enabled: true,
        gap_effect: expand(2 * ONE, false),
        visibility_effect: VisibilityEffect::default(),
    };
    let (gap, size, alpha, mask) = only_gap.apply_effects(5, 25, ONE, &left_since(0), 0);
    assert_eq!((gap, size, alpha), (10, 30, ONE));
    assert_eq!(flags(&mask), [true; 6]);
    let only_visibility = MouseEffect {
        enabled: true,
        gap_effect: GapEffect::default(),
        visibility_effect: fading(800_000, false, ONE),
    };
    let (gap, size, alpha, mask) = only_visibility.apply_effects(5, 25, ONE, &left_since(0), 0);
    assert_eq!((gap, size, alpha), (5, 25, 200_000));
    assert_eq!(flags(&mask), [true, true, true, true, true, false]);
}

#[test]
fn default_mouse_effect_is_off() {
    let effects = MouseEffect::default();
    assert!(!effects.enabled);
    assert!(!effects.gap_effect.enabled);
    assert!(!effects.visibility_effect.enabled);
}

#[test]
fn first_button_down_starts_the_press() {
    let mut capture = MouseCapture::new();
    assert!(!capture.is_any_button_pressed());
    assert!(!has_mouse_state_changed(&mut capture));
    set_button_state(&mut capture, true, true, false, false, 1_000);
    let state = capture.get_mouse_state();
    assert!(state.left_pressed && !state.right_pressed && !state.middle_pressed);
    assert_eq!(state.press_time, Some(1_000));
    assert!(capture.is_any_button_pressed());
}

#[test]
fn second_button_does_not_restart_the_press() {
    let mut capture = MouseCapture::new();
    set_button_state(&mut capture, true, true, false, false, 1_000);
    set_button_state(&mut capture, true, false, true, false, 2_000);
    assert_eq!(capture.get_mouse_state().press_time, Some(1_000));
    set_button_state(&mut capture, false, true, false, false, 3_000);
    let state = capture.get_mouse_state();
    assert!(!state.left_pressed && state.right_pressed);
    assert_eq!(state.press_time, Some(1_000));
    assert_eq!(state.press_duration(3_500), 2_500);
}

#[test]
fn last_button_up_ends_the_press() {
    let mut capture = MouseCapture::new();
    set_button_state(&mut capture, true, true, false, false, 1_000);
    set_button_state(&mut capture, true, false, false, true, 2_000);
    set_button_state(&mut capture, false, true, false, false, 3_000);
    set_button_state(&mut capture, false, false, false, true, 4_000);
    let state = capture.get_mouse_state();
    assert!(!state.any_pressed());
    assert_eq!(state.press_time, None);
    set_button_state(&mut capture, true, false, true, false, 5_000);
    assert_eq!(capture.get_mouse_state().press_time, Some(5_000));
}

#[test]
fn repeated_down_keeps_the_start() {
    let mut capture = MouseCapture::new();
    set_button_state(&mut capture, true, true, false, false, 1_000);
    set_button_state(&mut capture, true, true, false, false, 2_000);
    assert_eq!(capture.get_mouse_state().press_time, Some(1_000));
}

#[test]
fn up_without_down_starts_nothing() {
    let mut capture = MouseCapture::new();
    set_button_state(&mut capture, false, true, false, false, 1_000);
    assert_eq!(capture.get_mouse_state().press_time, None);
    assert!(!capture.is_any_button_pressed());
    assert!(has_mouse_state_changed(&mut capture));
}

#[test]
fn first_flag_picks_the_button() {
    let mut capture = MouseCapture::new();
    set_button_state(&mut capture, true, true, true, true, 1_000);
    let state = capture.get_mouse_state();
    assert!(state.left_pressed && !state.right_pressed && !state.middle_pressed);
    let mut capture = MouseCapture::new();
    set_button_state(&mut capture, true, false, true, true, 1_000);
    let state = capture.get_mouse_state();
    assert!(!state.left_pressed && state.right_pressed && !state.middle_pressed);
}

#[test]
fn event_for_no_button_only_marks_a_change() {
    let mut capture = MouseCapture::new();
    set_button_state(&mut capture, true, false, false, false, 1_000);
    assert!(!capture.is_any_button_pressed());
    assert_eq!(capture.get_mouse_state().press_time, None);
    assert!(has_mouse_state_changed(&mut capture));
}

#[test]
fn asking_for_a_change_clears_the_mark() {
    let mut capture = MouseCapture::new();
    set_button_state(&mut capture, true, true, false, false, 1_000);
    assert!(has_mouse_state_changed(&mut capture));
    assert!(!has_mouse_state_changed(&mut capture));
    assert!(capture.is_any_button_pressed());
    assert_eq!(capture.get_mouse_state().press_time, Some(1_000));
}

#[test]
fn stopping_releases_every_button() {
    let mut capture = MouseCapture::new();
    set_button_state(&mut capture, true, true, false, false, 1_000);
    set_button_state(&mut capture, true, false, true, false, 1_000);
    capture.stop();
    let state = capture.get_mouse_state();
    assert!(!state.any_pressed());
    assert_eq!(state.press_time, None);
    assert!(has_mouse_state_changed(&mut capture));
}

#[test]
fn events_by_button() {
    let mut capture = MouseCapture::new();
    capture.button_event(MouseButton::Middle, true, 10);
    assert!(capture.get_mouse_state().middle_pressed);
    capture.button_event(MouseButton::Right, true, 20);
    assert!(capture.get_mouse_state().right_pressed);
    capture.button_event(MouseButton::Left, true, 30);
    assert!(capture.get_mouse_state().left_pressed);
    assert_eq!(capture.get_mouse_state().press_time, Some(10));
    capture.button_event(MouseButton::Middle, false, 40);
    capture.button_event(MouseButton::Right, false, 50);
    capture.button_event(MouseButton::Left, false, 60);
    assert!(!capture.is_any_button_pressed());
    assert_eq!(capture.get_mouse_state().press_time, None);
}

#[test]
fn state_without_a_capture_is_released() {
    let state = get_global_mouse_state(&None);
    assert!(!state.any_pressed());
    assert_eq!(state.press_time, None);
    assert!(!is_any_button_pressed(&None));
    let mut capture = MouseCapture::new();
    set_button_state(&mut capture, true, false, true, false, 7);
    let some = Some(capture);
    assert!(get_global_mouse_state(&some).right_pressed);
    assert_eq!(get_global_mouse_state(&some).press_time, Some(7));
    assert!(is_any_button_pressed(&some));
}
