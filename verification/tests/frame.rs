use crosshair_overlay::config::effects::mouse::gap_effect::{GapButtonBinding, GapEffect, GapMode};
use crosshair_overlay::config::effects::mouse::visibility_effect::{
    HideMode, VisibilityButtonBinding, VisibilityEffect,
};
use crosshair_overlay::config::effects::mouse::{MouseState, VisibilityMask};
use crosshair_overlay::config::effects::{
    Effects, FrameWaves, PulseEffect, RainbowEffect, ShakeEffect,
};
use crosshair_overlay::crosshair::raster::draw_shape;
use crosshair_overlay::crosshair::{
    CircleCrosshair, ClassicCrosshair, CrossCrosshair, Crosshair, CrosshairRenderer,
    CrosshairStyle, DiamondCrosshair, DotCrosshair, PlusCrosshair, SquareCrosshair,
    TShapeCrosshair, XShapeCrosshair,
};
use crosshair_overlay::fixed::ONE;

const GREEN: u32 = 0xFF00FF00;
const RED: u32 = 0xFFFF0000;

fn still() -> FrameWaves {
    FrameWaves { pulse: 0, dot_pulse: 0, shake_x: 0, shake_y: 0 }
}

fn released() -> MouseState {
    MouseState::default()
}

fn left_held() -> MouseState {
    MouseState { left_pressed: true, right_pressed: false, middle_pressed: false, press_time: Some(0) }
}

fn without_dot() -> Crosshair {
    let mut crosshair = Crosshair::default();
    crosshair.center_dot.enabled = false;
    crosshair
}

fn drawn(crosshair: &Crosshair, effects: &Effects, time: u64, mouse: &MouseState, waves: &FrameWaves) -> Vec<u32> {
    let mut buffer = vec![0u32; 100 * 100];
    crosshair.draw(&mut buffer, 100, 100, effects, time, mouse, waves);
    buffer
}

fn at(buffer: &[u32], x: usize, y: usize) -> u32 {
    buffer[y * 100 + x]
}

fn hiding(mode: HideMode, fade_percentage: i32) -> Effects {
    let mut effects = Effects::default();
    effects.mouse.enabled = true;
    effects.mouse.visibility_effect = VisibilityEffect {
        enabled: true,
        hide_mode: mode,
        fade_percentage,
        smooth_fade: false,
        fade_speed: ONE,
        button_binding: VisibilityButtonBinding { left_click: Some(mode), right_click: None, middle_click: None },
    };
    effects
}

#[test]
fn default_crosshair_leaves_the_centre_alone() {
    let buffer = drawn(&without_dot(), &Effects::default(), 0, &released(), &still());
    assert_eq!(at(&buffer, 50, 50), 0);
}

#[test]
fn default_crosshair_paints_its_arm() {
    let buffer = drawn(&without_dot(), &Effects::default(), 0, &released(), &still());
    assert_eq!(at(&buffer, 65, 50), GREEN);
    assert_eq!(at(&buffer, 35, 50), GREEN);
    assert_eq!(at(&buffer, 50, 65), GREEN);
    assert_eq!(at(&buffer, 50, 35), GREEN);
}

#[test]
fn default_crosshair_ends_at_its_size() {
    let buffer = drawn(&without_dot(), &Effects::default(), 0, &released(), &still());
    assert_eq!(at(&buffer, 81, 50), 0);
    assert_eq!(at(&buffer, 76, 50), 0);
    assert_eq!(at(&buffer, 75, 50), GREEN);
}

#[test]
fn default_crosshair_pixel_by_pixel() {
    let buffer = drawn(&without_dot(), &Effects::default(), 0, &released(), &still());
    let mut painted = 0;
    for y in 0..100usize {
        for x in 0..100usize {
            let dx = x.abs_diff(50);
            let dy = y.abs_diff(50);
            let on = (dy <= 1 && (5..=25).contains(&dx)) || (dx <= 1 && (5..=25).contains(&dy));
            assert_eq!(at(&buffer, x, y), if on { GREEN } else { 0 });
            if on {
                painted += 1;
            }
        }
    }
    assert_eq!(painted, 252);
}

#[test]
fn default_crosshair_has_a_red_centre_dot() {
    let buffer = drawn(&Crosshair::default(), &Effects::default(), 0, &released(), &still());
    let mut red = 0;
    for y in 0..100usize {
        for x in 0..100usize {
            let dx = x.abs_diff(50);
            let dy = y.abs_diff(50);
            if dx * dx + dy * dy <= 4 {
                assert_eq!(at(&buffer, x, y), RED);
                red += 1;
            } else {
                assert_ne!(at(&buffer, x, y), RED);
            }
        }
    }
    assert_eq!(red, 13);
    assert_eq!(at(&buffer, 65, 50), GREEN);
}

#[test]
fn drawing_keeps_what_lies_beside_the_shape() {
    let mut buffer = vec![0x11223344u32; 100 * 100];
    without_dot().draw(&mut buffer, 100, 100, &Effects::default(), 0, &released(), &still());
    assert_eq!(at(&buffer, 50, 50), 0x11223344);
    assert_eq!(at(&buffer, 0, 0), 0x11223344);
    assert_eq!(at(&buffer, 99, 99), 0x11223344);
    assert_eq!(at(&buffer, 65, 50), GREEN);
}

#[test]
fn drawing_into_an_empty_buffer() {
    let mut buffer: Vec<u32> = Vec::new();
    Crosshair::default().draw(&mut buffer, 0, 0, &Effects::default(), 0, &released(), &still());
    Crosshair::default().draw(&mut buffer, 0, 7, &Effects::default(), 0, &released(), &still());
    Crosshair::default().draw(&mut buffer, 7, 0, &Effects::default(), 0, &released(), &still());
    assert!(buffer.is_empty());
}

#[test]
fn drawing_into_a_buffer_that_is_not_square() {
    let mut buffer = vec![0u32; 60 * 20];
    without_dot().draw(&mut buffer, 60, 20, &Effects::default(), 0, &released(), &still());
    assert_eq!(buffer[10 * 60 + 30], 0);
    assert_eq!(buffer[10 * 60 + 35], GREEN);
    assert_eq!(buffer[10 * 60 + 55], GREEN);
    assert_eq!(buffer[10 * 60 + 56], 0);
    assert_eq!(buffer[15 * 60 + 30], GREEN);
    assert_eq!(buffer[19 * 60 + 30], GREEN);
    assert_eq!(buffer[0 * 60 + 30], GREEN);
    assert_eq!(buffer[12 * 60 + 35], 0);
}

#[test]
fn transparent_shape_paints_nothing() {
    let mut crosshair = without_dot();
    crosshair.color = "#000000".to_string();
    crosshair.alpha = 0;
    let mut buffer = vec![0x11223344u32; 100 * 100];
    crosshair.draw(&mut buffer, 100, 100, &Effects::default(), 0, &released(), &still());
    assert_eq!(at(&buffer, 65, 50), 0x11223344);
}

#[test]
fn shake_moves_the_shape() {
    let mut effects = Effects::default();
    effects.shake = ShakeEffect { enabled: true, intensity: 2 * ONE, speed: 10 * ONE };
    let waves = FrameWaves { shake_x: ONE, shake_y: 0, ..still() };
    let buffer = drawn(&without_dot(), &effects, 0, &released(), &waves);
    assert_eq!(at(&buffer, 56, 50), 0);
    assert_eq!(at(&buffer, 57, 50), GREEN);
    assert_eq!(at(&buffer, 77, 50), GREEN);
    assert_eq!(at(&buffer, 78, 50), 0);
    assert_eq!(at(&buffer, 52, 65), GREEN);
    assert_eq!(at(&buffer, 50, 65), 0);
}

#[test]
fn shake_is_cut_to_whole_pixels() {
    let mut effects = Effects::default();
    effects.shake = ShakeEffect { enabled: true, intensity: 2 * ONE, speed: 10 * ONE };
    let forwards = FrameWaves { shake_x: 250_000, shake_y: 250_000, ..still() };
    let buffer = drawn(&without_dot(), &effects, 0, &released(), &forwards);
    assert_eq!(at(&buffer, 55, 51), 0);
    assert_eq!(at(&buffer, 56, 51), GREEN);
    assert_eq!(at(&buffer, 76, 51), GREEN);
    assert_eq!(at(&buffer, 77, 51), 0);
    assert_eq!(at(&buffer, 65, 49), 0);
    assert_eq!(at(&buffer, 65, 52), GREEN);
    let backwards = FrameWaves { shake_x: -250_000, shake_y: -250_000, ..still() };
    let buffer = drawn(&without_dot(), &effects, 0, &released(), &backwards);
    assert_eq!(at(&buffer, 54, 50), 0);
    assert_eq!(at(&buffer, 55, 50), GREEN);
    assert_eq!(at(&buffer, 75, 50), GREEN);
    assert_eq!(at(&buffer, 76, 50), 0);
}

#[test]
fn shake_moves_the_centre_dot_without_cutting() {
    let mut effects = Effects::default();
    effects.shake = ShakeEffect { enabled: true, intensity: 2 * ONE, speed: 10 * ONE };
    let mut crosshair = Crosshair::default();
    crosshair.style = CrosshairStyle::Diamond;
    crosshair.gap = 30;
    crosshair.size = 30;
    let waves = FrameWaves { shake_x: 250_000, shake_y: 0, ..still() };
    let buffer = drawn(&crosshair, &effects, 0, &released(), &waves);
    assert_eq!(at(&buffer, 52, 50), RED);
    assert_eq!(at(&buffer, 53, 50), 0);
    assert_eq!(at(&buffer, 49, 50), RED);
    assert_eq!(at(&buffer, 48, 50), 0);
    assert_eq!(at(&buffer, 50, 52), 0);
    assert_eq!(at(&buffer, 51, 51), RED);
    assert_eq!(at(&buffer, 49, 51), RED);
    assert_eq!(at(&buffer, 52, 51), RED);
    assert_eq!(at(&buffer, 48, 51), 0);
}

#[test]
fn pulse_scales_the_opacity_of_shape_and_dot() {
    let mut effects = Effects::default();
    effects.pulse = PulseEffect { enabled: true, speed: 2 * ONE, min_alpha: 300_000, max_alpha: ONE };
    let waves = FrameWaves { pulse: -ONE, dot_pulse: ONE, ..still() };
    let buffer = drawn(&Crosshair::default(), &effects, 0, &released(), &waves);
    assert_eq!(at(&buffer, 65, 50), 0x4C00FF00);
    assert_eq!(at(&buffer, 50, 50), RED);
    let waves = FrameWaves { pulse: ONE, dot_pulse: 0, ..still() };
    let buffer = drawn(&Crosshair::default(), &effects, 0, &released(), &waves);
    assert_eq!(at(&buffer, 65, 50), GREEN);
    assert_eq!(at(&buffer, 50, 50), 0xA5FF0000);
}

#[test]
fn rainbow_colours_shape_and_dot_at_unlike_times() {
    let mut effects = Effects::default();
    effects.rainbow = RainbowEffect { enabled: true, speed: ONE, saturation: ONE, brightness: ONE };
    let buffer = drawn(&Crosshair::default(), &effects, 500_000, &released(), &still());
    assert_eq!(at(&buffer, 65, 50), 0xFF00FFFF);
    assert_eq!(at(&buffer, 50, 50), 0xFF7F00FF);
}

#[test]
fn rainbow_takes_the_opacity_of_the_settings() {
    let mut effects = Effects::default();
    effects.rainbow = RainbowEffect { enabled: true, speed: ONE, saturation: ONE, brightness: ONE };
    let mut crosshair = Crosshair::default();
    crosshair.alpha = ONE / 2;
    crosshair.center_dot.alpha = 800_000;
    let buffer = drawn(&crosshair, &effects, 0, &released(), &still());
    assert_eq!(at(&buffer, 65, 50), 0x7FFF0000);
    assert_eq!(at(&buffer, 50, 50), 0xCCFF0000);
}

#[test]
fn pulse_comes_after_the_rainbow() {
    let mut effects = Effects::default();
    effects.rainbow = RainbowEffect { enabled: true, speed: ONE, saturation: ONE, brightness: ONE };
    effects.pulse = PulseEffect { enabled: true, speed: 2 * ONE, min_alpha: 300_000, max_alpha: ONE };
    let mut crosshair = Crosshair::default();
    crosshair.alpha = ONE / 2;
    let waves = FrameWaves { pulse: -ONE, dot_pulse: -ONE, ..still() };
    let buffer = drawn(&crosshair, &effects, 0, &released(), &waves);
    assert_eq!(at(&buffer, 65, 50), 0x26FF0000);
    assert_eq!(at(&buffer, 50, 50), 0x4CFF0000);
}

#[test]
fn outline_paints_the_border_of_the_shape() {
    let mut crosshair = without_dot();
    crosshair.thickness = 6;
    crosshair.outline.enabled = true;
    crosshair.outline.color = "#0000FF".to_string();
    crosshair.outline.alpha = ONE;
    let buffer = drawn(&crosshair, &Effects::default(), 0, &released(), &still());
    assert_eq!(at(&buffer, 65, 50), GREEN);
    assert_eq!(at(&buffer, 65, 52), GREEN);
    assert_eq!(at(&buffer, 65, 53), 0xFF0000FF);
    assert_eq!(at(&buffer, 65, 47), 0xFF0000FF);
    assert_eq!(at(&buffer, 65, 54), 0);
    assert_eq!(at(&buffer, 55, 50), 0xFF0000FF);
    assert_eq!(at(&buffer, 75, 50), 0xFF0000FF);
    assert_eq!(at(&buffer, 56, 50), GREEN);
}

#[test]
fn outline_that_is_off_paints_nothing() {
    let mut crosshair = without_dot();
    crosshair.thickness = 6;
    crosshair.outline.color = "#0000FF".to_string();
    let buffer = drawn(&crosshair, &Effects::default(), 0, &released(), &still());
    assert_eq!(at(&buffer, 65, 53), GREEN);
    assert_eq!(at(&buffer, 55, 50), GREEN);
}

#[test]
fn outline_of_a_ring_lies_on_both_of_its_sides() {
    let mut crosshair = without_dot();
    crosshair.style = CrosshairStyle::Circle;
    crosshair.size = 20;
    crosshair.thickness = 6;
    crosshair.gap = 0;
    crosshair.outline.enabled = true;
    crosshair.outline.color = "#0000FF".to_string();
    crosshair.outline.alpha = ONE;
    let buffer = drawn(&crosshair, &Effects::default(), 0, &released(), &still());
    assert_eq!(at(&buffer, 63, 50), 0);
    assert_eq!(at(&buffer, 64, 50), 0xFF0000FF);
    assert_eq!(at(&buffer, 65, 50), GREEN);
    assert_eq!(at(&buffer, 69, 50), GREEN);
    assert_eq!(at(&buffer, 70, 50), 0xFF0000FF);
    assert_eq!(at(&buffer, 71, 50), 0);
}

#[test]
fn gap_effect_widens_the_drawn_shape() {
    let mut effects = Effects::default();
    effects.mouse.enabled = true;
    effects.mouse.gap_effect = GapEffect {
        enabled: true,
        mode: GapMode::Expand,
        intensity: 2 * ONE,
        smooth_transition: true,
        button_binding: GapButtonBinding::default(),
    };
    let buffer = drawn(&without_dot(), &effects, 1_000_000, &left_held(), &still());
    assert_eq!(at(&buffer, 59, 50), 0);
    assert_eq!(at(&buffer, 60, 50), GREEN);
    assert_eq!(at(&buffer, 80, 50), GREEN);
    assert_eq!(at(&buffer, 81, 50), 0);
    let buffer = drawn(&without_dot(), &effects, 250_000, &left_held(), &still());
    assert_eq!(at(&buffer, 57, 50), 0);
    assert_eq!(at(&buffer, 58, 50), GREEN);
    assert_eq!(at(&buffer, 78, 50), GREEN);
    assert_eq!(at(&buffer, 79, 50), 0);
    let buffer = drawn(&without_dot(), &effects, 1_000_000, &released(), &still());
    assert_eq!(at(&buffer, 55, 50), GREEN);
    assert_eq!(at(&buffer, 76, 50), 0);
}

#[test]
fn hidden_side_is_not_drawn() {
    let effects = hiding(HideMode::Left, 0);
    let buffer = drawn(&without_dot(), &effects, 0, &left_held(), &still());
    assert_eq!(at(&buffer, 35, 50), 0);
    assert_eq!(at(&buffer, 65, 50), GREEN);
    assert_eq!(at(&buffer, 50, 35), GREEN);
    assert_eq!(at(&buffer, 49, 35), 0);
    assert_eq!(at(&buffer, 51, 35), GREEN);
    let buffer = drawn(&without_dot(), &effects, 0, &released(), &still());
    assert_eq!(at(&buffer, 35, 50), GREEN);
}

#[test]
fn hidden_cross_leaves_only_the_middle_lines() {
    let effects = hiding(HideMode::Cross, 0);
    let buffer = drawn(&without_dot(), &effects, 0, &left_held(), &still());
    assert_eq!(at(&buffer, 65, 50), 0);
    assert_eq!(at(&buffer, 35, 50), 0);
    assert_eq!(at(&buffer, 50, 65), 0);
    assert_eq!(at(&buffer, 50, 35), 0);
    assert_eq!(at(&buffer, 65, 51), 0);
}

#[test]
fn hidden_centre_takes_box_and_dot() {
    let effects = hiding(HideMode::Center, 0);
    let mut crosshair = Crosshair::default();
    crosshair.style = CrosshairStyle::Cross;
    let buffer = drawn(&crosshair, &effects, 0, &left_held(), &still());
    assert_eq!(at(&buffer, 50, 50), 0);
    assert_eq!(at(&buffer, 53, 50), 0);
    assert_eq!(at(&buffer, 47, 51), 0);
    assert_eq!(at(&buffer, 54, 50), GREEN);
    assert_eq!(at(&buffer, 50, 46), GREEN);
    let buffer = drawn(&crosshair, &effects, 0, &released(), &still());
    assert_eq!(at(&buffer, 50, 50), RED);
    assert_eq!(at(&buffer, 53, 50), GREEN);
}

#[test]
fn hiding_all_leaves_the_centre_dot() {
    let effects = hiding(HideMode::Full, 0);
    let buffer = drawn(&Crosshair::default(), &effects, 0, &left_held(), &still());
    assert_eq!(at(&buffer, 65, 50), 0);
    assert_eq!(at(&buffer, 50, 65), 0);
    assert_eq!(at(&buffer, 50, 50), RED);
    assert_eq!(at(&buffer, 52, 50), RED);
}

#[test]
fn fade_enters_twice() {
    let effects = hiding(HideMode::Left, 800_000);
    let buffer = drawn(&Crosshair::default(), &effects, 0, &left_held(), &still());
    assert_eq!(at(&buffer, 65, 50), 0x0A00FF00);
    assert_ne!(at(&buffer, 65, 50), 0x3300FF00);
    assert_eq!(at(&buffer, 35, 50), 0);
    assert_eq!(at(&buffer, 50, 50), RED);
}

#[test]
fn fade_to_nothing_paints_nothing() {
    let effects = hiding(HideMode::Left, ONE);
    let mut buffer = vec![0x11223344u32; 100 * 100];
    let mut crosshair = without_dot();
    crosshair.color = "#000000".to_string();
    crosshair.draw(&mut buffer, 100, 100, &effects, 0, &left_held(), &still());
    assert_eq!(at(&buffer, 65, 50), 0x11223344);
    let green = without_dot();
    green.draw(&mut buffer, 100, 100, &effects, 0, &left_held(), &still());
    assert_eq!(at(&buffer, 65, 50), 0x0000FF00);
}

#[test]
fn mask_lays_a_painted_sheet_onto_the_buffer() {
    let crosshair = without_dot();
    let mask = VisibilityMask { show_right: false, alpha_multiplier: ONE / 2, ..VisibilityMask::default() };
    let mut buffer = vec![0x11223344u32; 100 * 100];
    crosshair.draw_with_visibility_mask(
        &ClassicCrosshair,
        &crosshair,
        &mut buffer,
        100,
        100,
        &Effects::default(),
        0,
        &still(),
        &mask,
    );
    assert_eq!(at(&buffer, 35, 50), 0x7F00FF00);
    assert_eq!(at(&buffer, 65, 50), 0x11223344);
    assert_eq!(at(&buffer, 50, 50), 0x11223344);
    assert_eq!(at(&buffer, 50, 65), 0x7F00FF00);
    assert_eq!(at(&buffer, 51, 65), 0x11223344);
}

#[test]
fn mask_that_hides_all_lays_nothing() {
    let crosshair = without_dot();
    let mask = VisibilityMask { show_full: false, ..VisibilityMask::default() };
    let mut buffer = vec![0x11223344u32; 100 * 100];
    crosshair.draw_with_visibility_mask(
        &ClassicCrosshair,
        &crosshair,
        &mut buffer,
        100,
        100,
        &Effects::default(),
        0,
        &still(),
        &mask,
    );
    assert!(buffer.iter().all(|&p| p == 0x11223344));
}

#[test]
fn mask_uses_the_painter_it_is_given() {
    let crosshair = without_dot();
    let mask = VisibilityMask::default();
    let mut buffer = vec![0u32; 100 * 100];
    crosshair.draw_with_visibility_mask(
        &DotCrosshair,
        &crosshair,
        &mut buffer,
        100,
        100,
        &Effects::default(),
        0,
        &still(),
        &mask,
    );
    assert_eq!(at(&buffer, 50, 50), GREEN);
    assert_eq!(at(&buffer, 75, 50), GREEN);
    assert_eq!(at(&buffer, 76, 50), 0);
}

#[test]
fn centre_dot_alone() {
    let mut crosshair = Crosshair::default();
    crosshair.center_dot.size = 3;
    crosshair.center_dot.color = "#FFFF00".to_string();
    let mut buffer = vec![0x11223344u32; 100 * 100];
    crosshair.draw_center_dot_with_effects(&mut buffer, 100, 100, &Effects::default(), 0, &still());
    assert_eq!(at(&buffer, 50, 50), 0xFFFFFF00);
    assert_eq!(at(&buffer, 53, 50), 0xFFFFFF00);
    assert_eq!(at(&buffer, 52, 52), 0xFFFFFF00);
    assert_eq!(at(&buffer, 53, 51), 0x11223344);
    assert_eq!(at(&buffer, 54, 50), 0x11223344);
    assert_eq!(at(&buffer, 65, 50), 0x11223344);
}

#[test]
fn centre_dot_sits_on_the_middle_pixel_of_an_odd_buffer() {
    let mut crosshair = Crosshair::default();
    crosshair.center_dot.size = 0;
    let mut buffer = vec![0u32; 5 * 5];
    crosshair.draw_center_dot_with_effects(&mut buffer, 5, 5, &Effects::default(), 0, &still());
    for (i, &pixel) in buffer.iter().enumerate() {
        assert_eq!(pixel, if i == 12 { RED } else { 0 });
    }
}

#[test]
fn centre_dot_colour_in_a_frame() {
    let mut effects = Effects::default();
    let crosshair = Crosshair::default();
    assert_eq!(crosshair.center_dot_frame_color(&effects, 0, 0), RED);
    effects.rainbow = RainbowEffect { enabled: true, speed: ONE, saturation: ONE, brightness: ONE };
    assert_eq!(crosshair.center_dot_frame_color(&effects, 500_000, 0), 0xFF7F00FF);
    assert_eq!(crosshair.center_dot_frame_color(&effects, u64::MAX, 0) >> 24, 0xFF);
    assert_eq!(crosshair.shape_color(&effects, 500_000, 0), 0xFF00FFFF);
}

#[test]
fn every_painter_paints_its_own_shape() {
    let mut c = without_dot();
    c.size = 20;
    c.thickness = 2;
    c.gap = 5;
    let e = Effects::default();
    let w = still();
    let mut b = vec![0u32; 100 * 100];
    ClassicCrosshair.draw(&c, &mut b, 100, 100, &e, 0, &w);
    assert_eq!((at(&b, 50, 50), at(&b, 60, 50), at(&b, 60, 60)), (0, GREEN, 0));
    let mut b = vec![0u32; 100 * 100];
    DotCrosshair.draw(&c, &mut b, 100, 100, &e, 0, &w);
    assert_eq!((at(&b, 50, 50), at(&b, 60, 50), at(&b, 60, 60)), (GREEN, GREEN, GREEN));
    assert_eq!(at(&b, 65, 65), 0);
    let mut b = vec![0u32; 100 * 100];
    CrossCrosshair.draw(&c, &mut b, 100, 100, &e, 0, &w);
    assert_eq!((at(&b, 50, 50), at(&b, 60, 50), at(&b, 60, 60)), (GREEN, GREEN, 0));
    let mut b = vec![0u32; 100 * 100];
    CircleCrosshair.draw(&c, &mut b, 100, 100, &e, 0, &w);
    assert_eq!((at(&b, 50, 50), at(&b, 60, 50), at(&b, 69, 50)), (0, 0, GREEN));
    let mut b = vec![0u32; 100 * 100];
    TShapeCrosshair.draw(&c, &mut b, 100, 100, &e, 0, &w);
    assert_eq!((at(&b, 50, 50), at(&b, 50, 60), at(&b, 50, 40)), (GREEN, GREEN, 0));
    let mut b = vec![0u32; 100 * 100];
    PlusCrosshair.draw(&c, &mut b, 100, 100, &e, 0, &w);
    assert_eq!((at(&b, 50, 50), at(&b, 60, 52), at(&b, 60, 53)), (GREEN, GREEN, 0));
    let mut b = vec![0u32; 100 * 100];
    XShapeCrosshair.draw(&c, &mut b, 100, 100, &e, 0, &w);
    assert_eq!((at(&b, 50, 50), at(&b, 60, 60), at(&b, 60, 50)), (GREEN, GREEN, 0));
    let mut b = vec![0u32; 100 * 100];
    SquareCrosshair.draw(&c, &mut b, 100, 100, &e, 0, &w);
    assert_eq!((at(&b, 50, 50), at(&b, 60, 60), at(&b, 71, 50)), (0, GREEN, 0));
    let mut b = vec![0u32; 100 * 100];
    DiamondCrosshair.draw(&c, &mut b, 100, 100, &e, 0, &w);
    assert_eq!((at(&b, 50, 50), at(&b, 60, 60), at(&b, 61, 60)), (0, GREEN, 0));
}

#[test]
fn frame_follows_the_style_of_the_settings() {
    let mut c = without_dot();
    for (style, centre, diagonal) in [
        (CrosshairStyle::Classic, 0, 0),
        (CrosshairStyle::Dot, GREEN, GREEN),
        (CrosshairStyle::Cross, GREEN, 0),
        (CrosshairStyle::Circle, 0, 0),
        (CrosshairStyle::T, GREEN, 0),
        (CrosshairStyle::Plus, GREEN, 0),
        (CrosshairStyle::X, GREEN, GREEN),
        (CrosshairStyle::Square, 0, GREEN),
        (CrosshairStyle::Diamond, 0, GREEN),
    ] {
        c.style = style;
        let buffer = drawn(&c, &Effects::default(), 0, &released(), &still());
        assert_eq!(at(&buffer, 50, 50), centre);
        assert_eq!(at(&buffer, 60, 60), diagonal);
    }
}

#[test]
fn outline_stops_at_the_border_of_the_buffer() {
    let mut c = without_dot();
    c.size = 1;
    c.thickness = 2;
    c.gap = 0;
    c.outline.enabled = true;
    c.outline.color = "#0000FF".to_string();
    c.outline.alpha = ONE;
    let mut buffer = vec![0u32; 16];
    draw_shape(CrosshairStyle::Cross, &c, &mut buffer, 4, 4, &Effects::default(), 0, &still());
    let blue = 0xFF0000FF;
    assert_eq!(
        buffer,
        vec![0, 0, 0, 0, 0, blue, blue, blue, 0, blue, GREEN, GREEN, 0, blue, GREEN, GREEN]
    );
}

#[test]
fn settings_with_another_geometry() {
    let c = Crosshair::default();
    let m = c.modified(7, 30, 250_000);
    assert_eq!((m.gap, m.size, m.alpha), (7, 30, 250_000));
    assert_eq!((m.thickness, m.style, m.rotation), (c.thickness, c.style, c.rotation));
    assert_eq!(m.color, c.color);
    assert_eq!(m.center_dot.color, c.center_dot.color);
    assert_eq!(m.center_dot.enabled, c.center_dot.enabled);
    assert_eq!(m.center_dot.size, c.center_dot.size);
    assert_eq!(m.center_dot.alpha, c.center_dot.alpha);
    assert_eq!(m.outline.color, c.outline.color);
    assert_eq!(m.outline.enabled, c.outline.enabled);
    assert_eq!(m.outline.thickness, c.outline.thickness);
    assert_eq!(m.outline.alpha, c.outline.alpha);
    assert_eq!((m.triangle_bars, m.filled_circle), (c.triangle_bars, c.filled_circle));
}

#[test]
fn default_settings() {
    let c = Crosshair::default();
    assert_eq!((c.size, c.thickness, c.gap), (25, 2, 5));
    assert_eq!(c.color, "#00FF00");
    assert_eq!(c.alpha, ONE);
    assert_eq!(c.rotation.cos, ONE);
    assert_eq!(c.rotation.sin, 0);
    assert!(c.center_dot.enabled);
    assert_eq!(c.center_dot.size, 2);
    assert_eq!(c.center_dot.color, "#FF0000");
    assert_eq!(c.center_dot.alpha, ONE);
    assert_eq!(c.style, CrosshairStyle::Classic);
    assert!(!c.outline.enabled);
    assert_eq!(c.outline.thickness, 1);
    assert_eq!(c.outline.color, "#000000");
    assert_eq!(c.outline.alpha, 800_000);
    assert!(!c.triangle_bars);
    assert!(!c.filled_circle);
}

#[test]
fn turned_shape_is_drawn_turned() {
    let mut c = without_dot();
    c.style = CrosshairStyle::T;
    c.size = 20;
    let upright = drawn(&c, &Effects::default(), 0, &released(), &still());
    assert_eq!(at(&upright, 50, 60), GREEN);
    assert_eq!(at(&upright, 50, 40), 0);
    assert_eq!(at(&upright, 40, 50), GREEN);
    assert_eq!(at(&upright, 60, 50), GREEN);
    c.rotation = crosshair_overlay::crosshair::Rotation { cos: 0, sin: ONE };
    let turned = drawn(&c, &Effects::default(), 0, &released(), &still());
    assert_eq!(at(&turned, 60, 50), GREEN);
    assert_eq!(at(&turned, 40, 50), 0);
    assert_eq!(at(&turned, 50, 60), GREEN);
    assert_eq!(at(&turned, 50, 40), GREEN);
}
