//! Keeping track of the mouse buttons from the events that report them.

use vstd::prelude::*;
use crate::mouse_capture::MouseButton;
use super::MouseState;

verus! {

/// The record of which buttons are held, kept up to date event by event.
#[derive(Debug, Clone, Copy)]
pub struct MouseCapture {
    /// The buttons and the start of the current press.
    pub state: MouseState,
    /// Whether an event has come in since this was last asked.
    pub changed: bool,
}

/// Whether a state's clock agrees with its buttons: a press has a start
/// exactly while some button is held.
pub open spec fn timed(state: MouseState) -> bool {
    state.press_time.is_some() == state.is_pressed()
}

/// The buttons after one of them, picked by the first flag that is set, has
/// gone down or up. With no flag set they stay as they are.
pub open spec fn buttons_after(
    state: MouseState,
    pressed: bool,
    is_left: bool,
    is_right: bool,
    is_middle: bool,
) -> MouseState {
    if is_left {
        MouseState { left_pressed: pressed, ..state }
    } else if is_right {
        MouseState { right_pressed: pressed, ..state }
    } else if is_middle {
        MouseState { middle_pressed: pressed, ..state }
    } else {
        state
    }
}

/// The state after a button event at time `now`. The press starts when the
/// first button goes down and ends when the last one comes up; a button
/// that goes down or up while another is held leaves the start alone.
pub open spec fn state_after(
    state: MouseState,
    pressed: bool,
    is_left: bool,
    is_right: bool,
    is_middle: bool,
    now: u64,
) -> MouseState {
    let next = buttons_after(state, pressed, is_left, is_right, is_middle);
    if !state.is_pressed() && next.is_pressed() {
        MouseState { press_time: Some(now), ..next }
    } else if state.is_pressed() && !next.is_pressed() {
        MouseState { press_time: None, ..next }
    } else {
        next
    }
}

impl MouseCapture {
    /// A record with no button held and nothing to report.
    pub fn new() -> (capture: Self)
        ensures
            capture.state == MouseState::released(),
            !capture.changed,
    {
        MouseCapture { state: MouseState::default(), changed: false }
    }

    /// Forgets every button and the press under way, as when the source of
    /// events goes away.
    pub fn stop(&mut self)
        ensures
            final(self).state == MouseState::released(),
            final(self).changed == old(self).changed,
    {
        self.state = MouseState::default();
    }

    /// The buttons as they stand.
    pub fn get_mouse_state(&self) -> (state: MouseState)
        ensures
            state == self.state,
    {
        self.state
    }

    /// Whether some button is held.
    pub fn is_any_button_pressed(&self) -> (pressed: bool)
        ensures
            pressed == self.state.is_pressed(),
    {
        self.state.any_pressed()
    }

    /// Takes in the event that `button` went down or up at time `now`.
    pub fn button_event(&mut self, button: MouseButton, pressed: bool, now: u64)
        ensures
            final(self).changed,
            final(self).state == state_after(
                old(self).state,
                pressed,
                button == MouseButton::Left,
                button == MouseButton::Right,
                button == MouseButton::Middle,
                now,
            ),
    {
        match button {
            MouseButton::Left => set_button_state(self, pressed, true, false, false, now),
            MouseButton::Right => set_button_state(self, pressed, false, true, false, now),
            MouseButton::Middle => set_button_state(self, pressed, false, false, true, now),
        }
    }
}

/// Takes in a button event at time `now`, in millionths of a second: the
/// button is the one whose flag is set, the first of them if several are.
pub fn set_button_state(
    capture: &mut MouseCapture,
    pressed: bool,
    is_left: bool,
    is_right: bool,
    is_middle: bool,
    now: u64,
)
    ensures
        final(capture).changed,
        final(capture).state == state_after(old(capture).state, pressed, is_left, is_right, is_middle, now),
        timed(old(capture).state) ==> timed(final(capture).state),
        old(capture).state.is_pressed() && final(capture).state.is_pressed()
            ==> final(capture).state.press_time == old(capture).state.press_time,
{
    let any_was_pressed: bool = capture.state.any_pressed();
    if is_left {
        capture.state.left_pressed = pressed;
    } else if is_right {
        capture.state.right_pressed = pressed;
    } else if is_middle {
        capture.state.middle_pressed = pressed;
    }
    let any_is_pressed: bool = capture.state.any_pressed();
    capture.changed = true;
    if !any_was_pressed && any_is_pressed {
        capture.state.press_time = Some(now);
    } else if any_was_pressed && !any_is_pressed {
        capture.state.press_time = None;
    }
}

/// The buttons as the capture has them, or none held where there is no
/// capture.
pub fn get_global_mouse_state(capture: &Option<MouseCapture>) -> (state: MouseState)
    ensures
        state == (match *capture {
            Some(c) => c.state,
            None => MouseState::released(),
        }),
{
    match capture {
        Some(c) => c.get_mouse_state(),
        None => MouseState::default(),
    }
}

/// Whether the capture has some button held; not where there is no capture.
pub fn is_any_button_pressed(capture: &Option<MouseCapture>) -> (pressed: bool)
    ensures
        pressed == (match *capture {
            Some(c) => c.state.is_pressed(),
            None => false,
        }),
{
    match capture {
        Some(c) => c.is_any_button_pressed(),
        None => false,
    }
}

/// Whether an event has come in since this was last asked. Asking clears
/// the mark.
pub fn has_mouse_state_changed(capture: &mut MouseCapture) -> (changed: bool)
    ensures
        changed == old(capture).changed,
        !final(capture).changed,
        final(capture).state == old(capture).state,
{
    let changed: bool = capture.changed;
    capture.changed = false;
    changed
}

} // verus!
