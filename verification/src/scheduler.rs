//! When the next frame is due.
//!
//! The library draws a frame when asked and keeps no clock of its own. This
//! module holds the rule by which an event loop decides when to ask: at a
//! steady pace while some effect is animated, and otherwise only when a
//! mouse button has changed while the mouse effects are on.

use vstd::prelude::*;
use crate::config::CrosshairConfig;
use crate::config::effects::Effects;
use crate::config::effects::FrameWaves;
use crate::config::effects::mouse::MouseCapture;
use crate::config::effects::mouse::MouseState;
use crate::config::effects::mouse::has_mouse_state_changed;

verus! {

/// The time from one animated frame to the next, in millionths of a second:
/// about thirty frames per second.
pub const FRAME_INTERVAL: u64 = 33_000;

/// What an event loop is to do before it goes to sleep.
#[derive(Debug, Clone, Copy, PartialEq, Eq, Structural)]
pub struct Wake {
    /// The time at which to wake without an event, if any.
    pub until: Option<u64>,
    /// Whether to ask for a frame now.
    pub redraw: bool,
}

/// The pacing of frames.
#[derive(Debug, Clone, Copy)]
pub struct FrameScheduler {
    /// When the last paced frame was asked for.
    pub last_frame_time: u64,
    /// The least time between two paced frames.
    pub frame_rate_limit: u64,
    /// Whether the picture on screen is out of date.
    pub needs_redraw: bool,
}

/// `a + b`, or the largest `u64` where that is less.
pub open spec fn capped_sum(a: u64, b: u64) -> u64 {
    if a + b > u64::MAX {
        u64::MAX
    } else {
        (a + b) as u64
    }
}

impl FrameScheduler {
    /// The time at which the next paced frame is due.
    pub open spec fn next_frame(&self) -> u64 {
        capped_sum(self.last_frame_time, self.frame_rate_limit)
    }

    /// Whether a wait at time `now` ends in a request for a frame: the next
    /// paced frame is due, where the effects are animated; a button has
    /// changed, where they are not and the mouse effects are on.
    pub open spec fn frame_due(&self, effects: &Effects, button_changed: bool, now: u64) -> bool {
        if effects.is_animated() {
            now >= self.next_frame()
        } else {
            effects.mouse.enabled && button_changed
        }
    }

    /// A scheduler that starts at `now` with a first frame owed.
    pub fn new(now: u64) -> (scheduler: Self)
        ensures
            scheduler.last_frame_time == now,
            scheduler.frame_rate_limit == FRAME_INTERVAL,
            scheduler.needs_redraw,
    {
        FrameScheduler { last_frame_time: now, frame_rate_limit: FRAME_INTERVAL, needs_redraw: true }
    }

    /// Marks the picture as out of date, as after a change of settings.
    pub fn invalidate(&mut self)
        ensures
            final(self).needs_redraw,
            final(self).last_frame_time == old(self).last_frame_time,
            final(self).frame_rate_limit == old(self).frame_rate_limit,
    {
        self.needs_redraw = true;
    }

    /// Decides, at time `now`, what the event loop does before it sleeps.
    /// While the effects are animated it wakes for the next paced frame and
    /// asks for a frame once that is due; the mark on the capture is left
    /// alone. Otherwise it sleeps until an event, and asks for a frame if
    /// the mouse effects are on and a button has changed since the capture
    /// was last asked, which clears the capture's mark.
    pub fn about_to_wait(&mut self, effects: &Effects, capture: &mut MouseCapture, now: u64) -> (wake: Wake)
        ensures
            wake.until == (if effects.is_animated() {
                Some(old(self).next_frame())
            } else {
                None
            }),
            wake.redraw == old(self).frame_due(effects, old(capture).changed, now),
            final(self).needs_redraw == (old(self).needs_redraw || wake.redraw),
            final(self).last_frame_time == (if effects.is_animated() && wake.redraw {
                now
            } else {
                old(self).last_frame_time
            }),
            final(self).frame_rate_limit == old(self).frame_rate_limit,
            final(capture).state == old(capture).state,
            final(capture).changed == (old(capture).changed && (effects.is_animated()
                || !effects.mouse.enabled)),
    {
        if effects.has_animated_effects() {
            let next_frame: u64 = if self.last_frame_time > u64::MAX - self.frame_rate_limit {
                u64::MAX
            } else {
                self.last_frame_time + self.frame_rate_limit
            };
            let due: bool = now >= next_frame;
            if due {
                self.needs_redraw = true;
                self.last_frame_time = now;
            }
            Wake { until: Some(next_frame), redraw: due }
        } else {
            let due: bool = effects.has_mouse_effects() && has_mouse_state_changed(capture);
            if due {
                self.needs_redraw = true;
            }
            Wake { until: None, redraw: due }
        }
    }

    /// Draws the window's frame into `buffer` if the picture is out of date,
    /// and says whether it did. After a frame the picture is out of date
    /// again at once exactly while some effect is animated.
    pub fn redraw(
        &mut self,
        config: &CrosshairConfig,
        buffer: &mut [u32],
        width: usize,
        height: usize,
        time: u64,
        mouse_state: &MouseState,
        waves: &FrameWaves,
    ) -> (drawn: bool)
        requires
            old(buffer).len() == width * height,
        ensures
            drawn == old(self).needs_redraw,
            final(self).needs_redraw == (old(self).needs_redraw && config.effects.is_animated()),
            final(self).last_frame_time == old(self).last_frame_time,
            final(self).frame_rate_limit == old(self).frame_rate_limit,
            final(buffer).len() == old(buffer).len(),
            !drawn ==> final(buffer)@ == old(buffer)@,
            drawn ==> forall|i: int|
                0 <= i < old(buffer).len() ==> final(buffer)@[i] == config.window_pixel(
                    time,
                    mouse_state,
                    waves,
                    i % (width as int),
                    i / (width as int),
                    width as int,
                    height as int,
                ),
    {
        if !self.needs_redraw {
            return false;
        }
        config.redraw(buffer, width, height, time, mouse_state, waves);
        self.needs_redraw = config.effects.has_animated_effects();
        true
    }
}

} // verus!
