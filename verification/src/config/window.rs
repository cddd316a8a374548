//! The window that the reticle is shown in.

use vstd::prelude::*;
use crate::fixed::ONE;
use crate::color::TRANSPARENT;
use crate::color::color_or;
use crate::color::parse_color;

verus! {

/// Where the window goes.
#[derive(Debug, Clone, Copy)]
pub struct Position {
    /// Whether the window sits in the middle of the screen.
    pub center_screen: bool,
    pub x: Option<i32>,
    pub y: Option<i32>,
    /// Whether the window follows the pointer.
    pub follow_cursor: bool,
    pub offset_x: i32,
    pub offset_y: i32,
}

/// What lies behind the reticle.
#[derive(Debug, Clone)]
pub struct Background {
    pub enabled: bool,
    /// The colour, as `#RRGGBB`.
    pub color: String,
    /// The opacity from zero to one, in fixed point.
    pub alpha: i32,
}

/// The window's settings.
#[derive(Debug, Clone)]
pub struct WindowConfig {
    /// The width and the height, in pixels.
    pub size: u32,
    pub position: Position,
    /// The opacity of the whole window from zero to one, in fixed point.
    pub opacity: i32,
    pub background: Background,
}

impl Default for Position {
    fn default() -> (position: Self)
        ensures
            position == Position::initial(),
    {
        Position { center_screen: true, x: None, y: None, follow_cursor: false, offset_x: 0, offset_y: 0 }
    }
}

impl Position {
    /// In the middle of the screen, still, with no offset.
    pub open spec fn initial() -> Position {
        Position { center_screen: true, x: None, y: None, follow_cursor: false, offset_x: 0, offset_y: 0 }
    }
}

impl Default for Background {
    fn default() -> (background: Self)
        ensures
            background.is_initial(),
    {
        Background { enabled: false, color: "#000000".to_owned(), alpha: 100_000 }
    }
}

impl Background {
    /// Whether these are the settings a background starts from: off,
    /// black, at one tenth of full opacity.
    pub open spec fn is_initial(&self) -> bool {
        &&& !self.enabled
        &&& self.color@ == "#000000"@
        &&& self.alpha == 100_000
    }

    /// The colour that a frame starts from: the background's colour under
    /// its opacity, where a colour string that names no colour counts as
    /// black; nothing at all where the background is off.
    pub open spec fn fill(&self) -> u32 {
        if self.enabled {
            color_or(self.color@, self.alpha as int, 0)
        } else {
            TRANSPARENT
        }
    }

    /// The colour that a frame starts from.
    pub fn fill_color(&self) -> (color: u32)
        ensures
            color == self.fill(),
    {
        if self.enabled {
            parse_color(self.color.as_str(), self.alpha, 0)
        } else {
            TRANSPARENT
        }
    }
}

impl Default for WindowConfig {
    fn default() -> (window: Self)
        ensures
            window.is_initial(),
    {
        WindowConfig {
            size: 100,
            position: Position::default(),
            opacity: ONE,
            background: Background::default(),
        }
    }
}

impl WindowConfig {
    /// Whether these are the settings a window starts from: a hundred pixels
    /// each way, in the middle of the screen, opaque, without a background.
    pub open spec fn is_initial(&self) -> bool {
        &&& self.size == 100
        &&& self.position == Position::initial()
        &&& self.opacity == ONE
        &&& self.background.is_initial()
    }
}

} // verus!
