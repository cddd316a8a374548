//! The buttons of a mouse.

use vstd::prelude::*;

verus! {

/// One of the three buttons that the effects react to.
#[derive(Debug, Clone, Copy, PartialEq, Eq, Structural, Hash)]
pub enum MouseButton {
    Left,
    Right,
    Middle,
}

} // verus!
