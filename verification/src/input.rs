//! What arrives from the windowing system.

use vstd::prelude::*;
use crate::key::Key;

verus! {

/// One event of the keyboard or the pointer. Pointer positions and motions
/// are in the unit that the window size is given in.
#[derive(Clone, Copy, Debug, PartialEq, Eq)]
pub enum Input {
    KeyPress(Key),
    KeyRelease(Key),
    /// The pointer is at `(x, y)`, `y` growing downwards from the top edge.
    PointerMoveAbsolute(i32, i32),
    /// The pointer moved by `(dx, dy)`.
    PointerMoveRelative(i32, i32),
}

/// The two things that happen to a key.
#[derive(Clone, Copy, Debug, PartialEq, Eq)]
pub enum ButtonState {
    Press,
    Release,
}

/// The size of the viewport that pointer positions refer to.
#[derive(Clone, Copy, Debug, PartialEq, Eq)]
pub struct WindowSize {
    pub width: u32,
    pub height: u32,
}

impl WindowSize {
    /// Positions can be normalized against this viewport: it has an area.
    pub open spec fn has_area(self) -> bool {
        self.width > 0 && self.height > 0
    }
}

} // verus!
