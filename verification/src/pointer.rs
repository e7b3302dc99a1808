//! Dragging the sky with the mouse.

use vstd::prelude::*;

verus! {

/// What the mouse is doing, as far as dragging the sky goes.
#[derive(Clone, Copy, PartialEq, Eq, Structural, Debug, Hash)]
pub struct Pointer {
    /// The left button is held.
    pub left_down: bool,
    /// The cursor is inside the window.
    pub cursor: bool,
    /// A drag is under way: an earlier cursor position is remembered.
    pub anchored: bool,
    /// The cursor is at least three pixels away from the remembered position.
    pub moved: bool,
    /// Both positions could be cast into the scene.
    pub rays: bool,
}

/// What a frame does to a drag.
#[derive(Clone, Copy, PartialEq, Eq, Structural, Debug, Hash)]
pub enum Drag {
    /// Leave everything as it is.
    Keep,
    /// Forget the remembered position: the drag is over.
    Release,
    /// Remember the cursor position: a drag begins.
    Anchor,
    /// Turn the sky by what the cursor moved, and remember the new position.
    Turn,
}

/// The step that a drag takes in a frame with the given mouse readings.
pub open spec fn drag_step(pointer: Pointer) -> Drag {
    if !pointer.left_down {
        Drag::Release
    } else if !pointer.cursor {
        Drag::Keep
    } else if !pointer.anchored {
        Drag::Anchor
    } else if !pointer.moved || !pointer.rays {
        Drag::Keep
    } else {
        Drag::Turn
    }
}

} // verus!
