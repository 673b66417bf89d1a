//! The commands the editor core reacts to, as the external key-event
//! decoder produces them.

use crate::position::Size;
use vstd::prelude::*;

verus! {

/// A cursor movement.  Left/Right wrap across line ends; Up/Down clamp
/// to the buffer; PageUp/PageDown move by one screen height minus one.
#[derive(Clone, Copy, Debug, PartialEq, Eq, Structural)]
pub enum Direction {
    PageUp,
    PageDown,
    Home,
    End,
    Up,
    Down,
    Left,
    Right,
}

/// One decoded input event: move the cursor, adopt a new terminal size,
/// or quit (handled by the outer control loop; a no-op for the view).
#[derive(Clone, Copy, Debug, PartialEq, Eq, Structural)]
pub enum EditorCommand {
    MoveCursor(Direction),
    Resize(Size),
    Quit,
}

} // verus!
