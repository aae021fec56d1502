//! The draw-command buffer handed to the terminal canvas.

use crate::color::Rgb;
use vstd::prelude::*;

verus! {

/// One buffered canvas operation. Terrain generation produces an ordered
/// sequence of these; the canvas commits the whole sequence as one frame.
#[derive(Debug, Copy, Clone, PartialEq, Eq, Structural)]
pub enum DrawCmd {
    /// Clear the whole screen.
    ClearAll,
    /// Move the cursor to cell `(x, y)`.
    MoveTo { x: u16, y: u16 },
    /// Set the foreground color of subsequent prints.
    SetForeground { color: Rgb },
    /// Set the background color of subsequent prints.
    SetBackground { color: Rgb },
    /// Print one glyph at the cursor.
    Print { glyph: char },
}

} // verus!
