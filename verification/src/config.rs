//! The sizes of the machine.

use vstd::prelude::*;

verus! {

/// Pixels in a row of the screen.
pub const DISPLAY_WIDTH: usize = 64;

/// Rows of the screen.
pub const DISPLAY_HEIGHT: usize = 32;

/// Pixels of the screen.
pub const DISPLAY_SIZE: usize = 2048;

/// Address at which a program is loaded and started.
pub const PGM_OFFSET: usize = 0x200;

/// Return addresses that the call stack holds at most.
pub const STACK_DEPTH: usize = 16;

/// Bytes of one glyph of the built-in font.
pub const GLYPH_SIZE: usize = 5;

} // verus!
