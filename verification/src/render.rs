//! Layout constants of the terminal client.
//!
//! The client draws a participant grid above a controls bar, with a chat
//! sidebar to the right of the bar. The grid starts with a fixed number of
//! columns and reflows with the participant count (1 = full screen,
//! 2 = side-by-side, 3-4 = 2x2, and so on).
use vstd::prelude::*;

verus! {

/// The default grid column count before auto-reflow takes over.
pub const DEFAULT_GRID_COLUMNS: u32 = 3;

/// The controls-bar height in terminal rows.
pub const CONTROLS_BAR_HEIGHT: u32 = 3;

/// The chat sidebar width in terminal columns.
pub const CHAT_SIDEBAR_WIDTH: u32 = 40;

} // verus!
