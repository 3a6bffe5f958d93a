//! Window placement for the widget.
//!
//! The widget sits near the top-right corner of the screen: its left
//! edge is the screen width minus the window width and a right margin.

use vstd::prelude::*;

verus! {

/// Width of the widget window in logical pixels.
pub const WINDOW_WIDTH: u32 = 300;

/// Height of the widget window in logical pixels.
pub const WINDOW_HEIGHT: u32 = 600;

/// Width assumed when placing the window; slightly wider than the
/// window itself, so the widget sits a little further from the edge.
pub const PLACEMENT_WIDTH: u32 = 320;

/// Gap kept between the assumed window right edge and the screen's
/// right edge.
pub const RIGHT_MARGIN: u32 = 20;

/// Width of the screen the widget is placed on.
pub const SCREEN_WIDTH: u32 = 1366;

/// Vertical offset of the window's top edge from the top of the screen.
pub const WINDOW_Y: u32 = 50;

/// Horizontal position of the window's left edge: the window hugs the
/// right edge of the screen, leaving `right_margin` pixels free.
pub fn window_x(screen_width: u32, window_width: u32, right_margin: u32) -> (x: u32)
    requires
        window_width + right_margin <= screen_width,
    ensures
        x == screen_width - window_width - right_margin,
{
    screen_width - window_width - right_margin
}

/// Where the window's top-left corner goes: right-aligned on the screen
/// with the margin kept free, at the fixed vertical offset.
pub fn window_position() -> (p: (u32, u32))
    ensures
        p.0 == SCREEN_WIDTH - PLACEMENT_WIDTH - RIGHT_MARGIN,
        p.1 == WINDOW_Y,
{
    (window_x(SCREEN_WIDTH, PLACEMENT_WIDTH, RIGHT_MARGIN), WINDOW_Y)
}

} // verus!
