//! The camera: translating between world coordinates and a bounded viewport
//! window centered on the cursor. Drawing itself lives outside the core; the
//! renderer asks for the window and for the world/screen translation.

use vstd::prelude::*;
use crate::components::Position;

verus! {

/// A world-coordinate window: the half-open ranges [min_x, max_x) and
/// [min_y, max_y) are what the screen shows.
#[derive(PartialEq, Eq, Structural, Copy, Clone, Debug)]
pub struct Viewport {
    pub min_x: i32,
    pub min_y: i32,
    pub max_x: i32,
    pub max_y: i32,
}

/// The window of a screen of `screen_w` by `screen_h` character cells
/// centered on `center`.
pub fn viewport(center: Position, screen_w: i32, screen_h: i32) -> (vp: Viewport)
    requires
        0 < screen_w <= 10000,
        0 < screen_h <= 10000,
        -100000 <= center.x <= 100000,
        -100000 <= center.y <= 100000,
    ensures
        vp.min_x == center.x - screen_w / 2,
        vp.min_y == center.y - screen_h / 2,
        vp.max_x == vp.min_x + screen_w,
        vp.max_y == vp.min_y + screen_h,
{
    let half_w: i32 = ((screen_w as u32) / 2) as i32;
    let half_h: i32 = ((screen_h as u32) / 2) as i32;
    Viewport {
        min_x: center.x - half_w,
        min_y: center.y - half_h,
        max_x: center.x - half_w + screen_w,
        max_y: center.y - half_h + screen_h,
    }
}

/// Whether the world coordinate (x, y) falls inside the window.
pub fn in_viewport(vp: Viewport, x: i32, y: i32) -> (b: bool)
    requires
        -1000000 <= vp.min_x <= 1000000,
        -1000000 <= vp.min_y <= 1000000,
        -1000000 <= vp.max_x <= 1000000,
        -1000000 <= vp.max_y <= 1000000,
    ensures
        b == (vp.min_x <= x < vp.max_x && vp.min_y <= y < vp.max_y),
{
    vp.min_x <= x && x < vp.max_x && vp.min_y <= y && y < vp.max_y
}

/// The screen cell showing the world coordinate (x, y).
pub fn to_screen(vp: Viewport, x: i32, y: i32) -> (s: (i32, i32))
    requires
        -1000000 <= vp.min_x,
        -1000000 <= vp.min_y,
        vp.min_x <= x <= vp.min_x + 1000000,
        vp.min_y <= y <= vp.min_y + 1000000,
    ensures
        s.0 == x - vp.min_x,
        s.1 == y - vp.min_y,
{
    (x - vp.min_x, y - vp.min_y)
}

} // verus!
