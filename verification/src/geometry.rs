//! Pure geometry for placing a child window inside the host's content area.
//!
//! The host's client area is a rectangle in client coordinates; the child
//! window must cover that area below the title bar, inset on every side by
//! `CONTENT_INSET`, expressed in screen coordinates.

use vstd::prelude::*;

verus! {

/// Inset between the host's client edge and the embedded child window.
pub const CONTENT_INSET: i32 = 12;

/// A rectangle given by its edges, as the OS reports window rectangles.
#[derive(Clone, Copy, Debug, PartialEq, Eq, Structural)]
pub struct Rect {
    pub left: i32,
    pub top: i32,
    pub right: i32,
    pub bottom: i32,
}

impl Rect {
    /// Width of the rectangle.
    pub open spec fn spec_width(self) -> int {
        self.right - self.left
    }

    /// Height of the rectangle.
    pub open spec fn spec_height(self) -> int {
        self.bottom - self.top
    }
}

/// What the host hands the planner on every resize or poll tick: its
/// client-area rectangle, and the screen coordinates of the client origin
/// (the point a client coordinate of `(0, 0)` maps to on screen).
#[derive(Clone, Copy, Debug, PartialEq, Eq, Structural)]
pub struct HostGeometry {
    pub client: Rect,
    pub origin_x: i32,
    pub origin_y: i32,
}

/// The screen rectangle the child window must occupy, as a spec-level value:
/// top-left is the client origin shifted by `(CONTENT_INSET,
/// titlebar_height + CONTENT_INSET)`, converted to screen coordinates; the
/// size is the client size minus `2 * CONTENT_INSET` horizontally and
/// `titlebar_height + 2 * CONTENT_INSET` vertically.
pub open spec fn spec_plan(host: HostGeometry, titlebar_height: int) -> (int, int, int, int) {
    let x = host.client.left + CONTENT_INSET + host.origin_x;
    let y = host.client.top + titlebar_height + CONTENT_INSET + host.origin_y;
    let w = host.client.spec_width() - 2 * CONTENT_INSET;
    let h = host.client.spec_height() - titlebar_height - 2 * CONTENT_INSET;
    (x, y, x + w, y + h)
}

/// Whether a planned rectangle fits the machine's coordinate range.
pub open spec fn plan_fits(host: HostGeometry, titlebar_height: int) -> bool {
    let (x, y, r, b) = spec_plan(host, titlebar_height);
    &&& i32::MIN <= x <= i32::MAX
    &&& i32::MIN <= y <= i32::MAX
    &&& i32::MIN <= r <= i32::MAX
    &&& i32::MIN <= b <= i32::MAX
}

/// Compute the target screen rectangle for the child window. This is the
/// single place target geometry comes from; both position updates and the
/// first placement after window discovery use it.
pub fn calculate_target_rect(host: &HostGeometry, titlebar_height: i32) -> (r: Rect)
    requires
        plan_fits(*host, titlebar_height as int),
    ensures
        (r.left as int, r.top as int, r.right as int, r.bottom as int)
            == spec_plan(*host, titlebar_height as int),
{
    let x: i64 = host.client.left as i64 + CONTENT_INSET as i64 + host.origin_x as i64;
    let y: i64 = host.client.top as i64 + titlebar_height as i64 + CONTENT_INSET as i64
        + host.origin_y as i64;
    let w: i64 = host.client.right as i64 - host.client.left as i64 - 2 * CONTENT_INSET as i64;
    let h: i64 = host.client.bottom as i64 - host.client.top as i64 - titlebar_height as i64
        - 2 * CONTENT_INSET as i64;
    Rect { left: x as i32, top: y as i32, right: (x + w) as i32, bottom: (y + h) as i32 }
}

/// Whether a window whose current rectangle is `current` must be moved to
/// occupy `target`: true exactly when the two rectangles differ. Skipping
/// the move when they agree keeps position updates idempotent, so repeated
/// poll ticks neither flicker nor fight outside tools that also place
/// windows.
pub fn needs_move(current: &Rect, target: &Rect) -> (r: bool)
    ensures
        r == (*current != *target),
{
    !(current.left == target.left && current.top == target.top
        && current.right == target.right && current.bottom == target.bottom)
}

} // verus!
