//! Screen rectangles and the fullscreen test.
//!
//! Coordinates are screen coordinates: `x` grows to the right and `y` grows
//! downward, so `top <= bottom` for a rectangle that is not empty.

use vstd::prelude::*;

verus! {

/// The bounds of a window or of a monitor.
#[derive(Clone, Copy, Debug, PartialEq, Eq, Structural)]
pub struct Rect {
    pub left: i32,
    pub top: i32,
    pub right: i32,
    pub bottom: i32,
}

impl Rect {
    /// Whether `self` reaches at least as far as `other` on all four edges.
    pub open spec fn covers(self, other: Rect) -> bool {
        &&& self.left <= other.left
        &&& self.right >= other.right
        &&& self.top <= other.top
        &&& self.bottom >= other.bottom
    }

    /// The edges of `self` moved inward by the given margins, one for each
    /// edge; a negative margin moves the edge outward.
    pub open spec fn inset(self, left: int, top: int, right: int, bottom: int) -> (
        int,
        int,
        int,
        int,
    ) {
        (self.left + left, self.top + top, self.right - right, self.bottom - bottom)
    }

    /// Whether the four coordinates `edges`, in the order left, top, right,
    /// bottom, are those of `self`.
    pub open spec fn has_edges(self, edges: (int, int, int, int)) -> bool {
        &&& self.left == edges.0
        &&& self.top == edges.1
        &&& self.right == edges.2
        &&& self.bottom == edges.3
    }
}

/// The fullscreen test: a window is fullscreen when its bounds cover the
/// bounds of its monitor. A window that is larger than the monitor passes; a
/// window that falls short of it on any edge does not.
pub fn is_fullscreen(window: &Rect, monitor: &Rect) -> (r: bool)
    ensures
        r == window.covers(*monitor),
{
    window.left <= monitor.left && window.right >= monitor.right && window.top <= monitor.top
        && window.bottom >= monitor.bottom
}

/// A window whose bounds are exactly those of its monitor is fullscreen.
pub proof fn lemma_equal_rect_covers(r: Rect)
    ensures
        r.covers(r),
{
}

/// A window that falls short of its monitor on any edge is not fullscreen,
/// however far it reaches on the other three: of the margins by which the
/// window's edges lie inside the monitor's, one that is positive is enough.
pub proof fn lemma_inset_rect_fails(
    window: Rect,
    monitor: Rect,
    left: int,
    top: int,
    right: int,
    bottom: int,
)
    requires
        window.has_edges(monitor.inset(left, top, right, bottom)),
        left > 0 || top > 0 || right > 0 || bottom > 0,
    ensures
        !window.covers(monitor),
{
}

/// A window that is the monitor moved outward, or left where it is, on every
/// edge is fullscreen.
pub proof fn lemma_outset_rect_covers(
    window: Rect,
    monitor: Rect,
    left: int,
    top: int,
    right: int,
    bottom: int,
)
    requires
        window.has_edges(monitor.inset(-left, -top, -right, -bottom)),
        left >= 0 && top >= 0 && right >= 0 && bottom >= 0,
    ensures
        window.covers(monitor),
{
}

} // verus!
