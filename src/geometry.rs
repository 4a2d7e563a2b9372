//! Window identifiers, rectangles and the move requests derived from them.
use vstd::prelude::*;

verus! {

/// An opaque handle that the window manager gives a top-level window.
pub type WindowId = isize;

/// A screen rectangle given by its edges.
#[derive(Clone, Copy, Debug, PartialEq, Eq, Structural)]
pub struct Rect {
    pub left: i32,
    pub top: i32,
    pub right: i32,
    pub bottom: i32,
}

/// The last known geometry of one window.
#[derive(Clone, Copy, Debug, PartialEq, Eq, Structural)]
pub struct WindowSnapshot {
    pub id: WindowId,
    pub rect: Rect,
}

/// A request to place window `id` at (`x`, `y`) with the given size.
#[derive(Clone, Copy, Debug, PartialEq, Eq, Structural)]
pub struct MoveRequest {
    pub id: WindowId,
    pub x: i32,
    pub y: i32,
    pub width: i32,
    pub height: i32,
}

/// `v`, saturated to the range of `i32`.
pub open spec fn clamp_i32(v: int) -> i32 {
    if v < i32::MIN {
        i32::MIN
    } else if v > i32::MAX {
        i32::MAX
    } else {
        v as i32
    }
}

/// The distance from `lo` to `hi`, saturated to the range of `i32`.
pub open spec fn span(lo: i32, hi: i32) -> i32 {
    clamp_i32(hi - lo)
}

/// The move that puts a window back where its snapshot says it was.
pub open spec fn move_for(s: WindowSnapshot) -> MoveRequest {
    MoveRequest {
        id: s.id,
        x: s.rect.left,
        y: s.rect.top,
        width: span(s.rect.left, s.rect.right),
        height: span(s.rect.top, s.rect.bottom),
    }
}

fn saturating_span(lo: i32, hi: i32) -> (r: i32)
    ensures
        r == span(lo, hi),
{
    let d: i64 = hi as i64 - lo as i64;
    if d < i32::MIN as i64 {
        i32::MIN
    } else if d > i32::MAX as i64 {
        i32::MAX
    } else {
        d as i32
    }
}

impl Rect {
    /// Width of the rectangle, saturated to `i32`.
    pub fn width(&self) -> (r: i32)
        ensures
            r == span(self.left, self.right),
    {
        saturating_span(self.left, self.right)
    }

    /// Height of the rectangle, saturated to `i32`.
    pub fn height(&self) -> (r: i32)
        ensures
            r == span(self.top, self.bottom),
    {
        saturating_span(self.top, self.bottom)
    }
}

impl WindowSnapshot {
    /// The move that restores this snapshot's geometry.
    pub fn move_request(&self) -> (r: MoveRequest)
        ensures
            r == move_for(*self),
    {
        MoveRequest {
            id: self.id,
            x: self.rect.left,
            y: self.rect.top,
            width: self.rect.width(),
            height: self.rect.height(),
        }
    }
}

} // verus!
