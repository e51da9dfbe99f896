//! Rectangles in pixel coordinates and their validity against a window's
//! geometry.

use vstd::prelude::*;

verus! {

/// A rectangle in pixel coordinates. `top`/`left` are the exclusive lower
/// bounds under the blit's one-based addressing convention; `bottom`/`right`
/// are the inclusive upper bounds. Equivalently, the painted zero-based rows
/// are `[top, bottom)` and the painted zero-based columns `[left, right)`.
#[derive(Clone, Copy, PartialEq, Eq, Structural, Debug)]
pub struct Rect {
    pub top: u32,
    pub left: u32,
    pub bottom: u32,
    pub right: u32,
}

/// A rectangle is valid for a window of the given geometry when
/// `0 <= left < right <= width` and `0 <= top < bottom <= height`.
/// Only valid rectangles may reach the blit: anything else would address
/// bytes outside the locked buffer.
pub open spec fn rect_valid(r: Rect, width: int, height: int) -> bool {
    &&& (r.left as int) < (r.right as int) <= width
    &&& (r.top as int) < (r.bottom as int) <= height
}

/// The right edge after clamping to the window width.
pub open spec fn clamped_right(r: Rect, width: int) -> int {
    if r.right as int <= width {
        r.right as int
    } else {
        width
    }
}

/// The bottom edge after clamping to the window height.
pub open spec fn clamped_bottom(r: Rect, height: int) -> int {
    if r.bottom as int <= height {
        r.bottom as int
    } else {
        height
    }
}

/// Whether clamping the rectangle to the window leaves a non-empty region.
pub open spec fn clamp_nonempty(r: Rect, width: int, height: int) -> bool {
    &&& (r.left as int) < clamped_right(r, width)
    &&& (r.top as int) < clamped_bottom(r, height)
}

/// Decide validity of a rectangle against the window geometry.
pub fn rect_in_bounds(r: &Rect, width: u32, height: u32) -> (ok: bool)
    ensures
        ok == rect_valid(*r, width as int, height as int),
{
    r.left < r.right && r.right <= width && r.top < r.bottom && r.bottom <= height
}

/// Clamp a rectangle to the window geometry: the right and bottom edges are
/// pulled in to the window bounds, the top and left edges are kept. Returns
/// `None` exactly when no non-empty valid rectangle remains; a returned
/// rectangle is always valid for the given geometry.
pub fn clamp_rect(r: &Rect, width: u32, height: u32) -> (c: Option<Rect>)
    ensures
        clamp_nonempty(*r, width as int, height as int) ==> c == Some(Rect {
            top: r.top,
            left: r.left,
            bottom: clamped_bottom(*r, height as int) as u32,
            right: clamped_right(*r, width as int) as u32,
        }),
        !clamp_nonempty(*r, width as int, height as int) ==> c is None,
        c is Some ==> rect_valid(c->Some_0, width as int, height as int),
{
    let right = if r.right <= width { r.right } else { width };
    let bottom = if r.bottom <= height { r.bottom } else { height };
    if r.left < right && r.top < bottom {
        Some(Rect { top: r.top, left: r.left, bottom, right })
    } else {
        None
    }
}

} // verus!
