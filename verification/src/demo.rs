//! Demo input selection: a random color and a random rectangle that is
//! always valid for the window it was drawn for. Randomness is the one
//! outside dependency of the library; everything derived from the drawn
//! numbers is verified.

use vstd::prelude::*;
use crate::rect::{Rect, rect_valid};
use rand::Rng;

verus! {

/// Relies on rand::thread_rng and rand::Rng::gen_range: a draw from the
/// non-empty range `lo..hi` lies in `[lo, hi)`. `gen_range` panics only on
/// an empty range, which the precondition rules out. Nothing more can be
/// promised of a random draw.
#[verifier::external_body]
fn rand_range_u32(lo: u32, hi: u32) -> (r: u32)
    requires
        lo < hi,
    ensures
        lo <= r < hi,
{
    rand::thread_rng().gen_range(lo..hi)
}

/// Draw a demo color: four channel bytes, each in `[0, 255)`.
pub fn pick_demo_color() -> (c: Vec<u8>)
    ensures
        c@.len() == 4,
        forall|k: int| 0 <= k < c@.len() ==> c@[k] < 255,
{
    let mut c: Vec<u8> = Vec::new();
    let b0 = rand_range_u32(0, 255);
    c.push(b0 as u8);
    let b1 = rand_range_u32(0, 255);
    c.push(b1 as u8);
    let b2 = rand_range_u32(0, 255);
    c.push(b2 as u8);
    let b3 = rand_range_u32(0, 255);
    c.push(b3 as u8);
    c
}

/// Draw a demo rectangle for a window of the given geometry: the top-left
/// corner lands in the upper-left quadrant and the bottom-right corner in
/// the lower-right quadrant, so the rectangle is never empty and always
/// valid for the window.
pub fn pick_demo_rect(width: u32, height: u32) -> (r: Rect)
    requires
        width >= 2,
        height >= 2,
    ensures
        rect_valid(r, width as int, height as int),
        r.top < height / 2 <= r.bottom,
        r.left < width / 2 <= r.right,
{
    let top = rand_range_u32(0, height / 2);
    let left = rand_range_u32(0, width / 2);
    let bottom = rand_range_u32(height / 2, height);
    let right = rand_range_u32(width / 2, width);
    Rect { top, left, bottom, right }
}

} // verus!
