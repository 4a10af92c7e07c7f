//! RGB colors and the perceptual distance used to merge neighbouring cells.

use vstd::prelude::*;

verus! {

/// An 8-bit RGB color.
#[derive(Clone, Copy, Debug, PartialEq, Eq, Structural)]
pub struct Rgb {
    pub r: u8,
    pub g: u8,
    pub b: u8,
}

/// Largest distance at which two colors still count as the same run color.
pub const MERGE_THRESHOLD: u8 = 3;

pub open spec fn channel_diff(a: u8, b: u8) -> int {
    if a >= b { a - b } else { b - a }
}

/// Sum of per-channel absolute differences, saturating at 255.
pub open spec fn distance(c1: Rgb, c2: Rgb) -> int {
    let s = channel_diff(c1.r, c2.r) + channel_diff(c1.g, c2.g) + channel_diff(c1.b, c2.b);
    if s > 255 { 255 } else { s }
}

/// Whether `c` is close enough to `anchor` to extend a run started by `anchor`.
pub open spec fn mergeable(anchor: Rgb, c: Rgb) -> bool {
    distance(c, anchor) <= MERGE_THRESHOLD
}

fn abs_diff_u8(a: u8, b: u8) -> (r: u16)
    ensures
        r == channel_diff(a, b),
{
    if a >= b { (a - b) as u16 } else { (b - a) as u16 }
}

/// The saturating sum of per-channel absolute differences of two colors.
pub fn color_distance(c1: &Rgb, c2: &Rgb) -> (r: u8)
    ensures
        r == distance(*c1, *c2),
{
    let s: u16 = abs_diff_u8(c1.r, c2.r) + abs_diff_u8(c1.g, c2.g) + abs_diff_u8(c1.b, c2.b);
    if s > 255 { 255 } else { s as u8 }
}

} // verus!
