//! Viewport arithmetic: a square sub-rectangle of the image in fixed-point
//! normalized coordinates, where `SCALE` units span the whole image side.

use vstd::prelude::*;

verus! {

/// Fixed-point units per image side: a coordinate `c` stands for `c / SCALE`.
pub const SCALE: u64 = 1_000_000;

/// The two image axes.
#[derive(Clone, Copy, Debug, PartialEq, Eq, Structural)]
pub enum Axis {
    Horizontal,
    Vertical,
}

/// The visible part of the image: `x0..x1` horizontally, `y0..y1` vertically,
/// in units of `1 / SCALE` of the image side.
#[derive(Clone, Copy, Debug, PartialEq, Eq, Structural)]
pub struct Viewport {
    pub x0: u64,
    pub x1: u64,
    pub y0: u64,
    pub y1: u64,
}

/// The side length, in units, of one source pixel of an image of the given
/// size: `SCALE / min(width, height)` rounded up, and the whole side for an
/// empty image.
pub open spec fn min_dimension_spec(width: u32, height: u32) -> int {
    let m: int = if width <= height { width as int } else { height as int };
    if m == 0 { SCALE as int } else { (SCALE + m - 1) / m }
}

/// One source pixel is at least one unit and at most the whole side.
pub proof fn lemma_min_dimension_bounds(width: u32, height: u32)
    ensures
        1 <= min_dimension_spec(width, height) <= SCALE,
{
    let m: int = if width <= height { width as int } else { height as int };
    if m > 0 {
        assert(1 <= (SCALE + m - 1) / m <= SCALE) by (nonlinear_arith)
            requires m >= 1;
    }
}

/// Computes `min_dimension_spec`.
pub fn min_dimension(width: u32, height: u32) -> (r: u64)
    ensures
        r == min_dimension_spec(width, height),
        1 <= r <= SCALE,
{
    proof { lemma_min_dimension_bounds(width, height); }
    let m: u64 = if width <= height { width as u64 } else { height as u64 };
    if m == 0 { SCALE } else { (SCALE + m - 1) / m }
}

/// The smaller of two integers.
pub open spec fn min2(a: int, b: int) -> int {
    if a <= b { a } else { b }
}

/// `v` limited to `lo..=hi`.
pub open spec fn clamp_spec(v: int, lo: int, hi: int) -> int {
    if v < lo { lo } else if v > hi { hi } else { v }
}

impl Viewport {
    /// The whole image.
    pub open spec fn full_spec() -> Viewport {
        Viewport { x0: 0, x1: SCALE, y0: 0, y1: SCALE }
    }

    /// Both ranges lie in `[0, SCALE]`, are non-empty and of one length, and
    /// that length is at least `min_dim` (one source pixel).
    pub open spec fn wf(self, min_dim: int) -> bool {
        &&& self.x0 < self.x1 <= SCALE
        &&& self.y0 < self.y1 <= SCALE
        &&& self.x1 - self.x0 == self.y1 - self.y0
        &&& self.x1 - self.x0 >= min_dim
    }

    pub open spec fn width(self) -> int {
        self.x1 - self.x0
    }

    pub open spec fn height(self) -> int {
        self.y1 - self.y0
    }

    /// Twice the horizontal center, in units.
    pub open spec fn center2_x(self) -> int {
        self.x0 + self.x1
    }

    /// Twice the vertical center, in units.
    pub open spec fn center2_y(self) -> int {
        self.y0 + self.y1
    }

    /// Both bounds of `axis` moved by `delta`, or the viewport unchanged when
    /// either bound would leave `[0, SCALE]`.
    pub open spec fn panned(self, axis: Axis, delta: int) -> Viewport {
        match axis {
            Axis::Horizontal => {
                if 0 <= self.x0 + delta && self.x1 + delta <= SCALE {
                    Viewport { x0: (self.x0 + delta) as u64, x1: (self.x1 + delta) as u64, ..self }
                } else {
                    self
                }
            },
            Axis::Vertical => {
                if 0 <= self.y0 + delta && self.y1 + delta <= SCALE {
                    Viewport { y0: (self.y0 + delta) as u64, y1: (self.y1 + delta) as u64, ..self }
                } else {
                    self
                }
            },
        }
    }

    /// The side that a zoom by `amount` thousandths asks for: `s - s * amount / 1000`,
    /// and nothing when that is not positive.
    pub open spec fn zoom_target(self, amount: int) -> int {
        if 1000 - amount <= 0 { 0 } else { self.width() * (1000 - amount) / 1000 }
    }

    /// Twice the distance from the center to the nearest image edge: the largest
    /// side of a square with this center that stays inside the image.
    pub open spec fn centered_limit(self) -> int {
        min2(
            min2(self.center2_x(), 2 * SCALE - self.center2_x()),
            min2(self.center2_y(), 2 * SCALE - self.center2_y()),
        )
    }

    /// The new side after a zoom: the target clamped to `[min_dim, SCALE]`, and
    /// then to what fits around the current center.
    pub open spec fn zoom_side(self, amount: int, min_dim: int) -> int {
        min2(clamp_spec(self.zoom_target(amount), min_dim, SCALE as int), self.centered_limit())
    }

    /// The square of side `zoom_side` on the same center (rounded down by at
    /// most half a unit).
    pub open spec fn zoomed(self, amount: int, min_dim: int) -> Viewport {
        let s = self.zoom_side(amount, min_dim);
        let nx0 = (self.center2_x() - s) / 2;
        let ny0 = (self.center2_y() - s) / 2;
        Viewport { x0: nx0 as u64, x1: (nx0 + s) as u64, y0: ny0 as u64, y1: (ny0 + s) as u64 }
    }

    /// The whole image.
    pub fn full() -> (r: Viewport)
        ensures
            r == Viewport::full_spec(),
    {
        Viewport { x0: 0, x1: SCALE, y0: 0, y1: SCALE }
    }

    /// Horizontal and vertical extent, in units.
    pub fn size(&self) -> (r: (u64, u64))
        requires
            self.x0 <= self.x1,
            self.y0 <= self.y1,
        ensures
            r.0 == self.width(),
            r.1 == self.height(),
    {
        (self.x1 - self.x0, self.y1 - self.y0)
    }

    /// Moves both bounds of `axis` by `delta` units, only when both stay in
    /// `[0, SCALE]`.
    pub fn pan(&mut self, axis: Axis, delta: i64)
        requires
            old(self).x1 <= SCALE,
            old(self).y1 <= SCALE,
        ensures
            *final(self) == old(self).panned(axis, delta as int),
    {
        let d: i128 = delta as i128;
        match axis {
            Axis::Horizontal => {
                if 0 <= self.x0 as i128 + d && self.x1 as i128 + d <= SCALE as i128 {
                    self.x0 = (self.x0 as i128 + d) as u64;
                    self.x1 = (self.x1 as i128 + d) as u64;
                }
            },
            Axis::Vertical => {
                if 0 <= self.y0 as i128 + d && self.y1 as i128 + d <= SCALE as i128 {
                    self.y0 = (self.y0 as i128 + d) as u64;
                    self.y1 = (self.y1 as i128 + d) as u64;
                }
            },
        }
    }

    /// Zooms by `amount` thousandths of the side (positive zooms in), keeping
    /// the center and the bounds inside the image; the side never falls below
    /// `min_dim`.
    pub fn zoom(&mut self, amount: i32, min_dim: u64)
        requires
            old(self).wf(min_dim as int),
            1 <= min_dim <= SCALE,
        ensures
            *final(self) == old(self).zoomed(amount as int, min_dim as int),
            final(self).wf(min_dim as int),
    {
        proof { self.lemma_zoom_valid(amount as int, min_dim as int); }
        let s: u64 = self.x1 - self.x0;
        let factor: i64 = 1000 - amount as i64;
        let target: u64 = if factor <= 0 {
            0
        } else {
            assert(s * factor <= SCALE * 3000000000) by (nonlinear_arith)
                requires s <= SCALE, factor <= 3000000000;
            (s as u128 * factor as u128 / 1000) as u64
        };
        let clamped: u64 = if target < min_dim {
            min_dim
        } else if target > SCALE {
            SCALE
        } else {
            target
        };
        let cx: u64 = self.x0 + self.x1;
        let cy: u64 = self.y0 + self.y1;
        let lx: u64 = if cx <= 2 * SCALE - cx { cx } else { 2 * SCALE - cx };
        let ly: u64 = if cy <= 2 * SCALE - cy { cy } else { 2 * SCALE - cy };
        let limit: u64 = if lx <= ly { lx } else { ly };
        let side: u64 = if clamped <= limit { clamped } else { limit };
        let nx0: u64 = (cx - side) / 2;
        let ny0: u64 = (cy - side) / 2;
        self.x0 = nx0;
        self.x1 = nx0 + side;
        self.y0 = ny0;
        self.y1 = ny0 + side;
    }

    /// A pan keeps a valid viewport valid.
    pub proof fn lemma_pan_valid(self, axis: Axis, delta: int, min_dim: int)
        requires
            self.wf(min_dim),
        ensures
            self.panned(axis, delta).wf(min_dim),
            self.panned(axis, delta).width() == self.width(),
    {
    }

    /// A zoom keeps a valid viewport valid.
    pub proof fn lemma_zoom_valid(self, amount: int, min_dim: int)
        requires
            self.wf(min_dim),
            1 <= min_dim <= SCALE,
        ensures
            self.zoomed(amount, min_dim).wf(min_dim),
            self.zoom_side(amount, min_dim) >= min_dim,
    {
        if 1000 - amount > 0 {
            assert(self.zoom_target(amount) >= 0) by (nonlinear_arith)
                requires self.width() >= 0, 1000 - amount > 0,
                    self.zoom_target(amount) == self.width() * (1000 - amount) / 1000;
        }
    }

    /// What a reset leaves: the whole image, whatever the viewport was.
    pub open spec fn reset_spec(self) -> Viewport {
        Viewport::full_spec()
    }

    /// The viewport after `n` resets in a row.
    pub open spec fn reset_repeated(self, n: nat) -> Viewport
        decreases n,
    {
        if n == 0 { self } else { self.reset_repeated((n - 1) as nat).reset_spec() }
    }

    /// Shows the whole image again.
    pub fn reset(&mut self)
        ensures
            *final(self) == old(self).reset_spec(),
    {
        *self = Viewport::full();
    }

    /// A zoom applied after a pan, from any valid viewport, leaves both ranges
    /// inside the image and the side no shorter than one source pixel.
    pub proof fn lemma_pan_then_zoom_valid(self, axis: Axis, delta: int, amount: int, min_dim: int)
        requires
            self.wf(min_dim),
            1 <= min_dim <= SCALE,
        ensures
            self.panned(axis, delta).zoomed(amount, min_dim).wf(min_dim),
            self.panned(axis, delta).zoomed(amount, min_dim).x1 <= SCALE,
            self.panned(axis, delta).zoomed(amount, min_dim).y1 <= SCALE,
            self.panned(axis, delta).zoomed(amount, min_dim).width() >= min_dim,
            self.panned(axis, delta).zoomed(amount, min_dim).height() >= min_dim,
    {
        self.lemma_pan_valid(axis, delta, min_dim);
        self.panned(axis, delta).lemma_zoom_valid(amount, min_dim);
    }

    /// Any positive number of resets leaves the whole image.
    pub proof fn lemma_reset_idempotent(self, n: nat)
        requires
            n >= 1,
        ensures
            self.reset_repeated(n) == Viewport::full_spec(),
        decreases n,
    {
        if n > 1 {
            self.lemma_reset_idempotent((n - 1) as nat);
        }
    }

    /// A zoom keeps the center: each coordinate of the center moves by at most
    /// half a unit, the rounding of the new lower bound.
    pub proof fn lemma_zoom_keeps_center(self, amount: int, min_dim: int)
        requires
            self.wf(min_dim),
            1 <= min_dim <= SCALE,
        ensures
            self.center2_x() - 1 <= self.zoomed(amount, min_dim).center2_x() <= self.center2_x(),
            self.center2_y() - 1 <= self.zoomed(amount, min_dim).center2_y() <= self.center2_y(),
    {
        self.lemma_zoom_valid(amount, min_dim);
    }
}

} // verus!
