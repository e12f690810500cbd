use vstd::prelude::*;

verus! {

/// Number of fixed-point units in one pixel.
pub const UNITS_PER_PIXEL: i64 = 1000;

/// Largest magnitude of a coordinate, size or velocity that one frame of the
/// simulation accepts; it keeps every intermediate sum far from `i64`'s range.
pub const COORD_LIMIT: i64 = 0x100_0000_0000;

/// Whether `v` lies in `[-COORD_LIMIT, COORD_LIMIT]`.
pub open spec fn in_limits(v: int) -> bool {
    -COORD_LIMIT <= v <= COORD_LIMIT
}

/// An axis-aligned box: `(x, y)` is the top-left corner, `y` grows downward.
#[derive(Clone, Copy, Debug, PartialEq, Eq, Structural)]
pub struct Rect {
    pub x: i64,
    pub y: i64,
    pub w: i64,
    pub h: i64,
}

impl Rect {
    pub open spec fn left(self) -> int {
        self.x as int
    }

    pub open spec fn right(self) -> int {
        self.x + self.w
    }

    pub open spec fn top(self) -> int {
        self.y as int
    }

    pub open spec fn bottom(self) -> int {
        self.y + self.h
    }

    /// Two boxes overlap when their closed extents meet on both axes
    /// (touching edges count).
    pub open spec fn spec_overlaps(self, other: Rect) -> bool {
        &&& self.left() <= other.right()
        &&& self.right() >= other.left()
        &&& self.top() <= other.bottom()
        &&& self.bottom() >= other.top()
    }

    /// A well-formed box: non-negative size, every field within the limits.
    pub open spec fn valid(self) -> bool {
        &&& in_limits(self.x as int)
        &&& in_limits(self.y as int)
        &&& 0 <= self.w <= COORD_LIMIT
        &&& 0 <= self.h <= COORD_LIMIT
    }

    /// Whether the right and bottom edges are representable as `i64`.
    pub open spec fn fits(self) -> bool {
        &&& i64::MIN <= self.right() <= i64::MAX
        &&& i64::MIN <= self.bottom() <= i64::MAX
    }

    pub fn new(x: i64, y: i64, w: i64, h: i64) -> (r: Rect)
        ensures
            r == (Rect { x, y, w, h }),
    {
        Rect { x, y, w, h }
    }

    /// Whether this box and `other` overlap, as `spec_overlaps` states.
    pub fn overlaps(&self, other: &Rect) -> (r: bool)
        requires
            self.fits(),
            other.fits(),
        ensures
            r == self.spec_overlaps(*other),
    {
        self.x <= other.x + other.w && self.x + self.w >= other.x && self.y <= other.y + other.h
            && self.y + self.h >= other.y
    }

    /// Whether this box is well-formed, as `valid` states.
    pub fn is_valid(&self) -> (r: bool)
        ensures
            r == self.valid(),
    {
        -COORD_LIMIT <= self.x && self.x <= COORD_LIMIT && -COORD_LIMIT <= self.y && self.y
            <= COORD_LIMIT && 0 <= self.w && self.w <= COORD_LIMIT && 0 <= self.h && self.h
            <= COORD_LIMIT
    }
}

/// Signed division that rounds toward zero, as Rust's `/` does.
pub open spec fn div_toward_zero(a: int, d: int) -> int
    recommends
        d > 0,
{
    if a >= 0 {
        a / d
    } else {
        -((-a) / d)
    }
}

} // verus!
