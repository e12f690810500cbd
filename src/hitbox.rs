//! The four thin probe boxes around a body, one per side.
use vstd::prelude::*;
use crate::geometry::{Rect, COORD_LIMIT};

verus! {

/// Probe boxes along the four sides of a body; each one tells whether a
/// platform touches that side.
#[derive(Clone, Copy, Debug, PartialEq, Eq, Structural)]
pub struct Hitboxes {
    pub upper: Rect,
    pub lower: Rect,
    pub left: Rect,
    pub right: Rect,
}

/// A body the hitboxes can be computed for without overflow: its corner
/// within four times the limit, its size non-negative and within the limit.
pub open spec fn derivable(b: Rect) -> bool {
    &&& -4 * COORD_LIMIT <= b.x <= 4 * COORD_LIMIT
    &&& -4 * COORD_LIMIT <= b.y <= 4 * COORD_LIMIT
    &&& 0 <= b.w <= COORD_LIMIT
    &&& 0 <= b.h <= COORD_LIMIT
}

/// The hitboxes of body `(x, y, w, h)`, in pixels:
/// upper `(x+2, y-3, w-5, h/5)`, lower `(x+2, y+h+1, w-5, h/5)`,
/// left `(x-w/5+1, y+2, w/5, h-4)`, right `(x+w-1, y+2, w/5, h-4)`.
/// They depend on the body alone.
pub open spec fn hitboxes_of(b: Rect) -> Hitboxes {
    Hitboxes {
        upper: Rect {
            x: (b.x + 2000) as i64,
            y: (b.y - 3000) as i64,
            w: (b.w - 5000) as i64,
            h: (b.h / 5) as i64,
        },
        lower: Rect {
            x: (b.x + 2000) as i64,
            y: (b.y + b.h + 1000) as i64,
            w: (b.w - 5000) as i64,
            h: (b.h / 5) as i64,
        },
        left: Rect {
            x: (b.x - b.w / 5 + 1000) as i64,
            y: (b.y + 2000) as i64,
            w: (b.w / 5) as i64,
            h: (b.h - 4000) as i64,
        },
        right: Rect {
            x: (b.x + b.w - 1000) as i64,
            y: (b.y + 2000) as i64,
            w: (b.w / 5) as i64,
            h: (b.h - 4000) as i64,
        },
    }
}

impl Hitboxes {
    /// Every edge of every box is representable (`Rect::fits`).
    pub open spec fn fit(self) -> bool {
        self.upper.fits() && self.lower.fits() && self.left.fits() && self.right.fits()
    }

    /// Computes the hitboxes of `body`.
    pub fn of(body: &Rect) -> (r: Hitboxes)
        requires
            derivable(*body),
        ensures
            r == hitboxes_of(*body),
    {
        let b = *body;
        Hitboxes {
            upper: Rect::new(b.x + 2000, b.y - 3000, b.w - 5000, b.h / 5),
            lower: Rect::new(b.x + 2000, b.y + b.h + 1000, b.w - 5000, b.h / 5),
            left: Rect::new(b.x - b.w / 5 + 1000, b.y + 2000, b.w / 5, b.h - 4000),
            right: Rect::new(b.x + b.w - 1000, b.y + 2000, b.w / 5, b.h - 4000),
        }
    }
}

/// The hitboxes of a derivable body have representable edges.
pub proof fn lemma_hitboxes_fit(b: Rect)
    requires
        derivable(b),
    ensures
        hitboxes_of(b).fit(),
{
}

} // verus!
