//! The per-axis arithmetic of one frame: ceiling bounce, horizontal damping,
//! gravity and the dash impulse.
use vstd::prelude::*;
use crate::geometry::{div_toward_zero, in_limits, COORD_LIMIT};

verus! {

/// Added to the vertical velocity of a falling body each frame (-0.15 px).
pub const GRAVITY: i64 = -150;

/// Horizontal drag constant (-0.2 px), applied as described at `damped`.
pub const AIR_FRICTION: i64 = -200;

/// A positive horizontal velocity below this (1 px) snaps to zero.
pub const DEADZONE: i64 = 1000;

/// A ceiling hit keeps `BOUNCE_NUM / BOUNCE_DEN` (0.8) of the vertical speed.
pub const BOUNCE_NUM: i64 = 4;

pub const BOUNCE_DEN: i64 = 5;

/// The offset between body and cursor is divided by this to give the dash.
pub const DASH_SMOOTHING: i64 = 10;

/// Each dash component is clamped to `[-DASH_LIMIT, DASH_LIMIT]` (10 px).
pub const DASH_LIMIT: i64 = 10_000;

/// A velocity; `y` is positive upward (it is subtracted from the position).
#[derive(Clone, Copy, Debug, PartialEq, Eq, Structural)]
pub struct Velocity {
    pub x: i64,
    pub y: i64,
}

impl Velocity {
    pub open spec fn in_limits(self) -> bool {
        in_limits(self.x as int) && in_limits(self.y as int)
    }
}

/// Vertical velocity after hitting a ceiling: reversed and scaled by 0.8,
/// rounded toward zero.
pub open spec fn bounced(vy: int) -> int {
    div_toward_zero(-vy * BOUNCE_NUM, BOUNCE_DEN as int)
}

/// Horizontal damping, three steps in order: a value strictly between 0 and
/// `DEADZONE` becomes 0; then a value `>= 0` has `AIR_FRICTION` added; then a
/// value `< 0` has `AIR_FRICTION` subtracted.
pub open spec fn damped(vx: int) -> int {
    let snapped = if 0 < vx < DEADZONE { 0 } else { vx };
    let dragged = if snapped >= 0 { snapped + AIR_FRICTION } else { snapped };
    if dragged < 0 { dragged - AIR_FRICTION } else { dragged }
}

/// Vertical velocity after gravity: a falling body gains `GRAVITY`, a
/// grounded one stops.
pub open spec fn after_gravity(vy: int, is_falling: bool) -> int {
    if is_falling { vy + GRAVITY } else { 0 }
}

pub open spec fn clamped(v: int, lo: int, hi: int) -> int {
    if v < lo { lo } else if v > hi { hi } else { v }
}

/// One dash component: the offset from the cursor to the body, divided by
/// `DASH_SMOOTHING` (rounded toward zero) and clamped to the dash limit.
pub open spec fn dash_offset(body: int, cursor: int) -> int {
    clamped(div_toward_zero(body - cursor, DASH_SMOOTHING as int), -DASH_LIMIT, DASH_LIMIT as int)
}

/// A bounce never increases the vertical speed, so it stays within the limits.
pub proof fn lemma_bounce_in_limits(vy: int)
    requires
        in_limits(vy),
    ensures
        in_limits(bounced(vy)),
{
    assert(in_limits(bounced(vy))) by (nonlinear_arith)
        requires
            -COORD_LIMIT <= vy <= COORD_LIMIT,
            COORD_LIMIT == 0x100_0000_0000,
            bounced(vy) == div_toward_zero(-vy * 4, 5),
    ;
}

/// Reverses and damps the vertical velocity after a ceiling hit.
pub fn bounce(vy: i64) -> (r: i64)
    requires
        in_limits(vy as int),
    ensures
        r == bounced(vy as int),
        in_limits(r as int),
{
    proof {
        lemma_bounce_in_limits(vy as int);
    }
    (-vy * BOUNCE_NUM) / BOUNCE_DEN
}

/// Applies the deadzone and air friction to a horizontal velocity.
pub fn damp(vx: i64) -> (r: i64)
    requires
        in_limits(vx as int),
    ensures
        r == damped(vx as int),
{
    let mut v = vx;
    if v > 0 && v < DEADZONE {
        v = 0;
    }
    if v >= 0 {
        v = v + AIR_FRICTION;
    }
    if v < 0 {
        v = v - AIR_FRICTION;
    }
    v
}

/// Applies gravity to a falling body, or stops a grounded one.
pub fn apply_gravity(vy: i64, is_falling: bool) -> (r: i64)
    requires
        in_limits(vy as int),
    ensures
        r == after_gravity(vy as int, is_falling),
{
    if is_falling {
        vy + GRAVITY
    } else {
        0
    }
}

/// One dash component from a body coordinate and a cursor coordinate.
pub fn dash_component(body: i64, cursor: i64) -> (r: i64)
    requires
        i64::MIN <= body - cursor <= i64::MAX,
    ensures
        r == dash_offset(body as int, cursor as int),
        -DASH_LIMIT <= r <= DASH_LIMIT,
{
    let scaled = (body - cursor) / DASH_SMOOTHING;
    if scaled < -DASH_LIMIT {
        -DASH_LIMIT
    } else if scaled > DASH_LIMIT {
        DASH_LIMIT
    } else {
        scaled
    }
}

} // verus!
