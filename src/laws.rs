//! Properties of the frame update, stated over the spec functions that the
//! update's contract uses.
use vstd::prelude::*;
use crate::geometry::Rect;
use crate::hitbox::{hitboxes_of, Hitboxes};
use crate::physics::{
    after_gravity, damped, dash_offset, lemma_bounce_in_limits, Velocity, DASH_LIMIT, DEADZONE,
    GRAVITY,
};
use crate::player::{
    dash_of, free_contact, lemma_steer_keeps_flags, scanned, steered_all, Contact,
    Control, FrameInput, Player,
};

verus! {

/// Hitbox derivation depends on the body alone: whatever the platforms and
/// the input, the hitboxes after a frame are those of the new body, so two
/// frames that end with the same body end with the same hitboxes.
pub proof fn lemma_hitboxes_follow_body(
    p: Player,
    ps: Seq<Rect>,
    input: FrameInput,
    q: Player,
    qs: Seq<Rect>,
    q_input: FrameInput,
)
    requires
        p.next(ps, input).body == q.next(qs, q_input).body,
    ensures
        p.next(ps, input).hitboxes == hitboxes_of(p.next(ps, input).body),
        p.next(ps, input).hitboxes == q.next(qs, q_input).hitboxes,
{
}

/// The platform scan keeps the velocity within the limits.
proof fn lemma_scan_in_limits(hb: Hitboxes, c: Contact, ps: Seq<Rect>)
    requires
        c.velocity.in_limits(),
    ensures
        scanned(hb, c, ps).velocity.in_limits(),
    decreases ps.len(),
{
    if ps.len() > 0 {
        lemma_scan_in_limits(hb, c, ps.drop_last());
        let vy = scanned(hb, c, ps.drop_last()).velocity.y;
        lemma_bounce_in_limits(vy as int);
    }
}

/// Once a platform has grounded the body during the scan, it stays grounded.
proof fn lemma_scan_stays_grounded(hb: Hitboxes, c: Contact, ps: Seq<Rect>, i: int)
    requires
        0 <= i < ps.len(),
        !hb.upper.spec_overlaps(ps[i]),
        hb.lower.spec_overlaps(ps[i]),
    ensures
        !scanned(hb, c, ps).is_falling,
    decreases ps.len(),
{
    if i < ps.len() - 1 {
        lemma_scan_stays_grounded(hb, c, ps.drop_last(), i);
    }
}

/// A platform that overlaps the lower hitbox, and not the upper one, grounds
/// the body: after the frame it is not falling.
pub proof fn lemma_grounded(p: Player, ps: Seq<Rect>, input: FrameInput, i: int)
    requires
        0 <= i < ps.len(),
        !p.hitboxes.upper.spec_overlaps(ps[i]),
        p.hitboxes.lower.spec_overlaps(ps[i]),
    ensures
        !p.next(ps, input).is_falling,
{
    let c = scanned(p.hitboxes, free_contact(p.velocity), ps);
    lemma_scan_stays_grounded(p.hitboxes, free_contact(p.velocity), ps, i);
    let d = Contact {
        velocity: Velocity {
            x: damped(c.velocity.x as int) as i64,
            y: after_gravity(c.velocity.y as int, c.is_falling) as i64,
        },
        ..c
    };
    lemma_steer_keeps_flags(d, input.controls@, p.speed, p.jump_impulse);
}

/// Damping settles a small positive horizontal velocity: anything strictly
/// between 0 and `DEADZONE` becomes 0, and 0 stays 0.
pub proof fn lemma_deadzone_settles(vx: int)
    requires
        0 < vx < DEADZONE,
    ensures
        damped(vx) == 0,
        damped(0) == 0,
{
}

/// Whether the input holds no directional control and no dash.
pub open spec fn undirected(input: FrameInput) -> bool {
    &&& !input.dash_pressed
    &&& forall|k: int|
        0 <= k < input.controls@.len() ==> #[trigger] input.controls@[k] != Control::MoveLeft
            && input.controls@[k] != Control::MoveRight
}

/// Controls without a directional one leave the horizontal velocity alone.
proof fn lemma_undirected_keeps_x(c: Contact, ks: Seq<Control>, speed: i64, jump: i64)
    requires
        forall|k: int|
            0 <= k < ks.len() ==> #[trigger] ks[k] != Control::MoveLeft && ks[k]
                != Control::MoveRight,
    ensures
        steered_all(c, ks, speed, jump).velocity.x == c.velocity.x,
    decreases ks.len(),
{
    if ks.len() > 0 {
        lemma_undirected_keeps_x(c, ks.drop_last(), speed, jump);
    }
}

/// With no platforms, no directional control and no dash, a horizontal
/// velocity strictly between 0 and `DEADZONE` is 0 after one frame and is
/// still 0 after a second one.
pub proof fn lemma_deadzone_frames(p: Player, input: FrameInput, second: FrameInput)
    requires
        0 < p.velocity.x < DEADZONE,
        undirected(input),
        undirected(second),
    ensures
        p.next(Seq::empty(), input).velocity.x == 0,
        p.next(Seq::empty(), input).next(Seq::empty(), second).velocity.x == 0,
{
    let q = p.next(Seq::empty(), input);
    let c = free_contact(p.velocity);
    assert(scanned(p.hitboxes, c, Seq::empty()) == c);
    let d = Contact {
        velocity: Velocity {
            x: damped(c.velocity.x as int) as i64,
            y: after_gravity(c.velocity.y as int, c.is_falling) as i64,
        },
        ..c
    };
    lemma_undirected_keeps_x(d, input.controls@, p.speed, p.jump_impulse);
    let c2 = free_contact(q.velocity);
    assert(scanned(q.hitboxes, c2, Seq::empty()) == c2);
    let d2 = Contact {
        velocity: Velocity {
            x: damped(c2.velocity.x as int) as i64,
            y: after_gravity(c2.velocity.y as int, c2.is_falling) as i64,
        },
        ..c2
    };
    lemma_undirected_keeps_x(d2, second.controls@, q.speed, q.jump_impulse);
}

/// Whatever the cursor position, each component of the dash vector lies in
/// `[-DASH_LIMIT, DASH_LIMIT]`.
pub proof fn lemma_dash_clamped(body: Rect, mouse_x: int, mouse_y: int)
    ensures
        -DASH_LIMIT <= dash_offset(body.x + body.w / 2, mouse_x) <= DASH_LIMIT,
        -DASH_LIMIT <= dash_offset(body.y + body.h / 2, mouse_y) <= DASH_LIMIT,
        -DASH_LIMIT <= dash_of(body, mouse_x, mouse_y).x <= DASH_LIMIT,
        -DASH_LIMIT <= dash_of(body, mouse_x, mouse_y).y <= DASH_LIMIT,
{
}

/// A jump while falling does nothing: controls leave the vertical velocity
/// of a falling body as it was.
pub proof fn lemma_jump_gated(c: Contact, ks: Seq<Control>, speed: i64, jump: i64)
    requires
        c.is_falling,
    ensures
        steered_all(c, ks, speed, jump).velocity.y == c.velocity.y,
    decreases ks.len(),
{
    if ks.len() > 0 {
        lemma_jump_gated(c, ks.drop_last(), speed, jump);
        lemma_steer_keeps_flags(c, ks.drop_last(), speed, jump);
    }
}

/// In a frame where the platform scan leaves the body falling and no dash is
/// pressed, the vertical velocity changes by gravity alone, whatever controls
/// (a jump among them) are held.
pub proof fn lemma_falling_frame_ignores_jump(p: Player, ps: Seq<Rect>, input: FrameInput)
    requires
        p.in_limits(),
        scanned(p.hitboxes, free_contact(p.velocity), ps).is_falling,
        !input.dash_pressed,
    ensures
        p.next(ps, input).velocity.y == scanned(p.hitboxes, free_contact(p.velocity), ps).velocity.y
            + GRAVITY,
{
    let c = scanned(p.hitboxes, free_contact(p.velocity), ps);
    lemma_scan_in_limits(p.hitboxes, free_contact(p.velocity), ps);
    let d = Contact {
        velocity: Velocity {
            x: damped(c.velocity.x as int) as i64,
            y: after_gravity(c.velocity.y as int, c.is_falling) as i64,
        },
        ..c
    };
    lemma_jump_gated(d, input.controls@, p.speed, p.jump_impulse);
}

} // verus!
