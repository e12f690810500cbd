//! The player body and its per-frame update.
use vstd::prelude::*;
use crate::geometry::{in_limits, Rect, COORD_LIMIT};
use crate::hitbox::{hitboxes_of, lemma_hitboxes_fit, Hitboxes};
use crate::physics::{
    after_gravity, apply_gravity, bounce, bounced, damp, damped, dash_component, dash_offset,
    Velocity, DASH_LIMIT,
};

verus! {

/// A control held during a frame.
#[derive(Clone, Copy, Debug, PartialEq, Eq, Structural)]
pub enum Control {
    MoveRight,
    MoveLeft,
    Jump,
    Other,
}

/// What the player reads in one frame: the controls held, in the order they
/// are reported, the cursor position, and whether the dash button was pressed
/// this frame.
#[derive(Debug)]
pub struct FrameInput {
    pub controls: Vec<Control>,
    pub mouse_x: i64,
    pub mouse_y: i64,
    pub dash_pressed: bool,
}

impl FrameInput {
    pub open spec fn in_limits(&self) -> bool {
        in_limits(self.mouse_x as int) && in_limits(self.mouse_y as int)
    }

    /// Whether the cursor lies within the limits, as `in_limits` states.
    pub fn fits_limits(&self) -> (r: bool)
        ensures
            r == self.in_limits(),
    {
        -COORD_LIMIT <= self.mouse_x && self.mouse_x <= COORD_LIMIT && -COORD_LIMIT
            <= self.mouse_y && self.mouse_y <= COORD_LIMIT
    }
}

/// Movement state during a frame: which sides are free and the velocity.
#[derive(Clone, Copy, Debug, PartialEq, Eq, Structural)]
pub struct Contact {
    pub is_falling: bool,
    pub can_walk_left: bool,
    pub can_walk_right: bool,
    pub velocity: Velocity,
}

/// The state before any platform is checked: falling, free on both sides.
pub open spec fn free_contact(v: Velocity) -> Contact {
    Contact { is_falling: true, can_walk_left: true, can_walk_right: true, velocity: v }
}

/// The effect of one platform: only the first side that overlaps it, in the
/// order upper, lower, left, right, acts. The upper side bounces the vertical
/// velocity, the lower one grounds the body, the left and right ones block
/// that side and reverse the horizontal velocity.
pub open spec fn touched(hb: Hitboxes, c: Contact, p: Rect) -> Contact {
    if hb.upper.spec_overlaps(p) {
        Contact { velocity: Velocity { y: bounced(c.velocity.y as int) as i64, ..c.velocity }, ..c }
    } else if hb.lower.spec_overlaps(p) {
        Contact { is_falling: false, ..c }
    } else if hb.left.spec_overlaps(p) {
        Contact {
            can_walk_left: false,
            velocity: Velocity { x: (-c.velocity.x) as i64, ..c.velocity },
            ..c
        }
    } else if hb.right.spec_overlaps(p) {
        Contact {
            can_walk_right: false,
            velocity: Velocity { x: (-c.velocity.x) as i64, ..c.velocity },
            ..c
        }
    } else {
        c
    }
}

/// The platforms applied in order, each by `touched`.
pub open spec fn scanned(hb: Hitboxes, c: Contact, ps: Seq<Rect>) -> Contact
    decreases ps.len(),
{
    if ps.len() == 0 {
        c
    } else {
        touched(hb, scanned(hb, c, ps.drop_last()), ps.last())
    }
}

/// The effect of one control: moving right or left sets the horizontal
/// velocity to `speed` or `-speed` where that side is free; a jump sets the
/// vertical velocity to `jump` unless falling; other controls do nothing.
pub open spec fn steered(c: Contact, k: Control, speed: i64, jump: i64) -> Contact {
    match k {
        Control::MoveRight => if c.can_walk_right {
            Contact { velocity: Velocity { x: speed, ..c.velocity }, ..c }
        } else {
            c
        },
        Control::MoveLeft => if c.can_walk_left {
            Contact { velocity: Velocity { x: (-speed) as i64, ..c.velocity }, ..c }
        } else {
            c
        },
        Control::Jump => if !c.is_falling {
            Contact { velocity: Velocity { y: jump, ..c.velocity }, ..c }
        } else {
            c
        },
        Control::Other => c,
    }
}

/// The controls applied in order, each by `steered`; the last one to set a
/// component wins.
pub open spec fn steered_all(c: Contact, ks: Seq<Control>, speed: i64, jump: i64) -> Contact
    decreases ks.len(),
{
    if ks.len() == 0 {
        c
    } else {
        steered(steered_all(c, ks.drop_last(), speed, jump), ks.last(), speed, jump)
    }
}

/// The dash vector of a body toward a cursor: per axis, `dash_offset` from
/// the body's center (size halved, rounded down) to the cursor.
pub open spec fn dash_of(body: Rect, mouse_x: int, mouse_y: int) -> Velocity {
    Velocity {
        x: dash_offset(body.x + body.w / 2, mouse_x) as i64,
        y: dash_offset(body.y + body.h / 2, mouse_y) as i64,
    }
}

/// Computes the dash vector of `body` toward the cursor; each component lies
/// in `[-DASH_LIMIT, DASH_LIMIT]`.
pub fn dash_vector(body: &Rect, mouse_x: i64, mouse_y: i64) -> (r: Velocity)
    requires
        body.valid(),
        in_limits(mouse_x as int),
        in_limits(mouse_y as int),
    ensures
        r == dash_of(*body, mouse_x as int, mouse_y as int),
        -DASH_LIMIT <= r.x <= DASH_LIMIT,
        -DASH_LIMIT <= r.y <= DASH_LIMIT,
{
    let x = dash_component(body.x + body.w / 2, mouse_x);
    let y = dash_component(body.y + body.h / 2, mouse_y);
    Velocity { x, y }
}

/// The player: its body, the hitboxes derived from it, its velocity, the
/// impulses of its controls and what the last frame found of its contacts.
#[derive(Clone, Copy, Debug, PartialEq, Eq, Structural)]
pub struct Player {
    pub body: Rect,
    pub hitboxes: Hitboxes,
    pub velocity: Velocity,
    pub speed: i64,
    pub jump_impulse: i64,
    pub is_falling: bool,
    pub can_walk_left: bool,
    pub can_walk_right: bool,
}

impl Player {
    /// The hitboxes are those of the body.
    pub open spec fn wf(self) -> bool {
        self.hitboxes == hitboxes_of(self.body)
    }

    /// A state that one update accepts: a well-formed body, and velocity and
    /// impulses within the limits.
    pub open spec fn in_limits(self) -> bool {
        &&& self.body.valid()
        &&& self.velocity.in_limits()
        &&& in_limits(self.speed as int)
        &&& in_limits(self.jump_impulse as int)
    }

    /// The state after one frame over `platforms` with `input`:
    /// contacts from the hitboxes, damping, gravity, controls, dash,
    /// then the body moves by `(vx, -vy)` and the hitboxes are derived anew.
    pub open spec fn next(self, platforms: Seq<Rect>, input: FrameInput) -> Player {
        let c = scanned(self.hitboxes, free_contact(self.velocity), platforms);
        let damped_c = Contact {
            velocity: Velocity {
                x: damped(c.velocity.x as int) as i64,
                y: after_gravity(c.velocity.y as int, c.is_falling) as i64,
            },
            ..c
        };
        let s = steered_all(damped_c, input.controls@, self.speed, self.jump_impulse);
        let v = if input.dash_pressed {
            let d = dash_of(self.body, input.mouse_x as int, input.mouse_y as int);
            Velocity { x: (-d.x) as i64, y: d.y }
        } else {
            s.velocity
        };
        let body = Rect {
            x: (self.body.x + v.x) as i64,
            y: (self.body.y - v.y) as i64,
            ..self.body
        };
        Player {
            body,
            hitboxes: hitboxes_of(body),
            velocity: v,
            is_falling: s.is_falling,
            can_walk_left: s.can_walk_left,
            can_walk_right: s.can_walk_right,
            ..self
        }
    }
}

/// Applies the platforms to `start` in order, as `scanned` states.
pub fn scan(hb: &Hitboxes, start: Contact, platforms: &[Rect]) -> (r: Contact)
    requires
        hb.fit(),
        start.velocity.in_limits(),
        forall|i: int| 0 <= i < platforms@.len() ==> (#[trigger] platforms@[i]).valid(),
    ensures
        r == scanned(*hb, start, platforms@),
        r.velocity.in_limits(),
{
    let mut c = start;
    let mut i: usize = 0;
    while i < platforms.len()
        invariant
            hb.fit(),
            forall|j: int| 0 <= j < platforms@.len() ==> (#[trigger] platforms@[j]).valid(),
            0 <= i <= platforms@.len(),
            c == scanned(*hb, start, platforms@.take(i as int)),
            c.velocity.in_limits(),
        decreases platforms@.len() - i,
    {
        let p = &platforms[i];
        assert(platforms@.take(i as int + 1).drop_last() == platforms@.take(i as int));
        if hb.upper.overlaps(p) {
            c = Contact { velocity: Velocity { y: bounce(c.velocity.y), ..c.velocity }, ..c };
        } else if hb.lower.overlaps(p) {
            c = Contact { is_falling: false, ..c };
        } else if hb.left.overlaps(p) {
            c = Contact {
                can_walk_left: false,
                velocity: Velocity { x: -c.velocity.x, ..c.velocity },
                ..c
            };
        } else if hb.right.overlaps(p) {
            c = Contact {
                can_walk_right: false,
                velocity: Velocity { x: -c.velocity.x, ..c.velocity },
                ..c
            };
        }
        i = i + 1;
    }
    assert(platforms@.take(i as int) == platforms@);
    c
}

/// Applies the controls to `start` in order, as `steered_all` states.
pub fn steer(start: Contact, controls: &Vec<Control>, speed: i64, jump: i64) -> (r: Contact)
    requires
        in_limits(speed as int),
    ensures
        r == steered_all(start, controls@, speed, jump),
{
    let mut c = start;
    let mut i: usize = 0;
    while i < controls.len()
        invariant
            in_limits(speed as int),
            0 <= i <= controls@.len(),
            c == steered_all(start, controls@.take(i as int), speed, jump),
        decreases controls@.len() - i,
    {
        assert(controls@.take(i as int + 1).drop_last() == controls@.take(i as int));
        match controls[i] {
            Control::MoveRight => {
                if c.can_walk_right {
                    c = Contact { velocity: Velocity { x: speed, ..c.velocity }, ..c };
                }
            },
            Control::MoveLeft => {
                if c.can_walk_left {
                    c = Contact { velocity: Velocity { x: -speed, ..c.velocity }, ..c };
                }
            },
            Control::Jump => {
                if !c.is_falling {
                    c = Contact { velocity: Velocity { y: jump, ..c.velocity }, ..c };
                }
            },
            Control::Other => {},
        }
        i = i + 1;
    }
    assert(controls@.take(i as int) == controls@);
    c
}

/// Controls leave the contact flags as they were.
pub proof fn lemma_steer_keeps_flags(c: Contact, ks: Seq<Control>, speed: i64, jump: i64)
    ensures
        ({
            let r = steered_all(c, ks, speed, jump);
            &&& r.is_falling == c.is_falling
            &&& r.can_walk_left == c.can_walk_left
            &&& r.can_walk_right == c.can_walk_right
        }),
    decreases ks.len(),
{
    if ks.len() > 0 {
        lemma_steer_keeps_flags(c, ks.drop_last(), speed, jump);
    }
}

/// Controls only ever set the horizontal velocity to `speed` or `-speed` and
/// the vertical one to `jump`.
pub proof fn lemma_steered_values(c: Contact, ks: Seq<Control>, speed: i64, jump: i64)
    requires
        in_limits(speed as int),
    ensures
        ({
            let r = steered_all(c, ks, speed, jump);
            &&& r.velocity.x == c.velocity.x || r.velocity.x == speed || r.velocity.x == -speed
            &&& r.velocity.y == c.velocity.y || r.velocity.y == jump
        }),
    decreases ks.len(),
{
    if ks.len() > 0 {
        lemma_steered_values(c, ks.drop_last(), speed, jump);
    }
}

impl Player {
    /// The player of a new game: a 32 by 32 pixel body at (100, 100), at
    /// rest, moving at 4 pixels and jumping with 6 pixels per frame.
    pub fn new() -> (r: Player)
        ensures
            r.body == (Rect { x: 100_000, y: 100_000, w: 32_000, h: 32_000 }),
            r.velocity == (Velocity { x: 0, y: 0 }),
            r.speed == 4000,
            r.jump_impulse == 6000,
            !r.is_falling,
            !r.can_walk_left,
            !r.can_walk_right,
            r.wf(),
            r.in_limits(),
    {
        Player::with_body(Rect::new(100_000, 100_000, 32_000, 32_000), 4000, 6000)
    }

    /// A player at rest with the given body and control impulses.
    pub fn with_body(body: Rect, speed: i64, jump_impulse: i64) -> (r: Player)
        requires
            body.valid(),
        ensures
            r.body == body,
            r.velocity == (Velocity { x: 0, y: 0 }),
            r.speed == speed,
            r.jump_impulse == jump_impulse,
            !r.is_falling,
            !r.can_walk_left,
            !r.can_walk_right,
            r.wf(),
    {
        Player {
            body,
            hitboxes: Hitboxes::of(&body),
            velocity: Velocity { x: 0, y: 0 },
            speed,
            jump_impulse,
            is_falling: false,
            can_walk_left: false,
            can_walk_right: false,
        }
    }

    /// Whether one more update is accepted, as `in_limits` states.
    pub fn fits_limits(&self) -> (r: bool)
        ensures
            r == self.in_limits(),
    {
        self.body.is_valid() && -COORD_LIMIT <= self.velocity.x && self.velocity.x <= COORD_LIMIT
            && -COORD_LIMIT <= self.velocity.y && self.velocity.y <= COORD_LIMIT && -COORD_LIMIT
            <= self.speed && self.speed <= COORD_LIMIT && -COORD_LIMIT <= self.jump_impulse
            && self.jump_impulse <= COORD_LIMIT
    }

    /// Advances the player by one frame, as `next` states.
    pub fn update(&mut self, platforms: &[Rect], input: &FrameInput)
        requires
            old(self).wf(),
            old(self).in_limits(),
            forall|i: int| 0 <= i < platforms@.len() ==> (#[trigger] platforms@[i]).valid(),
            input.in_limits(),
        ensures
            *final(self) == old(self).next(platforms@, *input),
            final(self).wf(),
    {
        proof {
            lemma_hitboxes_fit(self.body);
        }
        let start = Contact {
            is_falling: true,
            can_walk_left: true,
            can_walk_right: true,
            velocity: self.velocity,
        };
        let c = scan(&self.hitboxes, start, platforms);
        let vx = damp(c.velocity.x);
        let vy = apply_gravity(c.velocity.y, c.is_falling);
        let pre = Contact { velocity: Velocity { x: vx, y: vy }, ..c };
        let s = steer(pre, &input.controls, self.speed, self.jump_impulse);
        proof {
            lemma_steered_values(pre, input.controls@, self.speed, self.jump_impulse);
            lemma_steer_keeps_flags(pre, input.controls@, self.speed, self.jump_impulse);
        }
        let v = if input.dash_pressed {
            let d = dash_vector(&self.body, input.mouse_x, input.mouse_y);
            Velocity { x: -d.x, y: d.y }
        } else {
            s.velocity
        };
        let body = Rect { x: self.body.x + v.x, y: self.body.y - v.y, ..self.body };
        self.hitboxes = Hitboxes::of(&body);
        self.body = body;
        self.velocity = v;
        self.is_falling = s.is_falling;
        self.can_walk_left = s.can_walk_left;
        self.can_walk_right = s.can_walk_right;
    }
}

} // verus!
