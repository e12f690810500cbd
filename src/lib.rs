//! Physics and collision core of a small 2D platformer: a player body that
//! falls under gravity, probes static platforms with four thin side boxes,
//! reacts to movement and jump controls and dashes on a mouse click.
//!
//! All lengths are fixed-point integers: one pixel is `UNITS_PER_PIXEL` units.
pub mod geometry;
pub mod physics;
pub mod hitbox;
pub mod player;
pub mod world;
pub mod laws;

pub use geometry::{Rect, UNITS_PER_PIXEL, COORD_LIMIT};
pub use physics::{
    Velocity, bounce, damp, apply_gravity, dash_component, GRAVITY, AIR_FRICTION, DEADZONE,
    BOUNCE_NUM, BOUNCE_DEN, DASH_SMOOTHING, DASH_LIMIT,
};
pub use hitbox::Hitboxes;
pub use player::{Control, FrameInput, Contact, Player, dash_vector, scan, steer};
pub use world::World;
