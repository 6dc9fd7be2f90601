//! Exact fixed-point core of a top-down 2D shooter: projectiles that fly in
//! straight lines, swept collision queries that cannot tunnel through thin
//! walls, specular impact response, timed lifetimes and a volume-uniform
//! cone sampler for debris.
//!
//! Every quantity is an integer, so that every statement about the
//! simulation is exact:
//!
//! * time is counted in milliseconds,
//! * velocities in thousandths of a world unit per second, which is the
//!   same as millionths of a world unit per millisecond,
//! * positions in millionths of a world unit.
//!
//! A displacement is therefore the plain product of a velocity and an
//! elapsed time, with no rounding anywhere along a trajectory.
//!
//! The library decides; it neither draws nor casts rays. Each tick the
//! host asks the store for the sweeps of its projectiles, puts them to its
//! collision query, hands the answers back, and carries out on its own
//! entities what the store reports:
//!
//! * [`bullet`]: firing a projectile, its sweep, and what a tick does to it,
//! * [`impact`]: reflection off a surface and the debris effect it orients,
//! * [`lifetime`]: the countdown by which projectiles and debris expire,
//! * [`world`]: the entity store and its tick,
//! * [`cone`]: the volume-uniform sampler of a truncated cone,
//! * [`program`]: the sampler as a shader program for the effect renderer,
//! * [`clock`]: whole milliseconds out of the host's frame times,
//! * [`roots`], [`vec2`], [`effects`]: integer roots, vectors, effect handles.
pub mod bullet;
pub mod clock;
pub mod cone;
pub mod effects;
pub mod impact;
pub mod lifetime;
pub mod program;
pub mod roots;
pub mod vec2;
pub mod world;

