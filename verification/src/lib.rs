//! Simulation core of a top-down arcade game: a player moves through
//! tile-based rooms, shoots projectiles in eight directions and fights
//! spawning enemies under a room countdown timer.
//!
//! Every coordinate is a fixed-point integer: one game unit is `geom::SCALE`
//! steps, one terrain tile is 16 units. Rendering, input polling, asset and
//! tilemap loading live outside this crate; the simulation consumes plain
//! snapshots (held keys, the tile grid) and exposes plain state back.

pub mod geom;
pub mod collision;
pub mod items;
pub mod bullet;
pub mod player;
pub mod enemy;
pub mod rng;
pub mod game;
