//! Proximity-alert simulation core on fixed-point coordinates.
//!
//! A player actor moves across a plane under directional input while enemy
//! actors switch between an idle and an alerted state according to their
//! distance to the player. Two distinct thresholds keep the state from
//! flapping at a boundary, and each alerted enemy owns exactly one marker
//! that is turned toward the camera every frame.
//!
//! All coordinates and lengths are integers counted in millionths of a
//! world unit, all durations are integers counted in microseconds, and the
//! components of a movement direction are integers counted in billionths,
//! so that every comparison and every step of the simulation is exact and
//! reproducible. A step is taken only where the place it leads to has
//! coordinates that an `i64` can hold; every place within `2^62` steps of
//! the origin is such a place, whatever the speed and the frame's length.

pub mod enemy;
pub mod fps_counter;
pub mod game;
pub mod input;
pub mod menu;
pub mod player;
pub mod vector;
