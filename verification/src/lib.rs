//! A grid of triangle tiles whose rotations and colours are drawn from a
//! seeded pseudo-random stream.
//!
//! `grid` builds the tiles, `randomize` runs the pass that styles them from a
//! seed, `model` holds the state of a sketch and `events` decides what a key
//! press does to it. `stream` and `palette` hold the calls into rand, nannou
//! and paleta that the pass is made of.

pub mod events;
pub mod grid;
pub mod model;
pub mod palette;
pub mod randomize;
pub mod stream;
