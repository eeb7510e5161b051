//! Frame-by-frame rules of a side-scrolling runner: a player that runs and
//! jumps, a ground track that scrolls and recycles, birds and clouds that
//! drift in from the right, sprite animation on a fixed cadence, and the
//! overlap test that flags a hit.
//!
//! Positions are whole pixels with the origin at the window's centre, times
//! are whole nanoseconds. Every routine takes the records it works on and a
//! [`config::Config`]; nothing is kept in ambient state.

pub mod atlas;
pub mod collision;
pub mod config;
pub mod desert;
pub mod dino;
pub mod jump;
pub mod random;
pub mod scroll;
pub mod timer;
pub mod world;
