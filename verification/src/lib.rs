//! Verified core of the Mulder library: the bookkeeping of materials sets
//! shared between geometries and physics tables, and the string logic
//! (chemical formulae, error messages, option names) around them.

pub mod materials;
pub mod utils;
pub mod simulation;
pub mod camera;
pub mod geometry;
