//! A two-player Pong simulation on an exact fixed-point model of the playfield.
//!
//! Positions, speeds and directions are integers in fixed units (see `game`), so
//! every frame step is exact and its effect is stated in the contracts.

pub mod geometry;
pub mod game;
pub mod laws;
