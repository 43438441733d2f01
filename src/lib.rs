//! Simulation core of a grid-based snake game: steering, fixed-tick movement,
//! wrap-around at the playfield edges, self-collision and apple growth.

pub mod direction;
pub mod game;
pub mod geometry;
pub mod placement;
