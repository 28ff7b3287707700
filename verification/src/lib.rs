//! Simulation core of a falling-containers arcade game: a tick-driven grid
//! world in which crates drop, stack and score while a player walks, jumps
//! and must not be crushed.

pub mod game;
pub mod grid;
pub mod laws;
pub mod layout;
pub mod menu;
pub mod model;
pub mod player;
mod rng;
pub mod stats;
pub mod timer;
