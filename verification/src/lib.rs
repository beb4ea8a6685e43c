//! A deterministic 2D gravity sandbox: circular bodies ("asteroids") attract
//! each other, collide and merge, and a ship flies among them.
//!
//! Every quantity of the simulation is a fixed-point number (see [`fixed`]),
//! so a run is reproducible bit for bit: the same spawns and the same elapsed
//! times give the same world on every machine.

pub mod fixed;
pub mod vector;
pub mod objects;
pub mod ship;
pub mod world;
