//! Combat and level-progression simulation of a gem tower-defense game.
//!
//! Lengths are whole thousandths of a world unit and times are whole
//! milliseconds, so every rule of the simulation is exact integer arithmetic.

pub mod abilities;
pub mod buffs;
pub mod creeps;
pub mod entity;
pub mod grid;
pub mod invariants;
pub mod level_1;
pub mod math_utils;
pub mod path;
mod random;
pub mod timer;
pub mod towers;
pub mod workarounds;
pub mod world;
