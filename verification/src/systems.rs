//! The per-tick systems of the simulation.

pub mod collision;
pub mod enemy;
pub mod game_state;
pub mod movement;
pub mod road;
