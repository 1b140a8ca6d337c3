//! Simulation core of a top-down driving-avoidance game.
//!
//! Every quantity is a fixed-point integer:
//! - lengths and positions are thousandths of a distance unit (`i64`),
//! - time is microseconds (`u64`),
//! - the speed multiplier is thousandths (`u32`, so `1000` is 1.0x),
//! - speeds are whole distance units per second (`u32`).
//!
//! A `Game` holds the entity registry and the shared state; `tick` advances
//! it by one frame, and `restart_game` starts the next round.

pub mod components;
pub mod game;
pub mod random;
pub mod registry;
pub mod resources;
pub mod setup;
pub mod systems;
pub mod ui;
pub mod units;
