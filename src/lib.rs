//! Simulation core of a side-scrolling arcade shooter.
//!
//! World lengths are integers in thousandths of a pixel, scales are in
//! percent, rotations in quarter turns and timestamps in microseconds.
//! The world's Y axis points up.

pub mod geometry;
pub mod camera;
pub mod body;
pub mod asset;
pub mod unit;
pub mod player;
pub mod projectile;
pub mod enemy;
pub mod particals;
pub mod play_space;
pub mod game_state;
pub mod entity_manager;
pub mod wave_manager;
pub mod game_event_handler;
