//! Simulation core of a two-player paddle-and-ball arcade game.
//!
//! The crate holds the per-frame rules: keyboard-driven paddle speed, motion
//! with paddle clamping, ball/collider reflection, and the stop/play state
//! machine. Every coordinate, size and speed is a fixed-point integer (see
//! [`units::UNIT`]); windowing, rendering and key polling belong to the caller.

pub mod units;
pub mod components;
pub mod game_config;
pub mod states;
pub mod query;
pub mod game_plugin;
pub mod collision;
pub mod motion;
pub mod input;
pub mod transitions;
pub mod frame;
pub mod invariants;
