//! Core of a chat-controlled arcade game.
//!
//! Viewers type commands such as `#fire 3` into chat; this crate parses those
//! lines into typed spawn requests, turns a request into a fully configured
//! game entity by composing draw, physics and life strategies, and verifies
//! the player's per-tick movement rules.
//!
//! All positions, sizes and velocities are integers measured in tenths of a
//! world unit, so the fractional tuning constants of the game (a scale of
//! 1.5, a jump impulse of -8.5 units) stay exact.

pub mod chatter;
pub mod command;
pub mod draw_system;
pub mod game_object;
pub mod life_system;
pub mod physics;
pub mod rect;
pub mod sprite;
