//! Frame-stepped simulation core for a Breakout-style arcade game.
//!
//! The world is modelled over plain integers: positions and sizes are in
//! whole units, time is in milliseconds, and fractional factors (speed
//! multipliers, trigonometric coefficients) are in thousandths. Every
//! public function carries a contract that pins down exactly how it moves
//! the simulation forward.

pub mod collision;
pub mod components;
pub mod game;
pub mod geometry;
pub mod hud;
pub mod movement;
pub mod powerups;
pub mod setup;
pub mod world;
