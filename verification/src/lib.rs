//! Core of a two-paddle ball-bounce simulation: geometry, paddle movement,
//! ball physics, the computer opponent's tracking policy, scoring, and the
//! run-state machine.
//!
//! All pixel-space quantities are measured in subunits (thousandths of a
//! pixel), so that the whole engine works over integers. The host converts
//! to and from its own pixel representation at the boundary.

pub mod ball;
pub mod game;
pub mod geom;
pub mod opponent;
pub mod paddle;
pub mod units;
