//! A rock-paper-scissors tournament simulator with verified game logic.
//!
//! Five fixed players, each with its own decision strategy, repeatedly play
//! one-round matches. Per-player records accumulate wins, losses, draws and
//! move histories; several strategies read those records back when choosing
//! their next move.

pub mod game;
pub mod record;
pub mod rng;
pub mod strategy;
pub mod tournament;
