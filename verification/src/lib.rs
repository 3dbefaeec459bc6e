//! Simulation core of an idle clicker game.
//!
//! A player gathers a team of up to three creatures and wears down a stream of
//! enemies, one hit per click or per elapsed clock interval. Every type has a
//! mathematical model (its view), and every operation is specified as a
//! function on those models.

pub mod battler;
pub mod clock;
pub mod game;
pub mod hp;
pub mod level;
pub mod player;
pub mod quad;
pub mod scene;
pub mod status;
