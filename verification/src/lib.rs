//! The movement rule of a stick-driven player, as a decision on plain facts.
//!
//! A frame's input is measured elsewhere: the stick's axis, the elapsed time
//! and the player's speed are quantities of the engine. This crate holds the
//! state a player starts with and what is decided from a frame's facts, and
//! proves what the decision guarantees.

pub mod movement;
pub mod player;
