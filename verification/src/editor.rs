//! The editor proper: its state, how key presses change it, and what it
//! shows.

pub mod custom;
pub mod laws;
pub mod screen;
