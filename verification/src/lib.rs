//! A small interactive-menu library: a fixed list of entries, a selection
//! index that wraps around, canned description and result strings for each
//! entry, and a key-event step function that drives the whole interaction.
//!
//! Terminal rendering and input reading live outside this crate; the library
//! owns the state and every decision the interaction loop makes.

pub mod control;
pub mod laws;
pub mod state;
