//! Frame-update core of a whack-a-mole style reflex game.
//!
//! The crate holds the game's rules as a state machine over plain values:
//! a bounded table of transient targets, the per-frame update, the click
//! protocol and the list of draw commands for a frame.  Windowing, asset
//! decoding and drawing are left to the driver, which reports what it
//! observed (poll results, clicks) and carries out what the library decides.

pub mod asset;
mod chance;
pub mod frame;
pub mod game;
pub mod geometry;
pub mod input;
pub mod invariants;
pub mod mole;
pub mod render;
pub mod rules;
pub mod slots;
pub mod table;
