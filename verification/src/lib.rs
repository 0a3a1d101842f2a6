//! Tick-driven motion and collision engine for a falling-block game.
//!
//! The library advances a single falling rectangle once per fixed simulation
//! step: it decrements debounce counters, decides whether gravity applies,
//! integrates player input into horizontal motion with axis-separated
//! collision checks against static rectangles, integrates gravity into
//! vertical motion, and on a blocking vertical collision freezes the piece
//! and spawns a replacement at the fixed spawn transform.
//!
//! All coordinates are integers, center-origin: positions are rectangle
//! centers and sizes are full extents, in pixels.

pub mod board;
pub mod clock;
pub mod geometry;
pub mod input;
pub mod laws;
pub mod params;
pub mod piece;
pub mod world;
