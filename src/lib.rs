//! A terminal canvas with damage tracking: a grid of styled cells, a differ that
//! finds the cells that changed between two frames, and the session state that
//! decides what is written to the terminal and when a frame becomes the baseline.

pub mod ui;
pub mod style;
pub mod grid;
pub mod buffer;
pub mod session;
pub mod config;
pub mod laws;
pub mod player;
