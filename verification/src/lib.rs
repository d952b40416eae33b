//! Conway's Game of Life for the terminal: the toroidal grid and its transition
//! rule, the keyboard-driven control state machine, and the byte-exact
//! rendering of cells, sprites and banners into terminal escape sequences.
//!
//! Nothing in this crate touches a terminal, a clock or a thread. Callers feed
//! in key events and clock readings and carry the produced bytes to wherever
//! they are shown.

pub mod conways_law;
pub mod coordinate;
pub mod console;
pub mod conway;
pub mod rendering;
pub mod shared;
pub mod utils;
pub mod handler;
pub mod terminal;
pub mod coordination;
pub mod panel;
pub mod windows;
