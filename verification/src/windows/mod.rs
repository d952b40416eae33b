//! A window: a frame buffer with a place on the screen.

pub mod command_enum;
pub mod errors;
pub mod state;
pub mod window;
