//! A panel: a part of the screen that draws the objects sent to it.

pub mod command_enum;
pub mod errors;
pub mod panel;
pub mod state;
