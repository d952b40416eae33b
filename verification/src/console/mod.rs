//! The console as the game reads it: decoded input events and input modes.

pub mod console_control;
pub mod errors;
pub mod input_record;
pub mod mode;
pub mod notify_inputs;
