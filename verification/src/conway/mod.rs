//! The simulation and its control state machine.

pub mod command;
pub mod print_mode;
pub mod settings;
pub mod seeded_fill;
pub mod conways_game;
pub mod drawing;
