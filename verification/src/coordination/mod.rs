//! What holds the panels together.

pub mod service;
