//! Geometry and cell types shared by everything that draws.

pub mod frame;
pub mod shared_errors;
pub mod square;
pub mod usize2d;
