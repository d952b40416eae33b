//! Sprites and the objects that place them.

pub mod colors;
pub mod render_object;
pub mod sprite;
