//! Helpers for writing into row buffers.

pub mod arg_helper;
pub mod vec_t_writer;
pub mod vec_u8_writer;
