//! Where drawing ends up: the handle interface and its in-memory form.

pub mod handle;
pub mod handle_error;
pub mod memory_handle;
