//! Terminal escape sequences and the writer that gathers them.

pub mod decimal;
pub mod formatter;
pub mod shared_writer;
pub mod message_helper;
