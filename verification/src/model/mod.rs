//! The data the client works on: its settings and the records it writes.

pub mod config;
pub mod data;
pub mod property;
