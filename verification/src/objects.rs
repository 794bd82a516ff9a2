//! The layouts of the host objects that are overlaid.

pub mod actor;
pub mod connection;
pub mod player;
