//! Decision core of a runtime interposition layer.
//!
//! Everything that touches the host process (symbol lookup, calls through
//! resolved addresses, hook installation) lives outside this crate. What is
//! here is the logic those pieces are driven by: the table of host symbols,
//! the resolved-address cache, the byte layouts of overlaid host objects and
//! typed access to them, the chat command grammar, and the decisions each
//! substitute implementation takes.

pub mod command;
pub mod endian;
pub mod hooks;
pub mod host;
pub mod layout;
pub mod objects;
pub mod overlay;
pub mod resolve;
pub mod symbol;
pub mod text;
