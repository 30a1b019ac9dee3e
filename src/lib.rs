//! A frame-scoped context for immediate-mode user interfaces: a stack of
//! drawing regions with strictly nested scopes, a single-run session guard
//! pinned to one thread, and the value cells that widgets read and write.

pub mod error;
pub mod stack;
pub mod session;
pub mod nesting;
pub mod choice;
pub mod cells;
