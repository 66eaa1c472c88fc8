//! Flat memory of a small virtual CPU: a store of 4096 signed cells that is
//! read and written a byte or a word at a time, and the table that gives each
//! register its place in the store.

pub mod encoding;
pub mod memory;
pub mod model;
pub mod types;
