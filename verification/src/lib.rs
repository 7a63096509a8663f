//! An in-memory key-value database served over channels.

pub mod action;
pub mod inner;
pub mod laws;
pub mod list;
pub mod saildb;
pub mod shared_map;
