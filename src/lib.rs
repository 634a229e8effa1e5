//! An in-memory registry of agent statuses and task records, shared between
//! callers behind one lock.

pub mod registry;
pub mod shared;
pub mod string_map;
