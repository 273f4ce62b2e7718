//! Request-handling logic of a small social network back end: pagination,
//! cache keys and their invalidation patterns, token claims, and the
//! decision procedures of every request handler, written as state machines
//! that an I/O layer drives.

pub mod models;
pub mod services;
pub mod utils;
