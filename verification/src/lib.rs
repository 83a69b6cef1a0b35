//! A mutual-exclusion service core: named locks that are acquired, kept alive
//! by heartbeats, released, and taken over once their holder falls silent.

pub mod clock;
pub mod config;
pub mod models;
pub mod storage;
pub mod handlers;
