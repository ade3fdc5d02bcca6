//! Request-to-storage mapping for a small task and document service.
//!
//! The library turns validated request input into parameterized statements,
//! merges partial updates, computes pagination windows and classifies store
//! outcomes into the uniform response envelope. It also holds an in-memory
//! task table with the store's semantics. Executing statements against a
//! database and speaking HTTP is left to the caller.

pub mod model;
pub mod schema;
pub mod paging;
pub mod ids;
pub mod query;
pub mod reply;
pub mod handlers;
pub mod store;
pub mod laws;
