//! A verified core for a small game-backlog backend.
//!
//! The crate models the request-processing pipeline of the service: the
//! middleware chain that guards every request (API-prefix check, pooled
//! connection checkout, error-to-response translation), the row codec that
//! moves domain values in and out of relational rows, and the create-or-update
//! engine that keeps every play-tracking `Entry` linked to exactly one owning
//! user through the `Library` join table.

pub mod codec;
pub mod error;
pub mod handlers;
pub mod models;
pub mod pipeline;
pub mod pool;
pub mod store;
