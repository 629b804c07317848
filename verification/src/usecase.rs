//! Use-case layer: per-entity services orchestrating validation,
//! cross-entity lookups and persistence, and the API-facing error
//! kinds with their status-code mapping.

pub mod book;
pub mod error;
pub mod publisher;
pub mod shop;
