//! Domain layer: value objects, entities and domain errors.

pub mod book;
pub mod error;
pub mod publisher;
pub mod shop;
pub mod vo;
