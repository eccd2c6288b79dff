//! Multi-source media-post collection: a shared filter and item model, a
//! verified pagination state machine, and a registry that dispatches source
//! names to the collectors that serve them. Network transport is left to the
//! embedding program, which feeds each fetched page back into the engine.

pub mod collector;
pub mod collectors;
pub mod engine;
pub mod error;
pub mod item;
pub mod jsonvalue;
pub mod params;
pub mod registry;
pub mod strutil;
