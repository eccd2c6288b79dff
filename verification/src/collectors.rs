//! The concrete source adapters.

pub mod konachan;
pub mod reddit;
