//! Shared definitions.

pub mod constants;
