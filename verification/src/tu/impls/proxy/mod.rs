//! A proxy.
pub mod processor;
