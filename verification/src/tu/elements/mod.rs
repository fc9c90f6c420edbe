//! The elements that answer requests.
pub mod registrar;
pub mod req_processor;
pub mod ua;
