//! Transaction users built out of the elements.
pub mod proxy;
