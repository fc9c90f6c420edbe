//! Elements that answer one kind of request on their own.
pub mod capabilities;
