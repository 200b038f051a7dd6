//! The values that travel between the caller and the service.

pub mod message;
pub mod properties;
