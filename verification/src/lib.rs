//! Client-side core of a hosted message-queue service with an HTTP/XML API:
//! signed requests that publish, fetch and acknowledge messages, and the
//! reading of what the service answers. Sending is left to the caller.

pub mod client;
pub mod conf;
pub mod consumer;
pub mod digest;
pub mod error;
pub mod header;
pub mod model;
pub mod producer;
pub mod query;
pub mod text;
pub mod util;
pub mod xml;

pub use consumer::Consumer;
pub use producer::Producer;
