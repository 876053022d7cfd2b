//! A minimal HTTP/1.1 listener core: one request per connection, decoded from
//! the bytes of a single read and answered with a fixed-shape response.
//!
//! The crate holds the pure part of the pipeline. Reading from and writing to
//! sockets is left to the caller; every function here maps plain values to
//! plain values and carries a contract.

pub mod application;
pub mod decode;
pub mod request;
pub mod response;
pub mod scan;
pub mod text;
