//! A minimal HTTP/1.1 server core: request parsing, exact (path, method)
//! routing, HTML template rendering, and wire-format response framing.
//!
//! The library holds the verified logic; socket I/O lives with the caller,
//! which hands raw request bytes in and writes the framed response out.
use vstd::prelude::*;

pub mod render;
pub mod routes;
pub mod server;
pub mod text;
pub mod wire;

verus! {

/// The fixed size of the single read a connection is given.
pub const READ_BUFFER_SIZE: usize = 1024;

} // verus!
