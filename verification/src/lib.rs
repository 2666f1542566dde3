//! Request-construction layer for a remote game-server REST API.
//!
//! For each API operation the crate validates caller-supplied input, builds a
//! transport-agnostic description of the HTTP request (method, path and query,
//! headers, body bytes), classifies the operation under a rate-limit category,
//! and statically associates the request with the shape of the response a
//! caller should expect to decode. No I/O happens here: a transport adapter
//! consumes the descriptor and performs the actual exchange.

pub mod chars;
pub mod numtext;
pub mod correlate;
pub mod encoding;
pub mod endpoints;
pub mod rate_limits;
pub mod request;
pub mod schemas;
pub mod validate;
pub mod wire;

use vstd::prelude::*;

verus! {

/// The version of the remote API these requests are built for.
pub const API_VERSION: &'static str = "v1.3";

/// Base URL that a transport adapter roots every descriptor's path under.
pub const API_BASE_URL: &'static str = "https://api.artifactsmmo.com";

/// Every failure a builder can report. Both are recoverable by the caller and
/// neither leaves a partially-built descriptor behind.
#[derive(Debug, Clone, PartialEq, Eq)]
pub enum Error {
    /// A validated-value constraint was violated; carries the constraint and
    /// the offending input.
    InvalidInput(String),
    /// A value could not be represented on the wire (an illegal header value,
    /// or a path the HTTP layer rejects).
    EncodingError(String),
}

} // verus!
