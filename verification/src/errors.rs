//! The error surface of the client.

use vstd::prelude::*;

verus! {

/// A failure of one call. Every error is surfaced to the immediate caller;
/// there is no retry and no local recovery.
#[derive(Debug)]
pub enum ConsulError {
    /// The server answered with a non-2xx status: the original status code
    /// and the raw response body text.
    HttpError(u16, String),
    /// A 2xx response body was not valid JSON.
    DecodeError(String),
    /// The transport failed before a status was obtained (connection, TLS,
    /// timeout). Constructed by the I/O layer, never by the pipeline.
    TransportError(String),
    /// The configuration was rejected at construction, before any request.
    ConfigError(String),
}

/// The message of a decode error reporting a 2xx body whose JSON does not
/// fit the shape the endpoint expects.
pub(crate) fn shape_mismatch() -> String {
    "response JSON does not fit the expected shape".to_owned()
}

} // verus!
