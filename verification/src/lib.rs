//! A client-side library for Consul's HTTP API.
//!
//! The heart of the crate is the request pipeline: building one
//! fully-determined HTTP request from a path, a method, an optional JSON
//! body and per-call options, and interpreting one HTTP response into a
//! decoded value with its metadata or a typed error. Endpoint modules
//! (connect CA, sessions) are thin layers over that pipeline: fixed paths,
//! framed bodies, and decoders for the answers. The transport itself —
//! sockets, TLS, timeouts — lives outside this crate; it is handed a
//! `PreparedRequest` and hands back the status, body and headers of the
//! one response.

pub mod connect_ca;
pub mod digits;
pub mod encode;
pub mod errors;
pub mod json;
pub mod options;
pub mod pipeline;
pub mod session;

pub use connect_ca::{CAConfig, CARoot, CARootList};
pub use errors::ConsulError;
pub use options::{Config, QueryOptions, TlsConfig, WriteOptions};
pub use pipeline::{Method, PreparedRequest, QueryMeta, ResponseHeaders, WriteMeta};
pub use session::SessionEntry;
