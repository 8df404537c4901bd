//! A client library for a distributed key-value store's v2 HTTP API.
//!
//! Operations are issued against an ordered list of cluster member
//! endpoints. Sequential failover retries each endpoint in turn until one
//! succeeds; concurrent fan-out issues the same read-only query to every
//! member. Conditional writes and deletes are encoded from validated
//! precondition sets, and watches race a long-poll read against an optional
//! client-side timeout.
//!
//! The crate itself performs no I/O: it builds requests, drives the failover
//! and fan-out protocols step by step, and interprets responses. A host
//! program supplies the HTTP transport and feeds each outcome back in.

pub mod auth;
pub mod base64;
pub mod client;
pub mod decimal;
pub mod error;
pub mod fanout;
pub mod first_ok;
pub mod kv;
pub mod members;
pub mod options;

pub use client::BasicAuth;
pub use client::ClusterInfo;
pub use client::Health;
pub use client::Response;
pub use client::VersionInfo;
pub use error::ApiError;
pub use error::Error;
pub use error::WatchError;
