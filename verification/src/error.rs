//! Error types shared by every API operation.

use vstd::prelude::*;

verus! {

/// A structured error returned by a cluster member in a response body.
#[derive(Clone, Debug, Eq, Hash, PartialEq)]
pub struct ApiError {
    /// A cause for the failure, if one was given.
    pub cause: Option<String>,
    /// The numeric code identifying the kind of failure.
    pub error_code: u64,
    /// The store modification index at the time of the failure.
    pub index: u64,
    /// A human-readable description of the failure.
    pub message: String,
}

/// An error from one attempted operation against one cluster member, or a
/// local error raised before any member was contacted.
#[derive(Clone, Debug, Eq, Hash, PartialEq)]
pub enum Error {
    /// A well-formed structured error reported by a cluster member.
    Api(ApiError),
    /// A conditional operation was requested with no condition at all.
    InvalidConditions,
    /// An endpoint could not be parsed as a URI.
    InvalidUri,
    /// A request URL could not be assembled from the key and parameters.
    InvalidUrl,
    /// A client was constructed with an empty endpoint list.
    NoEndpoints,
    /// A response body decoded as neither the expected payload nor a
    /// structured error.
    Serialization,
    /// The HTTP exchange itself failed (connection, TLS, I/O).
    Transport,
    /// A response carried a status code the operation does not recognize.
    UnexpectedStatus(u16),
}

/// The terminal failure of a watch operation.
#[derive(Clone, Debug, Eq, Hash, PartialEq)]
pub enum WatchError {
    /// The watch gave up after its client-imposed deadline lapsed.
    Timeout,
    /// Every endpoint failed; one error per attempted endpoint, in attempt
    /// order.
    Other(Vec<Error>),
}

} // verus!
