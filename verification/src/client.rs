//! The client-side data model shared by every API call: the validated
//! endpoint list, the response envelope, and the best-effort cluster
//! metadata taken from response headers.

use vstd::prelude::*;
use vstd::string::StringExecFns;
use vstd::utf8::decode_utf8;
use vstd::utf8::valid_utf8;

use crate::decimal::parse_u64;
use crate::decimal::parsed_u64;
use crate::error::ApiError;
use crate::error::Error;

verus! {

/// A username and password to use for HTTP basic authentication.
#[derive(Clone, Debug, Eq, Hash, PartialEq)]
pub struct BasicAuth {
    /// The username to use for authentication.
    pub username: String,
    /// The password to use for authentication.
    pub password: String,
}

/// A value returned by the health check API endpoint to indicate a healthy
/// cluster member.
#[derive(Clone, Debug, Eq, Hash, PartialEq)]
pub struct Health {
    /// The health status of the cluster member.
    pub health: String,
}

/// Version information reported by one cluster member.
#[derive(Clone, Debug, Eq, Hash, PartialEq)]
pub struct VersionInfo {
    /// The version of the cluster-wide API.
    pub cluster_version: Option<String>,
    /// The version of the responding server.
    pub server_version: Option<String>,
}

/// A wrapper type returned by all API calls: the primary data of the
/// response along with cluster metadata extracted from the HTTP response
/// headers.
#[derive(Clone, Debug, Eq, PartialEq)]
pub struct Response<T> {
    /// Information about the state of the cluster.
    pub cluster_info: ClusterInfo,
    /// The primary data of the response.
    pub data: T,
}

/// Information about the state of the cluster, derived best-effort from
/// four well-known response headers. A missing header and a malformed
/// header value alike leave their field `None`; they never fail the
/// operation, and each field is derived from its own header only.
#[derive(Clone, Debug, Eq, Hash, PartialEq)]
pub struct ClusterInfo {
    /// An internal identifier for the cluster.
    pub cluster_id: Option<String>,
    /// A unique, monotonically-incrementing integer created for each
    /// change to the store.
    pub etcd_index: Option<u64>,
    /// A unique, monotonically-incrementing integer used by the consensus
    /// protocol.
    pub raft_index: Option<u64>,
    /// The current consensus election term.
    pub raft_term: Option<u64>,
}

/// The raw values of the four cluster-metadata response headers, each
/// absent when the response did not carry that header.
#[derive(Clone, Debug, Eq, Hash, PartialEq)]
pub struct ResponseHeaders {
    /// The value of the cluster-id header.
    pub cluster_id: Option<Vec<u8>>,
    /// The value of the store-index header.
    pub etcd_index: Option<Vec<u8>>,
    /// The value of the consensus-index header.
    pub raft_index: Option<Vec<u8>>,
    /// The value of the consensus-term header.
    pub raft_term: Option<Vec<u8>>,
}

/// The number an optional header value parses to: `None` when the header
/// is absent or its value is not an in-range decimal numeral.
pub open spec fn header_u64(h: Option<Vec<u8>>) -> Option<u64> {
    match h {
        Some(b) => parsed_u64(b@),
        None => None,
    }
}

/// Relies on `String::from_utf8`: it succeeds exactly on well-formed UTF-8
/// input and returns the string those bytes encode.
#[verifier::external_body]
fn bytes_to_string(b: &Vec<u8>) -> (r: Option<String>)
    ensures
        r is Some <==> valid_utf8(b@),
        r matches Some(s) ==> s@ == decode_utf8(b@),
{
    match String::from_utf8(b.clone()) {
        Ok(s) => Some(s),
        Err(_) => None,
    }
}

impl ClusterInfo {
    /// Derives the cluster metadata from the four response headers, each
    /// field best-effort and independently of the others: the cluster id
    /// is the header's value when that value is well-formed text, and each
    /// counter is its header's value when that value is an in-range
    /// decimal numeral; anything else leaves the single affected field
    /// `None`.
    pub fn from_headers(headers: &ResponseHeaders) -> (r: ClusterInfo)
        ensures
            r.cluster_id is Some <==> (headers.cluster_id matches Some(b) && valid_utf8(b@)),
            r.cluster_id matches Some(s) ==> s@ == decode_utf8(headers.cluster_id.unwrap()@),
            r.etcd_index == header_u64(headers.etcd_index),
            r.raft_index == header_u64(headers.raft_index),
            r.raft_term == header_u64(headers.raft_term),
    {
        let cluster_id = match &headers.cluster_id {
            Some(b) => bytes_to_string(b),
            None => None,
        };
        let etcd_index = match &headers.etcd_index {
            Some(b) => parse_u64(b.as_slice()),
            None => None,
        };
        let raft_index = match &headers.raft_index {
            Some(b) => parse_u64(b.as_slice()),
            None => None,
        };
        let raft_term = match &headers.raft_term {
            Some(b) => parse_u64(b.as_slice()),
            None => None,
        };
        ClusterInfo { cluster_id, etcd_index, raft_index, raft_term }
    }
}

/// Whether `http::Uri`'s string parser accepts `s`; the answer depends on
/// the characters of `s` alone.
pub uninterp spec fn uri_ok(s: Seq<char>) -> bool;

/// Relies on `http::Uri`'s `FromStr` parser to decide whether `s` is a
/// well-formed URI.
#[verifier::external_body]
fn check_uri(s: &str) -> (r: bool)
    ensures
        r == uri_ok(s@),
{
    s.parse::<http::Uri>().is_ok()
}

/// The ordered, non-empty, validated list of cluster member endpoints an
/// API client holds. Order is significant: it is the failover priority.
#[derive(Clone, Debug)]
pub struct Endpoints {
    uris: Vec<String>,
}

impl View for Endpoints {
    type V = Seq<Seq<char>>;

    closed spec fn view(&self) -> Seq<Seq<char>> {
        self.uris@.map_values(|s: String| s@)
    }
}

impl Endpoints {
    /// Validates and adopts an endpoint list. Construction fails before
    /// any network activity: with `NoEndpoints` exactly when the list is
    /// empty, and with `InvalidUri` exactly when some entry is not a
    /// well-formed URI.
    pub fn new(uris: Vec<String>) -> (r: Result<Endpoints, Error>)
        ensures
            uris@.len() == 0 ==> r == Err::<Endpoints, Error>(Error::NoEndpoints),
            uris@.len() >= 1 && (forall|i: int|
                0 <= i < uris@.len() ==> uri_ok(#[trigger] uris@[i]@)) ==> (r matches Ok(eps)
                && eps@ == uris@.map_values(|s: String| s@)),
            uris@.len() >= 1 && (exists|i: int|
                0 <= i < uris@.len() && !uri_ok(#[trigger] uris@[i]@)) ==> r == Err::<
                Endpoints,
                Error,
            >(Error::InvalidUri),
    {
        if uris.len() == 0 {
            return Err(Error::NoEndpoints);
        }
        let mut i: usize = 0;
        while i < uris.len()
            invariant
                i <= uris@.len(),
                forall|j: int| 0 <= j < i ==> uri_ok(#[trigger] uris@[j]@),
            decreases uris@.len() - i,
        {
            if !check_uri(uris[i].as_str()) {
                return Err(Error::InvalidUri);
            }
            i = i + 1;
        }
        Ok(Endpoints { uris })
    }

    /// The number of endpoints.
    pub fn len(&self) -> (r: usize)
        ensures
            r == self@.len(),
    {
        self.uris.len()
    }

    /// The endpoint at failover position `i`.
    pub fn get(&self, i: usize) -> (r: &String)
        requires
            i < self@.len(),
        ensures
            r@ == self@[i as int],
    {
        &self.uris[i]
    }
}

/// Appends a request path to an endpoint's base URL.
pub fn build_url(endpoint: &str, path: &str) -> (r: String)
    ensures
        r@ == endpoint@ + path@,
{
    let mut url = endpoint.to_owned();
    url.append(path);
    url
}

/// The URL of one member's health check resource.
pub fn health_url(endpoint: &str) -> (r: String)
    ensures
        r@ == endpoint@ + "health"@,
{
    build_url(endpoint, "health")
}

/// The URL of one member's version resource.
pub fn version_url(endpoint: &str) -> (r: String)
    ensures
        r@ == endpoint@ + "version"@,
{
    build_url(endpoint, "version")
}

/// What a response body decoded as: the expected success payload, the
/// structured API error, or neither.
#[derive(Clone, Debug)]
pub enum DecodedBody<T> {
    /// The body decoded as the operation's success payload.
    Value(T),
    /// The body decoded as a structured API error.
    ErrorValue(ApiError),
    /// The body decoded as neither.
    Malformed,
}

/// Interprets one completed HTTP exchange of a plain read: status 200
/// means success and the body must carry the expected payload; any other
/// status is an application error whose body must carry the structured
/// error. A body that decoded as neither is a serialization error.
pub fn request_outcome<T>(status: u16, body: DecodedBody<T>, cluster_info: ClusterInfo) -> (r:
    Result<Response<T>, Error>)
    ensures
        status == 200 ==> (body matches DecodedBody::Value(d) ==> (r matches Ok(resp) && resp.data
            == d && resp.cluster_info == cluster_info)),
        status == 200 && !(body is Value) ==> r == Err::<Response<T>, Error>(Error::Serialization),
        status != 200 ==> (body matches DecodedBody::ErrorValue(e) ==> r == Err::<
            Response<T>,
            Error,
        >(Error::Api(e))),
        status != 200 && !(body is ErrorValue) ==> r == Err::<Response<T>, Error>(
            Error::Serialization,
        ),
{
    if status == 200 {
        match body {
            DecodedBody::Value(data) => Ok(Response { data, cluster_info }),
            _ => Err(Error::Serialization),
        }
    } else {
        match body {
            DecodedBody::ErrorValue(e) => Err(Error::Api(e)),
            _ => Err(Error::Serialization),
        }
    }
}

} // verus!
