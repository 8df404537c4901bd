//! The cluster membership API.
//!
//! A host program serializes the peer URL lists, sends each request under
//! [`crate::first_ok`] failover, and feeds the decoded response through
//! the outcome functions below; a member listing goes through
//! [`crate::client::request_outcome`].

use vstd::prelude::*;

use crate::client::ClusterInfo;
use crate::client::Response;
use crate::client::build_url;
use crate::error::ApiError;
use crate::error::Error;

verus! {

/// A server that is a member of a cluster.
#[derive(Clone, Debug, Eq, Hash, PartialEq)]
pub struct Member {
    /// An internal identifier for the cluster member.
    pub id: String,
    /// A human-readable name for the cluster member.
    pub name: String,
    /// URLs exposing this cluster member's peer API.
    pub peer_urls: Vec<String>,
    /// URLs exposing this cluster member's client API.
    pub client_urls: Vec<String>,
}

/// The URL of a membership resource on one endpoint.
pub fn members_url(endpoint: &str, path: &str) -> (r: String)
    ensures
        r@ == endpoint@ + "v2/members"@ + path@,
{
    let base = build_url(endpoint, "v2/members");
    build_url(base.as_str(), path)
}

/// The resource path of one member.
pub fn member_path(id: &str) -> (r: String)
    ensures
        r@ == "/"@ + id@,
{
    build_url("/", id)
}

/// Interprets the response of adding a member: status 201 means the
/// member was created and the body carries nothing of interest; any other
/// status is an application error whose body must carry the structured
/// error, and a body that decoded as nothing is a serialization error.
pub fn member_added_outcome(
    status: u16,
    error_body: Option<ApiError>,
    cluster_info: ClusterInfo,
) -> (r: Result<Response<()>, Error>)
    ensures
        status == 201 ==> (r matches Ok(resp) && resp.cluster_info == cluster_info),
        status != 201 ==> (error_body matches Some(e) ==> r == Err::<Response<()>, Error>(
            Error::Api(e),
        )),
        status != 201 && error_body is None ==> r == Err::<Response<()>, Error>(
            Error::Serialization,
        ),
{
    if status == 201 {
        Ok(Response { data: (), cluster_info })
    } else {
        match error_body {
            Some(e) => Err(Error::Api(e)),
            None => Err(Error::Serialization),
        }
    }
}

/// Interprets the response of deleting a member or updating its peer
/// URLs: status 204 means the change took and the body carries nothing;
/// any other status is an application error whose body must carry the
/// structured error, and a body that decoded as nothing is a
/// serialization error.
pub fn member_changed_outcome(
    status: u16,
    error_body: Option<ApiError>,
    cluster_info: ClusterInfo,
) -> (r: Result<Response<()>, Error>)
    ensures
        status == 204 ==> (r matches Ok(resp) && resp.cluster_info == cluster_info),
        status != 204 ==> (error_body matches Some(e) ==> r == Err::<Response<()>, Error>(
            Error::Api(e),
        )),
        status != 204 && error_body is None ==> r == Err::<Response<()>, Error>(
            Error::Serialization,
        ),
{
    if status == 204 {
        Ok(Response { data: (), cluster_info })
    } else {
        match error_body {
            Some(e) => Err(Error::Api(e)),
            None => Err(Error::Serialization),
        }
    }
}

} // verus!
