//! The key-value API: request construction for every operation, the
//! conditional-operation encoding, and the watch protocol.
//!
//! The term "node" refers to a key-value pair or a directory of key-value
//! pairs. For example, "/foo" is a key if it has a value, but it is a
//! directory if there are other key-value pairs "underneath" it, such as
//! "/foo/bar".
//!
//! Every operation here builds a [`KvRequest`]: the transport verb, the
//! target key, and the request parameters, with write parameters already
//! encoded into a form-urlencoded body. A host program sends the request
//! to one endpoint at a time under [`crate::first_ok`] failover and feeds
//! the decoded response through [`write_outcome`] or
//! [`crate::client::request_outcome`].

use vstd::prelude::*;
use vstd::string::StringExecFns;

pub use crate::error::WatchError;
pub use crate::options::ComparisonConditions;

use crate::client::ClusterInfo;
use crate::client::DecodedBody;
use crate::client::Response;
use crate::client::build_url;
use crate::decimal::dec_str;
use crate::decimal::u64_to_dec;
use crate::error::Error;
use crate::options::DeleteOptions;
use crate::options::GetOptions as InternalGetOptions;
use crate::options::SetOptions;

verus! {

/// Information about the result of a successful key-value API operation.
#[derive(Debug, Eq, Hash, PartialEq)]
pub struct KeyValueInfo {
    /// The action that was taken, e.g. `get`, `set`.
    pub action: Action,
    /// The node that was operated upon.
    pub node: Node,
    /// The previous state of the target node.
    pub prev_node: Option<Node>,
}

/// The type of action that was taken in response to a key value API
/// request.
///
/// "Node" refers to the key or directory being acted upon.
#[derive(Clone, Copy, Debug, Eq, Hash, PartialEq)]
pub enum Action {
    /// Atomic deletion of a node based on previous state.
    CompareAndDelete,
    /// Atomic update of a node based on previous state.
    CompareAndSwap,
    /// Creation of a node that didn't previously exist.
    Create,
    /// Deletion of a node.
    Delete,
    /// Expiration of a node.
    Expire,
    /// Retrieval of a node.
    Get,
    /// Assignment of a node, which may have previously existed.
    SetKey,
    /// Update of an existing node.
    Update,
}

/// A key or directory of the store.
#[derive(Debug, Eq, Hash, PartialEq)]
pub struct Node {
    /// The new value of the creation index.
    pub created_index: Option<u64>,
    /// Whether or not the node is a directory.
    pub dir: Option<bool>,
    /// An ISO 8601 timestamp for when the key will expire.
    pub expiration: Option<String>,
    /// The name of the key.
    pub key: Option<String>,
    /// The new value of the modification index.
    pub modified_index: Option<u64>,
    /// Child nodes of a directory.
    pub nodes: Option<Vec<Node>>,
    /// The key's time to live in seconds.
    pub ttl: Option<i64>,
    /// The value of the key.
    pub value: Option<String>,
}

/// Options for customizing the behavior of [`get`].
#[derive(Clone, Copy, Debug, Eq, Hash, PartialEq)]
pub struct GetOptions {
    /// If true and the node is a directory, child nodes will be returned
    /// as well.
    pub recursive: bool,
    /// If true and the node is a directory, any child nodes returned will
    /// be sorted alphabetically.
    pub sort: bool,
    /// If true, the node serving the response will synchronize with the
    /// quorum before returning the value.
    ///
    /// This is slower but avoids possibly stale data from being returned.
    pub strong_consistency: bool,
}

/// Options for customizing the behavior of [`watch_request`].
#[derive(Clone, Copy, Debug, Eq, Hash, PartialEq)]
pub struct WatchOptions {
    /// If given, the watch operation will return the first change at the
    /// index or greater, allowing you to watch for changes that happened
    /// in the past.
    pub index: Option<u64>,
    /// Whether or not to watch all child keys as well.
    pub recursive: bool,
    /// If given, the watch operation will time out if it's still waiting
    /// after this many milliseconds.
    pub timeout: Option<u64>,
}

/// The transport verb of a request.
#[derive(Clone, Copy, Debug, Eq, Hash, PartialEq, Structural)]
pub enum HttpMethod {
    /// An HTTP DELETE.
    Delete,
    /// An HTTP GET.
    Get,
    /// An HTTP POST.
    Post,
    /// An HTTP PUT.
    Put,
}

/// One fully-prepared key-value API request: the verb, the target key,
/// the query parameters of a read or delete, and the already-encoded body
/// of a write.
#[derive(Clone, Debug, Eq, PartialEq)]
pub struct KvRequest {
    /// The transport verb.
    pub method: HttpMethod,
    /// The key the operation targets, as the path under the key-value
    /// resource root.
    pub key: String,
    /// Query parameters, in order; used by reads and deletes.
    pub query: Vec<(String, String)>,
    /// The form-urlencoded request body; used by writes, empty otherwise.
    pub body: String,
}

/// The views of a parameter list: each name and value as its character
/// sequence.
pub open spec fn pairs_view(v: Seq<(String, String)>) -> Seq<(Seq<char>, Seq<char>)> {
    v.map_values(|p: (String, String)| (p.0@, p.1@))
}

/// The boolean text of a parameter value.
pub open spec fn bool_chars(b: bool) -> Seq<char> {
    if b {
        "true"@
    } else {
        "false"@
    }
}

/// Renders a boolean parameter value.
fn bool_string(b: bool) -> (s: String)
    ensures
        s@ == bool_chars(b),
{
    if b {
        "true".to_owned()
    } else {
        "false".to_owned()
    }
}

/// The `value` parameter of a write, when a value is supplied.
pub open spec fn value_part(o: SetOptions) -> Seq<(Seq<char>, Seq<char>)> {
    match o.value {
        Some(v) => seq![("value"@, v@)],
        None => Seq::empty(),
    }
}

/// The `ttl` parameter of a write, when a time to live is supplied.
pub open spec fn ttl_part(o: SetOptions) -> Seq<(Seq<char>, Seq<char>)> {
    match o.ttl {
        Some(t) => seq![("ttl"@, dec_str(t as nat))],
        None => Seq::empty(),
    }
}

/// The `dir` parameter of a write, when the directory flag is supplied.
pub open spec fn dir_part(o: SetOptions) -> Seq<(Seq<char>, Seq<char>)> {
    match o.dir {
        Some(d) => seq![("dir"@, bool_chars(d))],
        None => Seq::empty(),
    }
}

/// The existence requirement a write effectively carries: the explicit
/// `prev_exist` field when set; otherwise a refresh implies the node must
/// already exist.
pub open spec fn effective_prev_exist(o: SetOptions) -> Option<bool> {
    match o.prev_exist {
        Some(p) => Some(p),
        None => if o.refresh {
            Some(true)
        } else {
            None
        },
    }
}

/// The `prevExist` parameter of a write, when an existence requirement is
/// in effect.
pub open spec fn prev_exist_part(o: SetOptions) -> Seq<(Seq<char>, Seq<char>)> {
    match effective_prev_exist(o) {
        Some(p) => seq![("prevExist"@, bool_chars(p))],
        None => Seq::empty(),
    }
}

/// The `refresh` parameter of a write, when the refresh flag is set.
pub open spec fn refresh_part(o: SetOptions) -> Seq<(Seq<char>, Seq<char>)> {
    if o.refresh {
        seq![("refresh"@, "true"@)]
    } else {
        Seq::empty()
    }
}

/// The compare parameters carried by a populated condition set: the prior
/// modification index and/or the prior value.
pub open spec fn condition_parts(c: ComparisonConditions) -> Seq<(Seq<char>, Seq<char>)> {
    (match c.modified_index {
        Some(i) => seq![("prevIndex"@, dec_str(i as nat))],
        None => Seq::empty(),
    }) + (match c.value {
        Some(v) => seq![("prevValue"@, v@)],
        None => Seq::empty(),
    })
}

/// The condition parameters of a write, when conditions are supplied.
pub open spec fn write_condition_part(o: SetOptions) -> Seq<(Seq<char>, Seq<char>)> {
    match o.conditions {
        Some(c) => condition_parts(c),
        None => Seq::empty(),
    }
}

/// Every parameter of a write-family operation, in encoding order.
pub open spec fn set_params_view(o: SetOptions) -> Seq<(Seq<char>, Seq<char>)> {
    value_part(o) + ttl_part(o) + dir_part(o) + prev_exist_part(o) + refresh_part(o)
        + write_condition_part(o)
}

/// True when the option set asks for conditions but supplies none; such an
/// operation is rejected locally, before any endpoint is contacted.
pub open spec fn set_conditions_invalid(o: SetOptions) -> bool {
    match o.conditions {
        Some(c) => c.spec_is_empty(),
        None => false,
    }
}

/// Encodes the parameters of a write-family operation, in order: the
/// value, the time to live, the directory flag, the effective existence
/// requirement, the refresh flag, and the validated compare conditions.
/// An empty condition set is rejected before any endpoint is contacted.
#[verifier::rlimit(50)]
pub fn set_params(options: &SetOptions) -> (r: Result<Vec<(String, String)>, Error>)
    ensures
        set_conditions_invalid(*options) <==> r == Err::<Vec<(String, String)>, Error>(
            Error::InvalidConditions,
        ),
        !set_conditions_invalid(*options) ==> r is Ok,
        r matches Ok(v) ==> pairs_view(v@) == set_params_view(*options),
{
    let mut params: Vec<(String, String)> = Vec::new();
    match &options.value {
        Some(v) => params.push((String::from_str("value"), v.clone())),
        None => (),
    }
    proof {
        assert(pairs_view(params@) =~~= value_part(*options));
    }
    let ghost done = value_part(*options);
    match options.ttl {
        Some(t) => params.push((String::from_str("ttl"), u64_to_dec(t))),
        None => (),
    }
    proof {
        assert(pairs_view(params@) =~~= done + ttl_part(*options));
    }
    let ghost done = done + ttl_part(*options);
    match options.dir {
        Some(d) => params.push((String::from_str("dir"), bool_string(d))),
        None => (),
    }
    proof {
        assert(pairs_view(params@) =~~= done + dir_part(*options));
    }
    let ghost done = done + dir_part(*options);
    let prev_exist = match options.prev_exist {
        Some(p) => Some(p),
        None => if options.refresh {
            Some(true)
        } else {
            None
        },
    };
    match prev_exist {
        Some(p) => params.push((String::from_str("prevExist"), bool_string(p))),
        None => (),
    }
    proof {
        assert(pairs_view(params@) =~~= done + prev_exist_part(*options));
    }
    let ghost done = done + prev_exist_part(*options);
    if options.refresh {
        params.push((String::from_str("refresh"), bool_string(true)));
    }
    proof {
        assert(pairs_view(params@) =~~= done + refresh_part(*options));
    }
    let ghost done = done + refresh_part(*options);
    match &options.conditions {
        Some(conditions) => {
            if conditions.is_empty() {
                return Err(Error::InvalidConditions);
            }
            match conditions.modified_index {
                Some(i) => params.push((String::from_str("prevIndex"), u64_to_dec(i))),
                None => (),
            }
            match &conditions.value {
                Some(v) => params.push((String::from_str("prevValue"), v.clone())),
                None => (),
            }
        }
        None => (),
    }
    proof {
        assert(pairs_view(params@) =~~= done + write_condition_part(*options));
        assert(pairs_view(params@) =~~= set_params_view(*options));
    }
    Ok(params)
}

/// Every parameter of a delete-family operation, in encoding order.
pub open spec fn delete_params_view(o: DeleteOptions) -> Seq<(Seq<char>, Seq<char>)> {
    (match o.recursive {
        Some(r) => seq![("recursive"@, bool_chars(r))],
        None => Seq::empty(),
    }) + (match o.dir {
        Some(d) => seq![("dir"@, bool_chars(d))],
        None => Seq::empty(),
    }) + (match o.conditions {
        Some(c) => condition_parts(c),
        None => Seq::empty(),
    })
}

/// True when the delete asks for conditions but supplies none.
pub open spec fn delete_conditions_invalid(o: DeleteOptions) -> bool {
    match o.conditions {
        Some(c) => c.spec_is_empty(),
        None => false,
    }
}

/// Encodes the parameters of a delete-family operation, in order: the
/// recursive flag, the directory flag, and the validated compare
/// conditions. An empty condition set is rejected before any endpoint is
/// contacted.
pub fn delete_params(options: &DeleteOptions) -> (r: Result<Vec<(String, String)>, Error>)
    ensures
        delete_conditions_invalid(*options) <==> r == Err::<Vec<(String, String)>, Error>(
            Error::InvalidConditions,
        ),
        !delete_conditions_invalid(*options) ==> r is Ok,
        r matches Ok(v) ==> pairs_view(v@) == delete_params_view(*options),
{
    let mut params: Vec<(String, String)> = Vec::new();
    match options.recursive {
        Some(rec) => params.push((String::from_str("recursive"), bool_string(rec))),
        None => (),
    }
    match options.dir {
        Some(d) => params.push((String::from_str("dir"), bool_string(d))),
        None => (),
    }
    let ghost done = (match options.recursive {
        Some(rec) => seq![("recursive"@, bool_chars(rec))],
        None => Seq::empty(),
    }) + (match options.dir {
        Some(d) => seq![("dir"@, bool_chars(d))],
        None => Seq::empty(),
    });
    proof {
        assert(pairs_view(params@) =~~= done);
    }
    match &options.conditions {
        Some(conditions) => {
            if conditions.is_empty() {
                return Err(Error::InvalidConditions);
            }
            match conditions.modified_index {
                Some(i) => params.push((String::from_str("prevIndex"), u64_to_dec(i))),
                None => (),
            }
            match &conditions.value {
                Some(v) => params.push((String::from_str("prevValue"), v.clone())),
                None => (),
            }
        }
        None => (),
    }
    proof {
        assert(pairs_view(params@) =~~= delete_params_view(*options));
    }
    Ok(params)
}

/// Every parameter of a read-family operation, in encoding order.
pub open spec fn get_params_view(o: InternalGetOptions) -> Seq<(Seq<char>, Seq<char>)> {
    seq![("recursive"@, bool_chars(o.recursive))] + (match o.sort {
        Some(s) => seq![("sorted"@, bool_chars(s))],
        None => Seq::empty(),
    }) + (if o.wait {
        seq![("wait"@, "true"@)]
    } else {
        Seq::empty()
    }) + (match o.wait_index {
        Some(i) => seq![("waitIndex"@, dec_str(i as nat))],
        None => Seq::empty(),
    })
}

/// Encodes the parameters of a read-family operation, in order: the
/// recursive flag always, the sort flag, the long-poll flag, and the
/// long-poll start index.
pub fn get_params(options: &InternalGetOptions) -> (r: Vec<(String, String)>)
    ensures
        pairs_view(r@) == get_params_view(*options),
{
    let mut params: Vec<(String, String)> = Vec::new();
    params.push((String::from_str("recursive"), bool_string(options.recursive)));
    match options.sort {
        Some(s) => params.push((String::from_str("sorted"), bool_string(s))),
        None => (),
    }
    if options.wait {
        params.push((String::from_str("wait"), bool_string(true)));
    }
    match options.wait_index {
        Some(i) => params.push((String::from_str("waitIndex"), u64_to_dec(i))),
        None => (),
    }
    proof {
        assert(pairs_view(params@) =~~= get_params_view(*options));
    }
    params
}

/// What the form-urlencoded encoding of a parameter list is; the encoding
/// depends on the names and values alone.
pub uninterp spec fn form_encoded_of(pairs: Seq<(Seq<char>, Seq<char>)>) -> Seq<char>;

/// Relies on `url::form_urlencoded::Serializer`: appending the pairs in
/// order and finishing yields the encoding of exactly those pairs, and
/// finishing with no pairs appended leaves the empty target string empty.
#[verifier::external_body]
fn form_encode(pairs: &Vec<(String, String)>) -> (r: String)
    ensures
        r@ == form_encoded_of(pairs_view(pairs@)),
        pairs@.len() == 0 ==> r@.len() == 0,
{
    let mut serializer = url::form_urlencoded::Serializer::new(String::new());
    serializer.extend_pairs(pairs);
    serializer.finish()
}

/// The URL of the key-value resource for `key` on one endpoint.
pub fn kv_url(endpoint: &str, key: &str) -> (r: String)
    ensures
        r@ == endpoint@ + "v2/keys"@ + key@,
{
    let base = build_url(endpoint, "v2/keys");
    build_url(base.as_str(), key)
}

/// The `ttl` parameter, when a time to live is supplied.
pub open spec fn ttl_seq(ttl: Option<u64>) -> Seq<(Seq<char>, Seq<char>)> {
    match ttl {
        Some(t) => seq![("ttl"@, dec_str(t as nat))],
        None => Seq::empty(),
    }
}

/// The compare parameters of a conditional operation: the prior
/// modification index and/or the prior value.
pub open spec fn compare_parts(index: Option<u64>, value: Option<&str>) -> Seq<
    (Seq<char>, Seq<char>),
> {
    (match index {
        Some(i) => seq![("prevIndex"@, dec_str(i as nat))],
        None => Seq::empty(),
    }) + (match value {
        Some(v) => seq![("prevValue"@, v@)],
        None => Seq::empty(),
    })
}

/// Builds the request of a write-family operation: the already-validated
/// and encoded parameters as the body, sent with PUT, or with POST for an
/// in-order creation.
fn write_request(key: &str, options: SetOptions) -> (r: Result<KvRequest, Error>)
    ensures
        set_conditions_invalid(options) <==> r == Err::<KvRequest, Error>(
            Error::InvalidConditions,
        ),
        !set_conditions_invalid(options) ==> r is Ok,
        r matches Ok(req) ==> req.method == (if options.create_in_order {
            HttpMethod::Post
        } else {
            HttpMethod::Put
        }) && req.key@ == key@ && req.query@.len() == 0 && req.body@ == form_encoded_of(
            set_params_view(options),
        ),
{
    match set_params(&options) {
        Ok(params) => {
            let body = form_encode(&params);
            let method = if options.create_in_order {
                HttpMethod::Post
            } else {
                HttpMethod::Put
            };
            Ok(KvRequest { method, key: key.to_owned(), query: Vec::new(), body })
        }
        Err(e) => Err(e),
    }
}

/// Builds the request of a delete-family operation: the already-validated
/// parameters as the query string of a DELETE.
fn delete_request(key: &str, options: DeleteOptions) -> (r: Result<KvRequest, Error>)
    ensures
        delete_conditions_invalid(options) <==> r == Err::<KvRequest, Error>(
            Error::InvalidConditions,
        ),
        !delete_conditions_invalid(options) ==> r is Ok,
        r matches Ok(req) ==> req.method == HttpMethod::Delete && req.key@ == key@ && pairs_view(
            req.query@,
        ) == delete_params_view(options) && req.body@.len() == 0,
{
    match delete_params(&options) {
        Ok(query) => Ok(
            KvRequest { method: HttpMethod::Delete, key: key.to_owned(), query, body: String::new() },
        ),
        Err(e) => Err(e),
    }
}

/// Builds the request of a read-family operation: the parameters as the
/// query string of a GET.
fn get_request(key: &str, options: InternalGetOptions) -> (r: KvRequest)
    ensures
        r.method == HttpMethod::Get,
        r.key@ == key@,
        pairs_view(r.query@) == get_params_view(options),
        r.body@.len() == 0,
{
    let query = get_params(&options);
    KvRequest { method: HttpMethod::Get, key: key.to_owned(), query, body: String::new() }
}

/// Sets the value of a key-value pair, replacing any previous value and
/// time to live.
///
/// Fails on the server if the node is a directory.
pub fn set(key: &str, value: &str, ttl: Option<u64>) -> (r: KvRequest)
    ensures
        r.method == HttpMethod::Put,
        r.key@ == key@,
        r.query@.len() == 0,
        r.body@ == form_encoded_of(seq![("value"@, value@)] + ttl_seq(ttl)),
{
    let options = SetOptions {
        conditions: None,
        create_in_order: false,
        dir: None,
        prev_exist: None,
        refresh: false,
        ttl,
        value: Some(value.to_owned()),
    };
    proof {
        assert(set_params_view(options) =~~= seq![("value"@, value@)] + ttl_seq(ttl));
    }
    match write_request(key, options) {
        Ok(req) => req,
        Err(_) => {
            proof {
                assert(false);
            }
            KvRequest {
                method: HttpMethod::Put,
                key: String::new(),
                query: Vec::new(),
                body: String::new(),
            }
        }
    }
}

/// Creates a new key-value pair.
///
/// Fails on the server if the key already exists.
pub fn create(key: &str, value: &str, ttl: Option<u64>) -> (r: KvRequest)
    ensures
        r.method == HttpMethod::Put,
        r.key@ == key@,
        r.query@.len() == 0,
        r.body@ == form_encoded_of(
            seq![("value"@, value@)] + ttl_seq(ttl) + seq![("prevExist"@, "false"@)],
        ),
{
    let options = SetOptions {
        conditions: None,
        create_in_order: false,
        dir: None,
        prev_exist: Some(false),
        refresh: false,
        ttl,
        value: Some(value.to_owned()),
    };
    proof {
        assert(set_params_view(options) =~~= seq![("value"@, value@)] + ttl_seq(ttl) + seq![
            ("prevExist"@, "false"@),
        ]);
    }
    match write_request(key, options) {
        Ok(req) => req,
        Err(_) => {
            proof {
                assert(false);
            }
            KvRequest {
                method: HttpMethod::Put,
                key: String::new(),
                query: Vec::new(),
                body: String::new(),
            }
        }
    }
}

/// Creates a new empty directory.
///
/// Fails on the server if the key already exists.
pub fn create_dir(key: &str, ttl: Option<u64>) -> (r: KvRequest)
    ensures
        r.method == HttpMethod::Put,
        r.key@ == key@,
        r.query@.len() == 0,
        r.body@ == form_encoded_of(
            ttl_seq(ttl) + seq![("dir"@, "true"@)] + seq![("prevExist"@, "false"@)],
        ),
{
    let options = SetOptions {
        conditions: None,
        create_in_order: false,
        dir: Some(true),
        prev_exist: Some(false),
        refresh: false,
        ttl,
        value: None,
    };
    proof {
        assert(set_params_view(options) =~~= ttl_seq(ttl) + seq![("dir"@, "true"@)] + seq![
            ("prevExist"@, "false"@),
        ]);
    }
    match write_request(key, options) {
        Ok(req) => req,
        Err(_) => {
            proof {
                assert(false);
            }
            KvRequest {
                method: HttpMethod::Put,
                key: String::new(),
                query: Vec::new(),
                body: String::new(),
            }
        }
    }
}

/// Creates a new key-value pair in a directory with a numeric key name
/// larger than any of its sibling key-value pairs; the server generates
/// the name. Routed through POST rather than PUT; the conditional
/// semantics are unchanged.
///
/// Fails on the server if the key already exists and is not a directory.
pub fn create_in_order(key: &str, value: &str, ttl: Option<u64>) -> (r: KvRequest)
    ensures
        r.method == HttpMethod::Post,
        r.key@ == key@,
        r.query@.len() == 0,
        r.body@ == form_encoded_of(seq![("value"@, value@)] + ttl_seq(ttl)),
{
    let options = SetOptions {
        conditions: None,
        create_in_order: true,
        dir: None,
        prev_exist: None,
        refresh: false,
        ttl,
        value: Some(value.to_owned()),
    };
    proof {
        assert(set_params_view(options) =~~= seq![("value"@, value@)] + ttl_seq(ttl));
    }
    match write_request(key, options) {
        Ok(req) => req,
        Err(_) => {
            proof {
                assert(false);
            }
            KvRequest {
                method: HttpMethod::Post,
                key: String::new(),
                query: Vec::new(),
                body: String::new(),
            }
        }
    }
}

/// Updates an existing key-value pair.
///
/// Fails on the server if the key does not exist.
pub fn update(key: &str, value: &str, ttl: Option<u64>) -> (r: KvRequest)
    ensures
        r.method == HttpMethod::Put,
        r.key@ == key@,
        r.query@.len() == 0,
        r.body@ == form_encoded_of(
            seq![("value"@, value@)] + ttl_seq(ttl) + seq![("prevExist"@, "true"@)],
        ),
{
    let options = SetOptions {
        conditions: None,
        create_in_order: false,
        dir: None,
        prev_exist: Some(true),
        refresh: false,
        ttl,
        value: Some(value.to_owned()),
    };
    proof {
        assert(set_params_view(options) =~~= seq![("value"@, value@)] + ttl_seq(ttl) + seq![
            ("prevExist"@, "true"@),
        ]);
    }
    match write_request(key, options) {
        Ok(req) => req,
        Err(_) => {
            proof {
                assert(false);
            }
            KvRequest {
                method: HttpMethod::Put,
                key: String::new(),
                query: Vec::new(),
                body: String::new(),
            }
        }
    }
}

/// Sets the key to an empty directory. An existing key-value pair will be
/// replaced, but an existing directory will not.
pub fn set_dir(key: &str, ttl: Option<u64>) -> (r: KvRequest)
    ensures
        r.method == HttpMethod::Put,
        r.key@ == key@,
        r.query@.len() == 0,
        r.body@ == form_encoded_of(ttl_seq(ttl) + seq![("dir"@, "true"@)]),
{
    let options = SetOptions {
        conditions: None,
        create_in_order: false,
        dir: Some(true),
        prev_exist: None,
        refresh: false,
        ttl,
        value: None,
    };
    proof {
        assert(set_params_view(options) =~~= ttl_seq(ttl) + seq![("dir"@, "true"@)]);
    }
    match write_request(key, options) {
        Ok(req) => req,
        Err(_) => {
            proof {
                assert(false);
            }
            KvRequest {
                method: HttpMethod::Put,
                key: String::new(),
                query: Vec::new(),
                body: String::new(),
            }
        }
    }
}

/// Updates a directory: an existing directory keeps only its new time to
/// live; an existing key-value pair loses its value as well.
///
/// Fails on the server if the node does not exist.
pub fn update_dir(key: &str, ttl: Option<u64>) -> (r: KvRequest)
    ensures
        r.method == HttpMethod::Put,
        r.key@ == key@,
        r.query@.len() == 0,
        r.body@ == form_encoded_of(
            ttl_seq(ttl) + seq![("dir"@, "true"@)] + seq![("prevExist"@, "true"@)],
        ),
{
    let options = SetOptions {
        conditions: None,
        create_in_order: false,
        dir: Some(true),
        prev_exist: Some(true),
        refresh: false,
        ttl,
        value: None,
    };
    proof {
        assert(set_params_view(options) =~~= ttl_seq(ttl) + seq![("dir"@, "true"@)] + seq![
            ("prevExist"@, "true"@),
        ]);
    }
    match write_request(key, options) {
        Ok(req) => req,
        Err(_) => {
            proof {
                assert(false);
            }
            KvRequest {
                method: HttpMethod::Put,
                key: String::new(),
                query: Vec::new(),
                body: String::new(),
            }
        }
    }
}

/// Refreshes an already-set key, bumping its time to live without
/// changing its value and without notifying watchers. The refresh implies
/// the node must already exist.
///
/// Fails locally, before any endpoint is contacted, if conditions are
/// supplied but both condition fields are absent; fails on the server if
/// the node does not exist.
pub fn refresh(key: &str, ttl: u64, conditions: Option<ComparisonConditions>) -> (r: Result<
    KvRequest,
    Error,
>)
    ensures
        (conditions matches Some(c) && c.spec_is_empty()) <==> r == Err::<KvRequest, Error>(
            Error::InvalidConditions,
        ),
        !(conditions matches Some(c) && c.spec_is_empty()) ==> r is Ok,
        r matches Ok(req) ==> req.method == HttpMethod::Put && req.key@ == key@ && req.query@.len()
            == 0 && req.body@ == form_encoded_of(
            seq![("ttl"@, dec_str(ttl as nat))] + seq![("prevExist"@, "true"@)] + seq![
                ("refresh"@, "true"@),
            ] + (match conditions {
                Some(c) => condition_parts(c),
                None => Seq::empty(),
            }),
        ),
{
    let ghost given_conditions = conditions;
    let options = SetOptions {
        conditions,
        create_in_order: false,
        dir: None,
        prev_exist: Some(true),
        refresh: true,
        ttl: Some(ttl),
        value: None,
    };
    proof {
        assert(set_params_view(options) =~~= seq![("ttl"@, dec_str(ttl as nat))] + seq![
            ("prevExist"@, "true"@),
        ] + seq![("refresh"@, "true"@)] + (match given_conditions {
            Some(c) => condition_parts(c),
            None => Seq::<(Seq<char>, Seq<char>)>::empty(),
        }));
    }
    write_request(key, options)
}

/// Updates a node only if the given current value and/or current
/// modification index match.
///
/// Fails locally, before any endpoint is contacted, if neither condition
/// is given; fails on the server if the conditions did not match.
pub fn compare_and_swap(
    key: &str,
    value: &str,
    ttl: Option<u64>,
    current_value: Option<&str>,
    current_modified_index: Option<u64>,
) -> (r: Result<KvRequest, Error>)
    ensures
        (current_value is None && current_modified_index is None) <==> r == Err::<
            KvRequest,
            Error,
        >(Error::InvalidConditions),
        !(current_value is None && current_modified_index is None) ==> r is Ok,
        r matches Ok(req) ==> req.method == HttpMethod::Put && req.key@ == key@ && req.query@.len()
            == 0 && req.body@ == form_encoded_of(
            seq![("value"@, value@)] + ttl_seq(ttl) + compare_parts(
                current_modified_index,
                current_value,
            ),
        ),
{
    let owned_value = match current_value {
        Some(v) => Some(v.to_owned()),
        None => None,
    };
    let options = SetOptions {
        conditions: Some(
            ComparisonConditions { value: owned_value, modified_index: current_modified_index },
        ),
        create_in_order: false,
        dir: None,
        prev_exist: None,
        refresh: false,
        ttl,
        value: Some(value.to_owned()),
    };
    proof {
        assert(set_params_view(options) =~~= seq![("value"@, value@)] + ttl_seq(ttl)
            + compare_parts(current_modified_index, current_value));
    }
    write_request(key, options)
}

/// Deletes a node only if the given current value and/or current
/// modification index match.
///
/// Fails locally, before any endpoint is contacted, if neither condition
/// is given; fails on the server if the conditions did not match.
pub fn compare_and_delete(
    key: &str,
    current_value: Option<&str>,
    current_modified_index: Option<u64>,
) -> (r: Result<KvRequest, Error>)
    ensures
        (current_value is None && current_modified_index is None) <==> r == Err::<
            KvRequest,
            Error,
        >(Error::InvalidConditions),
        !(current_value is None && current_modified_index is None) ==> r is Ok,
        r matches Ok(req) ==> req.method == HttpMethod::Delete && req.key@ == key@ && pairs_view(
            req.query@,
        ) == compare_parts(current_modified_index, current_value) && req.body@.len() == 0,
{
    let owned_value = match current_value {
        Some(v) => Some(v.to_owned()),
        None => None,
    };
    let options = DeleteOptions {
        conditions: Some(
            ComparisonConditions { value: owned_value, modified_index: current_modified_index },
        ),
        dir: None,
        recursive: None,
    };
    proof {
        assert(delete_params_view(options) =~~= compare_parts(
            current_modified_index,
            current_value,
        ));
    }
    delete_request(key, options)
}

/// Deletes a node. If the key is a directory, `recursive` must be true to
/// delete it and everything under it.
pub fn delete(key: &str, recursive: bool) -> (r: KvRequest)
    ensures
        r.method == HttpMethod::Delete,
        r.key@ == key@,
        pairs_view(r.query@) == seq![("recursive"@, bool_chars(recursive))],
        r.body@.len() == 0,
{
    let options = DeleteOptions { conditions: None, dir: None, recursive: Some(recursive) };
    proof {
        assert(delete_params_view(options) =~~= seq![("recursive"@, bool_chars(recursive))]);
    }
    match delete_request(key, options) {
        Ok(req) => req,
        Err(_) => {
            proof {
                assert(false);
            }
            KvRequest {
                method: HttpMethod::Delete,
                key: String::new(),
                query: Vec::new(),
                body: String::new(),
            }
        }
    }
}

/// Deletes an empty directory or a key-value pair.
///
/// Fails on the server if the directory is not empty.
pub fn delete_dir(key: &str) -> (r: KvRequest)
    ensures
        r.method == HttpMethod::Delete,
        r.key@ == key@,
        pairs_view(r.query@) == seq![("dir"@, "true"@)],
        r.body@.len() == 0,
{
    let options = DeleteOptions { conditions: None, dir: Some(true), recursive: None };
    proof {
        assert(delete_params_view(options) =~~= seq![("dir"@, "true"@)]);
    }
    match delete_request(key, options) {
        Ok(req) => req,
        Err(_) => {
            proof {
                assert(false);
            }
            KvRequest {
                method: HttpMethod::Delete,
                key: String::new(),
                query: Vec::new(),
                body: String::new(),
            }
        }
    }
}

/// Gets the value of a node.
///
/// Fails on the server if the key does not exist.
pub fn get(key: &str, options: GetOptions) -> (r: KvRequest)
    ensures
        r.method == HttpMethod::Get,
        r.key@ == key@,
        pairs_view(r.query@) == seq![
            ("recursive"@, bool_chars(options.recursive)),
            ("sorted"@, bool_chars(options.sort)),
        ],
        r.body@.len() == 0,
{
    let internal = InternalGetOptions {
        recursive: options.recursive,
        sort: Some(options.sort),
        strong_consistency: options.strong_consistency,
        wait: false,
        wait_index: None,
    };
    proof {
        assert(get_params_view(internal) =~~= seq![
            ("recursive"@, bool_chars(options.recursive)),
            ("sorted"@, bool_chars(options.sort)),
        ]);
    }
    get_request(key, internal)
}

/// Builds the long-poll read of a watch: the request is held open by the
/// server until the node changes, optionally starting from a given store
/// index and optionally covering all child keys.
pub fn watch_request(key: &str, options: &WatchOptions) -> (r: KvRequest)
    ensures
        r.method == HttpMethod::Get,
        r.key@ == key@,
        pairs_view(r.query@) == seq![("recursive"@, bool_chars(options.recursive))] + seq![
            ("wait"@, "true"@),
        ] + (match options.index {
            Some(i) => seq![("waitIndex"@, dec_str(i as nat))],
            None => Seq::<(Seq<char>, Seq<char>)>::empty(),
        }),
        r.body@.len() == 0,
{
    let internal = InternalGetOptions {
        recursive: options.recursive,
        sort: None,
        strong_consistency: false,
        wait: true,
        wait_index: options.index,
    };
    proof {
        assert(get_params_view(internal) =~~= seq![("recursive"@, bool_chars(options.recursive))]
            + seq![("wait"@, "true"@)] + (match options.index {
            Some(i) => seq![("waitIndex"@, dec_str(i as nat))],
            None => Seq::<(Seq<char>, Seq<char>)>::empty(),
        }));
    }
    get_request(key, internal)
}

/// Interprets one completed HTTP exchange of a write: status 200 or 201
/// means success and the body must carry the expected payload; any other
/// status is an application error whose body must carry the structured
/// error. A body that decoded as neither is a serialization error.
pub fn write_outcome<T>(status: u16, body: DecodedBody<T>, cluster_info: ClusterInfo) -> (r: Result<
    Response<T>,
    Error,
>)
    ensures
        (status == 200 || status == 201) ==> (body matches DecodedBody::Value(d) ==> (r matches Ok(
            resp,
        ) && resp.data == d && resp.cluster_info == cluster_info)),
        (status == 200 || status == 201) && !(body is Value) ==> r == Err::<Response<T>, Error>(
            Error::Serialization,
        ),
        !(status == 200 || status == 201) ==> (body matches DecodedBody::ErrorValue(e) ==> r
            == Err::<Response<T>, Error>(Error::Api(e))),
        !(status == 200 || status == 201) && !(body is ErrorValue) ==> r == Err::<
            Response<T>,
            Error,
        >(Error::Serialization),
{
    if status == 200 || status == 201 {
        match body {
            DecodedBody::Value(data) => Ok(Response { data, cluster_info }),
            _ => Err(Error::Serialization),
        }
    } else {
        match body {
            DecodedBody::ErrorValue(e) => Err(Error::Api(e)),
            _ => Err(Error::Serialization),
        }
    }
}

/// The state of one watch: still racing, or in exactly one of the three
/// mutually-exclusive terminal states.
#[derive(Clone, Debug, Eq, Hash, PartialEq)]
pub enum WatchState<T> {
    /// The long poll, and the timer if one is armed, are still
    /// outstanding.
    Waiting,
    /// The long poll resolved with a response before any timeout.
    Resolved(T),
    /// The client-side timer fired first.
    TimedOut,
    /// Every endpoint failed before any timeout: one error per attempted
    /// endpoint, in attempt order.
    Failed(Vec<Error>),
}

/// Races a watch's long poll against an optional one-shot timer. The
/// first event to arrive decides the terminal state; a later event is
/// discarded and never reaches the caller. Without a timer armed, only
/// the long poll's outcome can end the watch, so it stays pending until
/// an endpoint responds or every endpoint fails.
pub struct WatchRace<T> {
    timer_armed: bool,
    state: WatchState<T>,
}

impl<T> WatchRace<T> {
    /// Whether a timer was armed for this watch.
    pub closed spec fn spec_timer_armed(&self) -> bool {
        self.timer_armed
    }

    /// The current state of the race.
    pub closed spec fn spec_state(&self) -> WatchState<T> {
        self.state
    }

    /// True once the race has reached a terminal state, which is then
    /// final.
    pub open spec fn is_terminal(&self) -> bool {
        !(self.spec_state() is Waiting)
    }

    /// Starts the race; `timer_armed` records whether a client-side
    /// timeout was requested.
    pub fn begin(timer_armed: bool) -> (r: Self)
        ensures
            r.spec_state() == WatchState::<T>::Waiting,
            r.spec_timer_armed() == timer_armed,
    {
        WatchRace { timer_armed, state: WatchState::Waiting }
    }

    /// Reports the failover outcome of the long poll. If the race is
    /// still pending this decides it: a response resolves the watch, the
    /// failure of every endpoint fails it. If the race was already
    /// decided, the outcome arrived late and is discarded.
    pub fn on_outcome(&mut self, outcome: Result<T, Vec<Error>>)
        ensures
            final(self).spec_timer_armed() == old(self).spec_timer_armed(),
            old(self).spec_state() is Waiting ==> final(self).spec_state() == (match outcome {
                Ok(v) => WatchState::Resolved(v),
                Err(es) => WatchState::<T>::Failed(es),
            }),
            old(self).is_terminal() ==> final(self).spec_state() == old(self).spec_state(),
    {
        let waiting = match &self.state {
            WatchState::Waiting => true,
            _ => false,
        };
        if waiting {
            self.state = match outcome {
                Ok(v) => WatchState::Resolved(v),
                Err(es) => WatchState::Failed(es),
            };
        }
    }

    /// Reports that the armed timer fired. If the race is still pending
    /// this decides it: the watch timed out, a kind distinct from every
    /// transport or application error. If the race was already decided,
    /// the timer lost and is ignored. Without an armed timer this event
    /// cannot occur.
    pub fn on_timeout(&mut self)
        requires
            old(self).spec_timer_armed(),
        ensures
            final(self).spec_timer_armed() == old(self).spec_timer_armed(),
            old(self).spec_state() is Waiting ==> final(self).spec_state()
                == WatchState::<T>::TimedOut,
            old(self).is_terminal() ==> final(self).spec_state() == old(self).spec_state(),
    {
        let waiting = match &self.state {
            WatchState::Waiting => true,
            _ => false,
        };
        if waiting {
            self.state = WatchState::TimedOut;
        }
    }

    /// True once the race has been decided.
    pub fn is_decided(&self) -> (r: bool)
        ensures
            r == self.is_terminal(),
    {
        match &self.state {
            WatchState::Waiting => false,
            _ => true,
        }
    }

    /// The single terminal outcome of the watch.
    pub fn into_result(self) -> (r: Result<T, WatchError>)
        requires
            self.is_terminal(),
        ensures
            self.spec_state() matches WatchState::Resolved(v) ==> r == Ok::<T, WatchError>(v),
            self.spec_state() is TimedOut ==> r == Err::<T, WatchError>(WatchError::Timeout),
            self.spec_state() matches WatchState::Failed(es) ==> r == Err::<T, WatchError>(
                WatchError::Other(es),
            ),
    {
        match self.state {
            WatchState::Waiting => {
                proof {
                    assert(false);
                }
                Err(WatchError::Timeout)
            }
            WatchState::Resolved(v) => Ok(v),
            WatchState::TimedOut => Err(WatchError::Timeout),
            WatchState::Failed(es) => Err(WatchError::Other(es)),
        }
    }
}

} // verus!
