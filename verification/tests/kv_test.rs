use etcd::Error;
use etcd::kv;
use etcd::kv::HttpMethod;
use etcd::options::ComparisonConditions;

fn query_strings(req: &kv::KvRequest) -> Vec<(String, String)> {
    req.query.clone()
}

#[test]
fn set_encodes_value_and_ttl() {
    let req = kv::set("/test/foo", "bar", Some(60));
    assert_eq!(req.method, HttpMethod::Put);
    assert_eq!(req.key, "/test/foo");
    assert!(req.query.is_empty());
    assert_eq!(req.body, "value=bar&ttl=60");
}

#[test]
fn set_without_ttl_encodes_value_alone() {
    let req = kv::set("/test/foo", "baz", None);
    assert_eq!(req.body, "value=baz");
}

#[test]
fn set_percent_encodes_reserved_characters() {
    let req = kv::set("/test/foo", "bar & baz", None);
    assert_eq!(req.body, "value=bar+%26+baz");
}

#[test]
fn create_requires_absent_key() {
    let req = kv::create("/test/foo", "bar", Some(60));
    assert_eq!(req.method, HttpMethod::Put);
    assert_eq!(req.body, "value=bar&ttl=60&prevExist=false");
}

#[test]
fn create_dir_encodes_directory_flag() {
    let req = kv::create_dir("/test/dir", None);
    assert_eq!(req.body, "dir=true&prevExist=false");
}

#[test]
fn create_in_order_uses_post() {
    let req = kv::create_in_order("/test/foo", "bar", None);
    assert_eq!(req.method, HttpMethod::Post);
    assert_eq!(req.body, "value=bar");
}

#[test]
fn update_requires_existing_key() {
    let req = kv::update("/test/foo", "blah", Some(30));
    assert_eq!(req.body, "value=blah&ttl=30&prevExist=true");
}

#[test]
fn set_dir_encodes_directory_flag_alone() {
    let req = kv::set_dir("/test", None);
    assert_eq!(req.body, "dir=true");
    let with_ttl = kv::set_dir("/test", Some(5));
    assert_eq!(with_ttl.body, "ttl=5&dir=true");
}

#[test]
fn update_dir_requires_existing_node() {
    let req = kv::update_dir("/test", Some(60));
    assert_eq!(req.body, "ttl=60&dir=true&prevExist=true");
}

#[test]
fn refresh_implies_existence_requirement() {
    let req = kv::refresh("/test/foo", 30, None).unwrap();
    assert_eq!(req.method, HttpMethod::Put);
    assert_eq!(req.body, "ttl=30&prevExist=true&refresh=true");
}

#[test]
fn refresh_rejects_an_empty_condition_set() {
    let conditions = ComparisonConditions { value: None, modified_index: None };
    let result = kv::refresh("/test/foo", 30, Some(conditions));
    assert_eq!(result, Err(Error::InvalidConditions));
}

#[test]
fn refresh_encodes_populated_conditions() {
    let conditions = ComparisonConditions {
        value: Some("bar".to_string()),
        modified_index: None,
    };
    let req = kv::refresh("/test/foo", 30, Some(conditions)).unwrap();
    assert_eq!(req.body, "ttl=30&prevExist=true&refresh=true&prevValue=bar");
}

#[test]
fn delete_encodes_recursive_flag() {
    let req = kv::delete("/test/foo", true);
    assert_eq!(req.method, HttpMethod::Delete);
    assert_eq!(req.key, "/test/foo");
    assert!(req.body.is_empty());
    assert_eq!(
        query_strings(&req),
        vec![("recursive".to_string(), "true".to_string())]
    );
}

#[test]
fn delete_dir_encodes_directory_flag() {
    let req = kv::delete_dir("/test/dir");
    assert_eq!(
        query_strings(&req),
        vec![("dir".to_string(), "true".to_string())]
    );
}

#[test]
fn get_encodes_recursive_and_sort() {
    let options = kv::GetOptions { recursive: false, sort: true, strong_consistency: false };
    let req = kv::get("/test/foo", options);
    assert_eq!(req.method, HttpMethod::Get);
    assert_eq!(
        query_strings(&req),
        vec![
            ("recursive".to_string(), "false".to_string()),
            ("sorted".to_string(), "true".to_string()),
        ]
    );
}

#[test]
fn watch_request_is_a_long_poll() {
    let options = kv::WatchOptions { index: Some(7), recursive: false, timeout: None };
    let req = kv::watch_request("/test/foo", &options);
    assert_eq!(req.method, HttpMethod::Get);
    assert_eq!(
        query_strings(&req),
        vec![
            ("recursive".to_string(), "false".to_string()),
            ("wait".to_string(), "true".to_string()),
            ("waitIndex".to_string(), "7".to_string()),
        ]
    );
}

#[test]
fn watch_request_without_index_omits_the_parameter() {
    let options = kv::WatchOptions { index: None, recursive: true, timeout: Some(1) };
    let req = kv::watch_request("/test", &options);
    assert_eq!(
        query_strings(&req),
        vec![
            ("recursive".to_string(), "true".to_string()),
            ("wait".to_string(), "true".to_string()),
        ]
    );
}

#[test]
fn write_success_accepts_ok_and_created() {
    let info = etcd::ClusterInfo {
        cluster_id: None,
        etcd_index: Some(1),
        raft_index: None,
        raft_term: None,
    };
    let r: Result<etcd::Response<u32>, Error> =
        kv::write_outcome(201, etcd::client::DecodedBody::Value(4), info.clone());
    assert_eq!(r.unwrap().data, 4);
    let r: Result<etcd::Response<u32>, Error> =
        kv::write_outcome(200, etcd::client::DecodedBody::Value(5), info.clone());
    assert_eq!(r.unwrap().data, 5);
    let r: Result<etcd::Response<u32>, Error> =
        kv::write_outcome(200, etcd::client::DecodedBody::Malformed, info.clone());
    assert!(matches!(r, Err(Error::Serialization)));
}

#[test]
fn write_failure_surfaces_the_structured_error() {
    let info = etcd::ClusterInfo {
        cluster_id: None,
        etcd_index: None,
        raft_index: None,
        raft_term: None,
    };
    let api = etcd::ApiError {
        cause: Some("/test/foo".to_string()),
        error_code: 105,
        index: 3,
        message: "Key already exists".to_string(),
    };
    let r: Result<etcd::Response<u32>, Error> =
        kv::write_outcome(412, etcd::client::DecodedBody::ErrorValue(api.clone()), info.clone());
    assert_eq!(r, Err(Error::Api(api)));
    let r: Result<etcd::Response<u32>, Error> =
        kv::write_outcome(412, etcd::client::DecodedBody::Malformed, info);
    assert!(matches!(r, Err(Error::Serialization)));
}

#[test]
fn kv_url_appends_the_resource_root_and_key() {
    let url = kv::kv_url("http://etcd:2379/", "/test/foo");
    assert_eq!(url, "http://etcd:2379/v2/keys/test/foo");
}
