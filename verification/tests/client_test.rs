use etcd::ApiError;
use etcd::ClusterInfo;
use etcd::Error;
use etcd::Response;
use etcd::client::DecodedBody;
use etcd::client::Endpoints;
use etcd::client::ResponseHeaders;
use etcd::client::build_url;
use etcd::client::health_url;
use etcd::client::request_outcome;
use etcd::client::version_url;
use etcd::base64::base64_encode;
use etcd::decimal::parse_u64;
use etcd::decimal::u64_to_dec;

fn no_headers() -> ResponseHeaders {
    ResponseHeaders { cluster_id: None, etcd_index: None, raft_index: None, raft_term: None }
}

#[test]
fn cluster_info_fields_are_independently_best_effort() {
    let headers = ResponseHeaders {
        cluster_id: None,
        etcd_index: Some(b"7".to_vec()),
        raft_index: None,
        raft_term: None,
    };
    let info = ClusterInfo::from_headers(&headers);
    assert_eq!(info.cluster_id, None);
    assert_eq!(info.etcd_index, Some(7));
    assert_eq!(info.raft_index, None);
    assert_eq!(info.raft_term, None);
}

#[test]
fn cluster_info_malformed_fields_do_not_blank_the_others() {
    let headers = ResponseHeaders {
        cluster_id: Some(vec![0xff, 0xfe]),
        etcd_index: Some(b"12x".to_vec()),
        raft_index: Some(b"88".to_vec()),
        raft_term: Some(b"+42".to_vec()),
    };
    let info = ClusterInfo::from_headers(&headers);
    assert_eq!(info.cluster_id, None);
    assert_eq!(info.etcd_index, None);
    assert_eq!(info.raft_index, Some(88));
    assert_eq!(info.raft_term, Some(42));
}

#[test]
fn cluster_info_reads_a_well_formed_cluster_id() {
    let headers = ResponseHeaders {
        cluster_id: Some(b"abc1234".to_vec()),
        ..no_headers()
    };
    let info = ClusterInfo::from_headers(&headers);
    assert_eq!(info.cluster_id, Some("abc1234".to_string()));
}

#[test]
fn numeric_headers_parse_like_decimal_numerals() {
    assert_eq!(parse_u64(b"0"), Some(0));
    assert_eq!(parse_u64(b"+123"), Some(123));
    assert_eq!(parse_u64(b""), None);
    assert_eq!(parse_u64(b"+"), None);
    assert_eq!(parse_u64(b"1 2"), None);
    assert_eq!(parse_u64(b"-1"), None);
    assert_eq!(parse_u64(b"18446744073709551615"), Some(u64::MAX));
    assert_eq!(parse_u64(b"18446744073709551616"), None);
    assert_eq!(parse_u64(b"99999999999999999999999"), None);
}

#[test]
fn decimal_rendering_is_canonical() {
    assert_eq!(u64_to_dec(0), "0");
    assert_eq!(u64_to_dec(7), "7");
    assert_eq!(u64_to_dec(1234567890), "1234567890");
    assert_eq!(u64_to_dec(u64::MAX), "18446744073709551615");
}

#[test]
fn endpoints_must_not_be_empty() {
    let result = Endpoints::new(vec![]);
    assert!(matches!(result, Err(Error::NoEndpoints)));
}

#[test]
fn endpoints_must_parse_as_uris() {
    let result = Endpoints::new(vec![
        "http://etcd:2379/".to_string(),
        "http://bad host/".to_string(),
    ]);
    assert!(matches!(result, Err(Error::InvalidUri)));
}

#[test]
fn endpoints_keep_failover_order() {
    let endpoints = Endpoints::new(vec![
        "http://a:2379/".to_string(),
        "http://b:2379/".to_string(),
    ])
    .unwrap();
    assert_eq!(endpoints.len(), 2);
    assert_eq!(endpoints.get(0).as_str(), "http://a:2379/");
    assert_eq!(endpoints.get(1).as_str(), "http://b:2379/");
}

#[test]
fn member_urls_join_base_and_path() {
    assert_eq!(build_url("http://e:2379/", "v2/keys/x"), "http://e:2379/v2/keys/x");
    assert_eq!(health_url("http://e:2379/"), "http://e:2379/health");
    assert_eq!(version_url("http://e:2379/"), "http://e:2379/version");
}

fn info() -> ClusterInfo {
    ClusterInfo { cluster_id: None, etcd_index: Some(3), raft_index: None, raft_term: None }
}

#[test]
fn read_success_carries_data_and_cluster_info() {
    let r: Result<Response<u32>, Error> = request_outcome(200, DecodedBody::Value(9), info());
    let resp = r.unwrap();
    assert_eq!(resp.data, 9);
    assert_eq!(resp.cluster_info, info());
}

#[test]
fn read_success_with_undecodable_body_is_a_serialization_error() {
    let r: Result<Response<u32>, Error> = request_outcome(200, DecodedBody::Malformed, info());
    assert!(matches!(r, Err(Error::Serialization)));
}

#[test]
fn read_failure_surfaces_the_structured_error() {
    let api = ApiError {
        cause: None,
        error_code: 100,
        index: 5,
        message: "Key not found".to_string(),
    };
    let r: Result<Response<u32>, Error> =
        request_outcome(404, DecodedBody::ErrorValue(api.clone()), info());
    assert_eq!(r, Err(Error::Api(api)));
}

#[test]
fn read_failure_with_undecodable_body_is_a_serialization_error() {
    let r: Result<Response<u32>, Error> = request_outcome(500, DecodedBody::Malformed, info());
    assert!(matches!(r, Err(Error::Serialization)));
}

#[test]
fn base64_matches_the_reference_vectors() {
    assert_eq!(base64_encode(b""), b"".to_vec());
    assert_eq!(base64_encode(b"f"), b"Zg==".to_vec());
    assert_eq!(base64_encode(b"fo"), b"Zm8=".to_vec());
    assert_eq!(base64_encode(b"foo"), b"Zm9v".to_vec());
    assert_eq!(base64_encode(b"foob"), b"Zm9vYg==".to_vec());
    assert_eq!(base64_encode(b"fooba"), b"Zm9vYmE=".to_vec());
    assert_eq!(base64_encode(b"foobar"), b"Zm9vYmFy".to_vec());
    assert_eq!(base64_encode(b"user:pass"), b"dXNlcjpwYXNz".to_vec());
}
