use etcd::Error;
use etcd::kv;
use etcd::kv::HttpMethod;
use etcd::options::ComparisonConditions;

#[test]
fn compare_and_swap_requires_conditions() {
    let result = kv::compare_and_swap("/test/foo", "baz", None, None, None);
    assert_eq!(result, Err(Error::InvalidConditions));
}

#[test]
fn compare_and_delete_requires_conditions() {
    let result = kv::compare_and_delete("/test/foo", None, None);
    assert_eq!(result, Err(Error::InvalidConditions));
}

#[test]
fn compare_and_swap_accepts_value_alone() {
    let req = kv::compare_and_swap("/test/foo", "baz", None, Some("bar"), None).unwrap();
    assert_eq!(req.method, HttpMethod::Put);
    assert_eq!(req.body, "value=baz&prevValue=bar");
}

#[test]
fn compare_and_swap_accepts_index_alone() {
    let req = kv::compare_and_swap("/test/foo", "baz", None, None, Some(17)).unwrap();
    assert_eq!(req.body, "value=baz&prevIndex=17");
}

#[test]
fn compare_and_swap_encodes_both_conditions_and_ttl() {
    let req =
        kv::compare_and_swap("/test/foo", "baz", Some(100), Some("bar"), Some(17)).unwrap();
    assert_eq!(req.body, "value=baz&ttl=100&prevIndex=17&prevValue=bar");
}

#[test]
fn compare_and_delete_accepts_value_alone() {
    let req = kv::compare_and_delete("/test/foo", Some("bar"), None).unwrap();
    assert_eq!(req.method, HttpMethod::Delete);
    assert_eq!(
        req.query,
        vec![("prevValue".to_string(), "bar".to_string())]
    );
}

#[test]
fn compare_and_delete_accepts_index_alone() {
    let req = kv::compare_and_delete("/test/foo", None, Some(3)).unwrap();
    assert_eq!(
        req.query,
        vec![("prevIndex".to_string(), "3".to_string())]
    );
}

#[test]
fn compare_and_delete_encodes_both_conditions() {
    let req = kv::compare_and_delete("/test/foo", Some("bar"), Some(3)).unwrap();
    assert_eq!(
        req.query,
        vec![
            ("prevIndex".to_string(), "3".to_string()),
            ("prevValue".to_string(), "bar".to_string()),
        ]
    );
}

#[test]
fn condition_set_emptiness() {
    let empty = ComparisonConditions { value: None, modified_index: None };
    assert!(empty.is_empty());
    let with_value = ComparisonConditions { value: Some("x".to_string()), modified_index: None };
    assert!(!with_value.is_empty());
    let with_index = ComparisonConditions { value: None, modified_index: Some(1) };
    assert!(!with_index.is_empty());
}
