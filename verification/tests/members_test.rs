use etcd::ApiError;
use etcd::ClusterInfo;
use etcd::Error;
use etcd::members::Member;
use etcd::members::member_added_outcome;
use etcd::members::member_changed_outcome;
use etcd::members::member_path;
use etcd::members::members_url;

fn info() -> ClusterInfo {
    ClusterInfo { cluster_id: None, etcd_index: None, raft_index: None, raft_term: None }
}

fn api_error() -> ApiError {
    ApiError {
        cause: Some("peerURL exists".to_string()),
        error_code: 501,
        index: 0,
        message: "peer URL exists".to_string(),
    }
}

#[test]
fn member_urls_join_base_id_and_path() {
    assert_eq!(members_url("http://e:2379/", ""), "http://e:2379/v2/members");
    assert_eq!(member_path("abc123"), "/abc123");
    assert_eq!(
        members_url("http://e:2379/", "/abc123"),
        "http://e:2379/v2/members/abc123"
    );
}

#[test]
fn adding_a_member_succeeds_on_created() {
    assert!(member_added_outcome(201, None, info()).is_ok());
    assert_eq!(
        member_added_outcome(500, Some(api_error()), info()),
        Err(Error::Api(api_error()))
    );
    assert!(matches!(
        member_added_outcome(500, None, info()),
        Err(Error::Serialization)
    ));
}

#[test]
fn changing_a_member_succeeds_on_no_content() {
    assert!(member_changed_outcome(204, None, info()).is_ok());
    assert_eq!(
        member_changed_outcome(404, Some(api_error()), info()),
        Err(Error::Api(api_error()))
    );
    assert!(matches!(
        member_changed_outcome(404, None, info()),
        Err(Error::Serialization)
    ));
}

#[test]
fn member_records_hold_their_urls() {
    let member = Member {
        id: "1".to_string(),
        name: "default".to_string(),
        peer_urls: vec!["http://peer:2380".to_string()],
        client_urls: vec!["http://client:2379".to_string()],
    };
    assert_eq!(member.name, "default");
    assert_eq!(member.peer_urls.len(), 1);
}
