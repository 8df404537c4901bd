use etcd::ClusterInfo;
use etcd::Error;
use etcd::auth::AuthChange;
use etcd::auth::NewUser;
use etcd::auth::Role;
use etcd::auth::RoleUpdate;
use etcd::auth::User;
use etcd::auth::UserDetail;
use etcd::auth::UserUpdate;
use etcd::auth::auth_url;
use etcd::auth::creation_outcome;
use etcd::auth::detail_outcome;
use etcd::auth::listing_outcome;
use etcd::auth::removal_outcome;
use etcd::auth::role_path;
use etcd::auth::toggle_outcome;
use etcd::auth::user_path;

fn info() -> ClusterInfo {
    ClusterInfo { cluster_id: None, etcd_index: None, raft_index: None, raft_term: None }
}

#[test]
fn new_user_records_roles_in_order() {
    let mut user = NewUser::new("jed", "hunter2");
    assert_eq!(user.name(), "jed");
    user.add_role("root");
    user.add_role("guest");
    let (name, _, roles) = user.parts();
    assert_eq!(name, "jed");
    assert_eq!(
        roles.as_ref().unwrap(),
        &vec!["root".to_string(), "guest".to_string()]
    );
}

#[test]
fn user_exposes_name_and_role_names() {
    let user = User::from_parts(
        "ana".to_string(),
        vec!["root".to_string(), "ops".to_string()],
    );
    assert_eq!(user.name(), "ana");
    assert_eq!(user.role_names(), &["root".to_string(), "ops".to_string()]);
}

#[test]
fn user_detail_exposes_roles() {
    let detail = UserDetail::from_parts("ana".to_string(), vec![Role::new("root")]);
    assert_eq!(detail.name(), "ana");
    assert_eq!(detail.roles().len(), 1);
    assert_eq!(detail.roles()[0].name(), "root");
}

#[test]
fn user_update_collects_grants_and_revocations() {
    let mut update = UserUpdate::new("jed");
    assert_eq!(update.name(), "jed");
    update.update_password("hunter2");
    update.grant_role("root");
    update.grant_role("ops");
    update.revoke_role("guest");
    let (name, password, grants, revocations) = update.parts();
    assert_eq!(name, "jed");
    assert!(password.is_some());
    assert_eq!(
        grants.as_ref().unwrap(),
        &vec!["root".to_string(), "ops".to_string()]
    );
    assert_eq!(revocations.as_ref().unwrap(), &vec!["guest".to_string()]);
}

#[test]
fn role_accumulates_kv_permissions() {
    let mut role = Role::new("reader");
    assert_eq!(role.name(), "reader");
    assert!(role.kv_read_permissions().is_empty());
    assert!(role.kv_write_permissions().is_empty());
    role.grant_kv_read_permission("/foo");
    role.grant_kv_read_permission("/bar");
    role.grant_kv_write_permission("/foo");
    assert_eq!(
        role.kv_read_permissions(),
        vec!["/foo".to_string(), "/bar".to_string()]
    );
    assert_eq!(role.kv_write_permissions(), vec!["/foo".to_string()]);
}

#[test]
fn role_update_keeps_grants_and_revocations_apart() {
    let mut update = RoleUpdate::new("reader");
    assert_eq!(update.name(), "reader");
    update.grant_kv_read_permission("/a");
    update.grant_kv_write_permission("/b");
    update.revoke_kv_read_permission("/c");
    update.revoke_kv_write_permission("/d");
    update.grant_kv_read_permission("/e");
    let other = RoleUpdate::new("reader");
    assert_ne!(update, other);
}

#[test]
fn auth_urls_join_base_and_path() {
    assert_eq!(auth_url("http://e:2379/", "/enable"), "http://e:2379/v2/auth/enable");
    assert_eq!(role_path("reader"), "/roles/reader");
    assert_eq!(user_path("jed"), "/users/jed");
}

#[test]
fn creation_succeeds_on_created_and_ok() {
    let r = creation_outcome(201, Some(5u32), info());
    assert_eq!(r.unwrap().data, 5);
    let r = creation_outcome(200, Some(6u32), info());
    assert_eq!(r.unwrap().data, 6);
    let r = creation_outcome(201, None::<u32>, info());
    assert!(matches!(r, Err(Error::Serialization)));
    let r = creation_outcome(409, Some(5u32), info());
    assert_eq!(r, Err(Error::UnexpectedStatus(409)));
}

#[test]
fn detail_reads_succeed_only_on_ok() {
    let r = detail_outcome(200, Some(5u32), info());
    assert_eq!(r.unwrap().data, 5);
    let r = detail_outcome(404, Some(5u32), info());
    assert_eq!(r, Err(Error::UnexpectedStatus(404)));
    let r = detail_outcome(200, None::<u32>, info());
    assert!(matches!(r, Err(Error::Serialization)));
}

#[test]
fn removal_succeeds_only_on_ok() {
    assert!(removal_outcome(200, info()).is_ok());
    assert_eq!(removal_outcome(403, info()), Err(Error::UnexpectedStatus(403)));
}

#[test]
fn toggling_reports_changed_and_unchanged() {
    assert_eq!(toggle_outcome(200, info()).unwrap().data, AuthChange::Changed);
    assert_eq!(toggle_outcome(409, info()).unwrap().data, AuthChange::Unchanged);
    assert_eq!(toggle_outcome(500, info()), Err(Error::UnexpectedStatus(500)));
}

#[test]
fn listing_defaults_an_absent_list_to_empty() {
    let r = listing_outcome(200, Some(Some(vec![1u32, 2u32])), info());
    assert_eq!(r.unwrap().data, vec![1, 2]);
    let r = listing_outcome(200, Some(None::<Vec<u32>>), info());
    assert_eq!(r.unwrap().data, Vec::<u32>::new());
    let r = listing_outcome(200, None::<Option<Vec<u32>>>, info());
    assert!(matches!(r, Err(Error::Serialization)));
    let r = listing_outcome(401, Some(Some(vec![1u32])), info());
    assert_eq!(r, Err(Error::UnexpectedStatus(401)));
}
