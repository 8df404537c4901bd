//! The authentication and authorization API: users, roles, and the
//! key-value permissions granted to roles.
//!
//! The types here build the request payloads; a host program serializes
//! them, sends each request under [`crate::first_ok`] failover, and feeds
//! the decoded response through the outcome functions below.

use vstd::prelude::*;
use vstd::string::StringExecFns;

use crate::client::ClusterInfo;
use crate::client::Response;
use crate::client::build_url;
use crate::error::Error;

verus! {

/// The views of a list of names: each as its character sequence.
pub open spec fn names_view(v: Seq<String>) -> Seq<Seq<char>> {
    v.map_values(|s: String| s@)
}

/// The views of an optional list of names.
pub open spec fn opt_names_view(v: Option<Seq<String>>) -> Option<Seq<Seq<char>>> {
    match v {
        Some(names) => Some(names_view(names)),
        None => None,
    }
}

/// An optional name list after one more name is recorded in it: the name
/// is appended to the list, which is created first if it did not exist.
pub open spec fn with_name(v: Option<Seq<Seq<char>>>, name: Seq<char>) -> Option<
    Seq<Seq<char>>,
> {
    match v {
        Some(names) => Some(names.push(name)),
        None => Some(seq![name]),
    }
}

/// Copies a list of names.
fn clone_names(v: &Vec<String>) -> (r: Vec<String>)
    ensures
        r@ == v@,
{
    let mut r: Vec<String> = Vec::new();
    let mut i: usize = 0;
    while i < v.len()
        invariant
            i <= v@.len(),
            r@ == v@.subrange(0, i as int),
        decreases v@.len() - i,
    {
        r.push(v[i].clone());
        proof {
            assert(r@ =~= v@.subrange(0, i as int + 1));
        }
        i = i + 1;
    }
    proof {
        assert(r@ =~= v@);
    }
    r
}

/// The type returned when the auth system is successfully enabled or
/// disabled.
#[derive(Clone, Copy, Debug, Eq, Hash, PartialEq, Structural)]
pub enum AuthChange {
    /// The auth system was successfully enabled or disabled.
    Changed,
    /// The auth system was already in the desired state.
    Unchanged,
}

/// An existing user with a list of their granted roles.
#[derive(Clone, Debug, Eq, Hash, PartialEq)]
pub struct User {
    name: String,
    roles: Vec<String>,
}

impl User {
    /// The user's name.
    pub closed spec fn spec_name(&self) -> Seq<char> {
        self.name@
    }

    /// The names of the roles granted to the user.
    pub closed spec fn spec_role_names(&self) -> Seq<String> {
        self.roles@
    }

    /// Assembles a user record as a response reported it.
    pub fn from_parts(name: String, roles: Vec<String>) -> (r: User)
        ensures
            r.spec_name() == name@,
            r.spec_role_names() == roles@,
    {
        User { name, roles }
    }

    /// Returns the user's name.
    pub fn name(&self) -> (r: &str)
        ensures
            r@ == self.spec_name(),
    {
        self.name.as_str()
    }

    /// Returns the names of the roles granted to the user.
    pub fn role_names(&self) -> (r: &[String])
        ensures
            r@ == self.spec_role_names(),
    {
        self.roles.as_slice()
    }
}

/// An existing user with details of granted roles.
#[derive(Clone, Debug, Eq, Hash, PartialEq)]
pub struct UserDetail {
    name: String,
    roles: Vec<Role>,
}

impl UserDetail {
    /// The user's name.
    pub closed spec fn spec_name(&self) -> Seq<char> {
        self.name@
    }

    /// The roles granted to the user.
    pub closed spec fn spec_roles(&self) -> Seq<Role> {
        self.roles@
    }

    /// Assembles a user detail record as a response reported it.
    pub fn from_parts(name: String, roles: Vec<Role>) -> (r: UserDetail)
        ensures
            r.spec_name() == name@,
            r.spec_roles() == roles@,
    {
        UserDetail { name, roles }
    }

    /// Returns the user's name.
    pub fn name(&self) -> (r: &str)
        ensures
            r@ == self.spec_name(),
    {
        self.name.as_str()
    }

    /// Returns the roles granted to the user.
    pub fn roles(&self) -> (r: &[Role])
        ensures
            r@ == self.spec_roles(),
    {
        self.roles.as_slice()
    }
}

/// Parameters used to create a new user.
#[derive(Clone, Debug, Eq, Hash, PartialEq)]
pub struct NewUser {
    name: String,
    password: String,
    roles: Option<Vec<String>>,
}

impl NewUser {
    /// The new user's name.
    pub closed spec fn spec_name(&self) -> Seq<char> {
        self.name@
    }

    /// The new user's password.
    pub closed spec fn spec_password(&self) -> Seq<char> {
        self.password@
    }

    /// The initial roles granted to the new user, if any were recorded.
    pub closed spec fn spec_roles(&self) -> Option<Seq<Seq<char>>> {
        opt_names_view(
            match self.roles {
                Some(v) => Some(v@),
                None => None,
            },
        )
    }

    /// Creates a new user with no initial roles.
    pub fn new(name: &str, password: &str) -> (r: Self)
        ensures
            r.spec_name() == name@,
            r.spec_password() == password@,
            r.spec_roles() is None,
    {
        NewUser { name: name.to_owned(), password: password.to_owned(), roles: None }
    }

    /// Gets the name of the new user.
    pub fn name(&self) -> (r: &str)
        ensures
            r@ == self.spec_name(),
    {
        self.name.as_str()
    }

    /// Grants a role to the new user.
    pub fn add_role(&mut self, role: &str)
        ensures
            final(self).spec_name() == old(self).spec_name(),
            final(self).spec_password() == old(self).spec_password(),
            final(self).spec_roles() == with_name(old(self).spec_roles(), role@),
    {
        match &mut self.roles {
            Some(roles) => roles.push(role.to_owned()),
            None => self.roles = Some(vec![role.to_owned()]),
        }
        proof {
            match old(self).spec_roles() {
                Some(names) => {
                    assert(self.spec_roles().unwrap() =~~= names.push(role@));
                }
                None => {
                    assert(self.spec_roles().unwrap() =~~= seq![role@]);
                }
            }
        }
    }

    /// Serialization view used by the host: the parts of the record.
    pub fn parts(&self) -> (r: (&String, &String, &Option<Vec<String>>))
        ensures
            r.0@ == self.spec_name(),
            r.1@ == self.spec_password(),
            opt_names_view(
                match r.2 {
                    Some(v) => Some(v@),
                    None => None,
                },
            ) == self.spec_roles(),
    {
        (&self.name, &self.password, &self.roles)
    }
}

/// Parameters used to update an existing user.
#[derive(Clone, Debug, Eq, Hash, PartialEq)]
pub struct UserUpdate {
    name: String,
    password: Option<String>,
    grants: Option<Vec<String>>,
    revocations: Option<Vec<String>>,
}

impl UserUpdate {
    /// The name of the user being updated.
    pub closed spec fn spec_name(&self) -> Seq<char> {
        self.name@
    }

    /// The new password, if one was recorded.
    pub closed spec fn spec_password(&self) -> Option<Seq<char>> {
        match self.password {
            Some(p) => Some(p@),
            None => None,
        }
    }

    /// The roles being granted, if any were recorded.
    pub closed spec fn spec_grants(&self) -> Option<Seq<Seq<char>>> {
        opt_names_view(
            match self.grants {
                Some(v) => Some(v@),
                None => None,
            },
        )
    }

    /// The roles being revoked, if any were recorded.
    pub closed spec fn spec_revocations(&self) -> Option<Seq<Seq<char>>> {
        opt_names_view(
            match self.revocations {
                Some(v) => Some(v@),
                None => None,
            },
        )
    }

    /// Creates a new update for the given user, changing nothing yet.
    pub fn new(name: &str) -> (r: Self)
        ensures
            r.spec_name() == name@,
            r.spec_password() is None,
            r.spec_grants() is None,
            r.spec_revocations() is None,
    {
        UserUpdate { name: name.to_owned(), password: None, grants: None, revocations: None }
    }

    /// Gets the name of the user being updated.
    pub fn name(&self) -> (r: &str)
        ensures
            r@ == self.spec_name(),
    {
        self.name.as_str()
    }

    /// Updates the user's password.
    pub fn update_password(&mut self, password: &str)
        ensures
            final(self).spec_name() == old(self).spec_name(),
            final(self).spec_password() == Some(password@),
            final(self).spec_grants() == old(self).spec_grants(),
            final(self).spec_revocations() == old(self).spec_revocations(),
    {
        self.password = Some(password.to_owned());
    }

    /// Grants the given role to the user.
    pub fn grant_role(&mut self, role: &str)
        ensures
            final(self).spec_name() == old(self).spec_name(),
            final(self).spec_password() == old(self).spec_password(),
            final(self).spec_grants() == with_name(old(self).spec_grants(), role@),
            final(self).spec_revocations() == old(self).spec_revocations(),
    {
        match &mut self.grants {
            Some(grants) => grants.push(role.to_owned()),
            None => self.grants = Some(vec![role.to_owned()]),
        }
        proof {
            match old(self).spec_grants() {
                Some(names) => {
                    assert(self.spec_grants().unwrap() =~~= names.push(role@));
                }
                None => {
                    assert(self.spec_grants().unwrap() =~~= seq![role@]);
                }
            }
        }
    }

    /// Revokes the given role from the user.
    pub fn revoke_role(&mut self, role: &str)
        ensures
            final(self).spec_name() == old(self).spec_name(),
            final(self).spec_password() == old(self).spec_password(),
            final(self).spec_grants() == old(self).spec_grants(),
            final(self).spec_revocations() == with_name(old(self).spec_revocations(), role@),
    {
        match &mut self.revocations {
            Some(revocations) => revocations.push(role.to_owned()),
            None => self.revocations = Some(vec![role.to_owned()]),
        }
        proof {
            match old(self).spec_revocations() {
                Some(names) => {
                    assert(self.spec_revocations().unwrap() =~~= names.push(role@));
                }
                None => {
                    assert(self.spec_revocations().unwrap() =~~= seq![role@]);
                }
            }
        }
    }

    /// Serialization view used by the host: the parts of the record.
    pub fn parts(&self) -> (r: (
        &String,
        &Option<String>,
        &Option<Vec<String>>,
        &Option<Vec<String>>,
    ))
        ensures
            r.0@ == self.spec_name(),
            (match r.1 {
                Some(p) => Some(p@),
                None => None,
            }) == self.spec_password(),
            opt_names_view(
                match r.2 {
                    Some(v) => Some(v@),
                    None => None,
                },
            ) == self.spec_grants(),
            opt_names_view(
                match r.3 {
                    Some(v) => Some(v@),
                    None => None,
                },
            ) == self.spec_revocations(),
    {
        (&self.name, &self.password, &self.grants, &self.revocations)
    }
}

/// A set of read and write access permissions for store keys.
#[derive(Clone, Debug, Eq, Hash, PartialEq)]
struct Permission {
    read: Option<Vec<String>>,
    write: Option<Vec<String>>,
}

impl Permission {
    spec fn spec_read(&self) -> Option<Seq<Seq<char>>> {
        opt_names_view(
            match self.read {
                Some(v) => Some(v@),
                None => None,
            },
        )
    }

    spec fn spec_write(&self) -> Option<Seq<Seq<char>>> {
        opt_names_view(
            match self.write {
                Some(v) => Some(v@),
                None => None,
            },
        )
    }

    /// Creates a new permission record granting nothing.
    fn new() -> (r: Self)
        ensures
            r.spec_read() is None,
            r.spec_write() is None,
    {
        Permission { read: None, write: None }
    }

    /// Records read access to a key.
    fn modify_read_permission(&mut self, key: &str)
        ensures
            final(self).spec_read() == with_name(old(self).spec_read(), key@),
            final(self).spec_write() == old(self).spec_write(),
    {
        match &mut self.read {
            Some(read) => read.push(key.to_owned()),
            None => self.read = Some(vec![key.to_owned()]),
        }
        proof {
            match old(self).spec_read() {
                Some(names) => {
                    assert(self.spec_read().unwrap() =~~= names.push(key@));
                }
                None => {
                    assert(self.spec_read().unwrap() =~~= seq![key@]);
                }
            }
        }
    }

    /// Records write access to a key.
    fn modify_write_permission(&mut self, key: &str)
        ensures
            final(self).spec_read() == old(self).spec_read(),
            final(self).spec_write() == with_name(old(self).spec_write(), key@),
    {
        match &mut self.write {
            Some(write) => write.push(key.to_owned()),
            None => self.write = Some(vec![key.to_owned()]),
        }
        proof {
            match old(self).spec_write() {
                Some(names) => {
                    assert(self.spec_write().unwrap() =~~= names.push(key@));
                }
                None => {
                    assert(self.spec_write().unwrap() =~~= seq![key@]);
                }
            }
        }
    }
}

/// The access permissions granted to a role.
#[derive(Clone, Debug, Eq, Hash, PartialEq)]
struct Permissions {
    /// Permissions for the key-value store.
    kv: Permission,
}

impl Permissions {
    /// Creates a new set of permissions granting nothing.
    fn new() -> (r: Self)
        ensures
            r.kv.spec_read() is None,
            r.kv.spec_write() is None,
    {
        Permissions { kv: Permission::new() }
    }
}

/// An authorization role.
#[derive(Clone, Debug, Eq, Hash, PartialEq)]
pub struct Role {
    name: String,
    permissions: Permissions,
}

impl Role {
    /// The name of the role.
    pub closed spec fn spec_name(&self) -> Seq<char> {
        self.name@
    }

    /// The key-value read permissions, if any were recorded.
    pub closed spec fn spec_kv_read(&self) -> Option<Seq<Seq<char>>> {
        self.permissions.kv.spec_read()
    }

    /// The key-value write permissions, if any were recorded.
    pub closed spec fn spec_kv_write(&self) -> Option<Seq<Seq<char>>> {
        self.permissions.kv.spec_write()
    }

    /// Creates a new role granting nothing.
    pub fn new(name: &str) -> (r: Self)
        ensures
            r.spec_name() == name@,
            r.spec_kv_read() is None,
            r.spec_kv_write() is None,
    {
        Role { name: name.to_owned(), permissions: Permissions::new() }
    }

    /// Gets the name of the role.
    pub fn name(&self) -> (r: &str)
        ensures
            r@ == self.spec_name(),
    {
        self.name.as_str()
    }

    /// Grants read permission for a key in the key-value store to this
    /// role.
    pub fn grant_kv_read_permission(&mut self, key: &str)
        ensures
            final(self).spec_name() == old(self).spec_name(),
            final(self).spec_kv_read() == with_name(old(self).spec_kv_read(), key@),
            final(self).spec_kv_write() == old(self).spec_kv_write(),
    {
        self.permissions.kv.modify_read_permission(key)
    }

    /// Grants write permission for a key in the key-value store to this
    /// role.
    pub fn grant_kv_write_permission(&mut self, key: &str)
        ensures
            final(self).spec_name() == old(self).spec_name(),
            final(self).spec_kv_read() == old(self).spec_kv_read(),
            final(self).spec_kv_write() == with_name(old(self).spec_kv_write(), key@),
    {
        self.permissions.kv.modify_write_permission(key)
    }

    /// Returns the keys in the key-value store that this role is allowed
    /// to read.
    pub fn kv_read_permissions(&self) -> (r: Vec<String>)
        ensures
            match self.spec_kv_read() {
                Some(names) => names_view(r@) == names,
                None => r@.len() == 0,
            },
    {
        match &self.permissions.kv.read {
            Some(read) => clone_names(read),
            None => Vec::new(),
        }
    }

    /// Returns the keys in the key-value store that this role is allowed
    /// to write.
    pub fn kv_write_permissions(&self) -> (r: Vec<String>)
        ensures
            match self.spec_kv_write() {
                Some(names) => names_view(r@) == names,
                None => r@.len() == 0,
            },
    {
        match &self.permissions.kv.write {
            Some(write) => clone_names(write),
            None => Vec::new(),
        }
    }
}

/// Parameters used to update an existing authorization role.
#[derive(Clone, Debug, Eq, Hash, PartialEq)]
pub struct RoleUpdate {
    name: String,
    grants: Option<Permissions>,
    revocations: Option<Permissions>,
}

impl RoleUpdate {
    /// The name of the role being updated.
    pub closed spec fn spec_name(&self) -> Seq<char> {
        self.name@
    }

    /// The read permissions being granted, if any were recorded.
    pub closed spec fn spec_grant_read(&self) -> Option<Seq<Seq<char>>> {
        match self.grants {
            Some(p) => p.kv.spec_read(),
            None => None,
        }
    }

    /// The write permissions being granted, if any were recorded.
    pub closed spec fn spec_grant_write(&self) -> Option<Seq<Seq<char>>> {
        match self.grants {
            Some(p) => p.kv.spec_write(),
            None => None,
        }
    }

    /// The read permissions being revoked, if any were recorded.
    pub closed spec fn spec_revoke_read(&self) -> Option<Seq<Seq<char>>> {
        match self.revocations {
            Some(p) => p.kv.spec_read(),
            None => None,
        }
    }

    /// The write permissions being revoked, if any were recorded.
    pub closed spec fn spec_revoke_write(&self) -> Option<Seq<Seq<char>>> {
        match self.revocations {
            Some(p) => p.kv.spec_write(),
            None => None,
        }
    }

    /// Creates a new update for the given role, changing nothing yet.
    pub fn new(role: &str) -> (r: Self)
        ensures
            r.spec_name() == role@,
            r.spec_grant_read() is None,
            r.spec_grant_write() is None,
            r.spec_revoke_read() is None,
            r.spec_revoke_write() is None,
    {
        RoleUpdate { name: role.to_owned(), grants: None, revocations: None }
    }

    /// Gets the name of the role being updated.
    pub fn name(&self) -> (r: &str)
        ensures
            r@ == self.spec_name(),
    {
        self.name.as_str()
    }

    /// Grants read permission for a key in the key-value store to this
    /// role.
    pub fn grant_kv_read_permission(&mut self, key: &str)
        ensures
            final(self).spec_name() == old(self).spec_name(),
            final(self).spec_grant_read() == with_name(old(self).spec_grant_read(), key@),
            final(self).spec_grant_write() == old(self).spec_grant_write(),
            final(self).spec_revoke_read() == old(self).spec_revoke_read(),
            final(self).spec_revoke_write() == old(self).spec_revoke_write(),
    {
        match &mut self.grants {
            Some(grants) => grants.kv.modify_read_permission(key),
            None => {
                let mut permissions = Permissions::new();
                permissions.kv.modify_read_permission(key);
                self.grants = Some(permissions);
            }
        }
    }

    /// Grants write permission for a key in the key-value store to this
    /// role.
    pub fn grant_kv_write_permission(&mut self, key: &str)
        ensures
            final(self).spec_name() == old(self).spec_name(),
            final(self).spec_grant_read() == old(self).spec_grant_read(),
            final(self).spec_grant_write() == with_name(old(self).spec_grant_write(), key@),
            final(self).spec_revoke_read() == old(self).spec_revoke_read(),
            final(self).spec_revoke_write() == old(self).spec_revoke_write(),
    {
        match &mut self.grants {
            Some(grants) => grants.kv.modify_write_permission(key),
            None => {
                let mut permissions = Permissions::new();
                permissions.kv.modify_write_permission(key);
                self.grants = Some(permissions);
            }
        }
    }

    /// Revokes read permission for a key in the key-value store from this
    /// role.
    pub fn revoke_kv_read_permission(&mut self, key: &str)
        ensures
            final(self).spec_name() == old(self).spec_name(),
            final(self).spec_grant_read() == old(self).spec_grant_read(),
            final(self).spec_grant_write() == old(self).spec_grant_write(),
            final(self).spec_revoke_read() == with_name(old(self).spec_revoke_read(), key@),
            final(self).spec_revoke_write() == old(self).spec_revoke_write(),
    {
        match &mut self.revocations {
            Some(revocations) => revocations.kv.modify_read_permission(key),
            None => {
                let mut permissions = Permissions::new();
                permissions.kv.modify_read_permission(key);
                self.revocations = Some(permissions);
            }
        }
    }

    /// The read permissions this update grants, for serialization.
    pub fn granted_read(&self) -> (r: Option<Vec<String>>)
        ensures
            match r {
                Some(v) => self.spec_grant_read() == Some(names_view(v@)),
                None => self.spec_grant_read() is None,
            },
    {
        match &self.grants {
            Some(p) => match &p.kv.read {
                Some(v) => Some(clone_names(v)),
                None => None,
            },
            None => None,
        }
    }

    /// The write permissions this update grants, for serialization.
    pub fn granted_write(&self) -> (r: Option<Vec<String>>)
        ensures
            match r {
                Some(v) => self.spec_grant_write() == Some(names_view(v@)),
                None => self.spec_grant_write() is None,
            },
    {
        match &self.grants {
            Some(p) => match &p.kv.write {
                Some(v) => Some(clone_names(v)),
                None => None,
            },
            None => None,
        }
    }

    /// The read permissions this update revokes, for serialization.
    pub fn revoked_read(&self) -> (r: Option<Vec<String>>)
        ensures
            match r {
                Some(v) => self.spec_revoke_read() == Some(names_view(v@)),
                None => self.spec_revoke_read() is None,
            },
    {
        match &self.revocations {
            Some(p) => match &p.kv.read {
                Some(v) => Some(clone_names(v)),
                None => None,
            },
            None => None,
        }
    }

    /// The write permissions this update revokes, for serialization.
    pub fn revoked_write(&self) -> (r: Option<Vec<String>>)
        ensures
            match r {
                Some(v) => self.spec_revoke_write() == Some(names_view(v@)),
                None => self.spec_revoke_write() is None,
            },
    {
        match &self.revocations {
            Some(p) => match &p.kv.write {
                Some(v) => Some(clone_names(v)),
                None => None,
            },
            None => None,
        }
    }

    /// Revokes write permission for a key in the key-value store from
    /// this role.
    pub fn revoke_kv_write_permission(&mut self, key: &str)
        ensures
            final(self).spec_name() == old(self).spec_name(),
            final(self).spec_grant_read() == old(self).spec_grant_read(),
            final(self).spec_grant_write() == old(self).spec_grant_write(),
            final(self).spec_revoke_read() == old(self).spec_revoke_read(),
            final(self).spec_revoke_write() == with_name(old(self).spec_revoke_write(), key@),
    {
        match &mut self.revocations {
            Some(revocations) => revocations.kv.modify_write_permission(key),
            None => {
                let mut permissions = Permissions::new();
                permissions.kv.modify_write_permission(key);
                self.revocations = Some(permissions);
            }
        }
    }
}

/// The URL of an auth resource on one endpoint.
pub fn auth_url(endpoint: &str, path: &str) -> (r: String)
    ensures
        r@ == endpoint@ + "v2/auth"@ + path@,
{
    let base = build_url(endpoint, "v2/auth");
    build_url(base.as_str(), path)
}

/// The resource path of one role.
pub fn role_path(name: &str) -> (r: String)
    ensures
        r@ == "/roles/"@ + name@,
{
    build_url("/roles/", name)
}

/// The resource path of one user.
pub fn user_path(name: &str) -> (r: String)
    ensures
        r@ == "/users/"@ + name@,
{
    build_url("/users/", name)
}

/// Interprets the response of a creating write (a new role or user):
/// status 200 or 201 means success and the body must carry the created
/// record; any other status is unrecognized and reported as such, with no
/// structured error expected in the body.
pub fn creation_outcome<T>(status: u16, decoded: Option<T>, cluster_info: ClusterInfo) -> (r:
    Result<Response<T>, Error>)
    ensures
        (status == 200 || status == 201) ==> (decoded matches Some(d) ==> (r matches Ok(resp)
            && resp.data == d && resp.cluster_info == cluster_info)),
        (status == 200 || status == 201) && decoded is None ==> r == Err::<Response<T>, Error>(
            Error::Serialization,
        ),
        !(status == 200 || status == 201) ==> r == Err::<Response<T>, Error>(
            Error::UnexpectedStatus(status),
        ),
{
    if status == 200 || status == 201 {
        match decoded {
            Some(data) => Ok(Response { data, cluster_info }),
            None => Err(Error::Serialization),
        }
    } else {
        Err(Error::UnexpectedStatus(status))
    }
}

/// Interprets the response of a read or update of one record: status 200
/// means success and the body must carry the record; any other status is
/// unrecognized and reported as such.
pub fn detail_outcome<T>(status: u16, decoded: Option<T>, cluster_info: ClusterInfo) -> (r: Result<
    Response<T>,
    Error,
>)
    ensures
        status == 200 ==> (decoded matches Some(d) ==> (r matches Ok(resp) && resp.data == d
            && resp.cluster_info == cluster_info)),
        status == 200 && decoded is None ==> r == Err::<Response<T>, Error>(Error::Serialization),
        status != 200 ==> r == Err::<Response<T>, Error>(Error::UnexpectedStatus(status)),
{
    if status == 200 {
        match decoded {
            Some(data) => Ok(Response { data, cluster_info }),
            None => Err(Error::Serialization),
        }
    } else {
        Err(Error::UnexpectedStatus(status))
    }
}

/// Interprets the response of a deletion of one record: status 200 means
/// the record is gone and the body carries nothing; any other status is
/// unrecognized and reported as such.
pub fn removal_outcome(status: u16, cluster_info: ClusterInfo) -> (r: Result<Response<()>, Error>)
    ensures
        status == 200 ==> (r matches Ok(resp) && resp.cluster_info == cluster_info),
        status != 200 ==> r == Err::<Response<()>, Error>(Error::UnexpectedStatus(status)),
{
    if status == 200 {
        Ok(Response { data: (), cluster_info })
    } else {
        Err(Error::UnexpectedStatus(status))
    }
}

/// Interprets the response of enabling or disabling the auth system:
/// status 200 means the state changed, status 409 means it already was in
/// the desired state, and any other status is unrecognized and reported
/// as such.
pub fn toggle_outcome(status: u16, cluster_info: ClusterInfo) -> (r: Result<
    Response<AuthChange>,
    Error,
>)
    ensures
        status == 200 ==> (r matches Ok(resp) && resp.data == AuthChange::Changed
            && resp.cluster_info == cluster_info),
        status == 409 ==> (r matches Ok(resp) && resp.data == AuthChange::Unchanged
            && resp.cluster_info == cluster_info),
        status != 200 && status != 409 ==> r == Err::<Response<AuthChange>, Error>(
            Error::UnexpectedStatus(status),
        ),
{
    if status == 200 {
        Ok(Response { data: AuthChange::Changed, cluster_info })
    } else if status == 409 {
        Ok(Response { data: AuthChange::Unchanged, cluster_info })
    } else {
        Err(Error::UnexpectedStatus(status))
    }
}

/// Interprets the response of a listing of all roles or all users:
/// status 200 means success, where a response that reports no list at all
/// means an empty one; any other status is unrecognized and reported as
/// such. `decoded` is the decoded optional list, or `None` when the body
/// did not decode.
pub fn listing_outcome<T>(
    status: u16,
    decoded: Option<Option<Vec<T>>>,
    cluster_info: ClusterInfo,
) -> (r: Result<Response<Vec<T>>, Error>)
    ensures
        status == 200 ==> (decoded matches Some(Some(items)) ==> (r matches Ok(resp) && resp.data
            == items && resp.cluster_info == cluster_info)),
        status == 200 ==> (decoded matches Some(None::<Vec<T>>) ==> (r matches Ok(resp)
            && resp.data@ == Seq::<T>::empty() && resp.cluster_info == cluster_info)),
        status == 200 && decoded is None ==> r == Err::<Response<Vec<T>>, Error>(
            Error::Serialization,
        ),
        status != 200 ==> r == Err::<Response<Vec<T>>, Error>(Error::UnexpectedStatus(status)),
{
    if status == 200 {
        match decoded {
            Some(Some(items)) => Ok(Response { data: items, cluster_info }),
            Some(None) => {
                let empty: Vec<T> = Vec::new();
                Ok(Response { data: empty, cluster_info })
            }
            None => Err(Error::Serialization),
        }
    } else {
        Err(Error::UnexpectedStatus(status))
    }
}

} // verus!
