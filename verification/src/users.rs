//! Platform users, their roles and their account status.

use uuid::Uuid;
use vstd::prelude::*;
use vstd::string::*;

use crate::text::str_equal;

verus! {

/// What a user may do on the platform.
#[derive(Debug, Clone, Copy, PartialEq, Eq, Structural)]
pub enum Role {
    Admin,
    Operator,
    Viewer,
}

/// Whether a user has accepted their invite yet.
#[derive(Debug, Clone, Copy, PartialEq, Eq, Structural)]
pub enum UserStatus {
    Invited,
    Active,
}

/// The stored name of a role.
pub open spec fn role_name(role: Role) -> Seq<char> {
    match role {
        Role::Admin => "admin"@,
        Role::Operator => "operator"@,
        Role::Viewer => "viewer"@,
    }
}

/// The role a stored name stands for; unknown names give the least privilege.
pub open spec fn role_from_name(name: Seq<char>) -> Role {
    if name == "admin"@ {
        Role::Admin
    } else if name == "operator"@ {
        Role::Operator
    } else {
        Role::Viewer
    }
}

/// The stored name of a user status.
pub open spec fn status_name(status: UserStatus) -> Seq<char> {
    match status {
        UserStatus::Invited => "invited"@,
        UserStatus::Active => "active"@,
    }
}

/// The status a stored name stands for; only "active" activates an account.
pub open spec fn status_from_name(name: Seq<char>) -> UserStatus {
    if name == "active"@ {
        UserStatus::Active
    } else {
        UserStatus::Invited
    }
}

impl UserStatus {
    /// The stored name of this status.
    pub fn as_str(&self) -> (r: &'static str)
        ensures
            r@ == status_name(*self),
    {
        match self {
            UserStatus::Invited => "invited",
            UserStatus::Active => "active",
        }
    }
}

impl<'a> From<&'a str> for UserStatus {
    fn from(value: &'a str) -> (r: UserStatus) {
        if str_equal(value, "active") {
            UserStatus::Active
        } else {
            UserStatus::Invited
        }
    }
}

impl<'a> vstd::std_specs::convert::FromSpecImpl<&'a str> for UserStatus {
    open spec fn obeys_from_spec() -> bool {
        true
    }

    open spec fn from_spec(value: &'a str) -> UserStatus {
        status_from_name(value@)
    }
}

impl Role {
    /// The stored name of this role.
    pub fn as_str(&self) -> (r: &'static str)
        ensures
            r@ == role_name(*self),
    {
        match self {
            Role::Admin => "admin",
            Role::Operator => "operator",
            Role::Viewer => "viewer",
        }
    }
}

impl<'a> From<&'a str> for Role {
    fn from(value: &'a str) -> (r: Role) {
        if str_equal(value, "admin") {
            Role::Admin
        } else if str_equal(value, "operator") {
            Role::Operator
        } else {
            Role::Viewer
        }
    }
}

impl<'a> vstd::std_specs::convert::FromSpecImpl<&'a str> for Role {
    open spec fn obeys_from_spec() -> bool {
        true
    }

    open spec fn from_spec(value: &'a str) -> Role {
        role_from_name(value@)
    }
}

/// Reading back the stored name of a role gives the same role.
pub proof fn lemma_role_round_trip(role: Role)
    ensures
        role_from_name(role_name(role)) == role,
{
    reveal_strlit("admin");
    reveal_strlit("operator");
    reveal_strlit("viewer");
    assert("admin"@.len() == 5);
    assert("operator"@.len() == 8);
    assert("viewer"@.len() == 6);
}

/// Reading back the stored name of a status gives the same status.
pub proof fn lemma_status_round_trip(status: UserStatus)
    ensures
        status_from_name(status_name(status)) == status,
{
    reveal_strlit("invited");
    reveal_strlit("active");
    assert("invited"@.len() == 7);
    assert("active"@.len() == 6);
}

/// A platform user as the API presents it.
#[derive(Debug, Clone)]
pub struct User {
    pub id: Uuid,
    pub email: String,
    pub name: String,
    pub role: Role,
    pub status: UserStatus,
}

/// A stored user row; role and status are kept by name.
#[derive(Debug, Clone)]
pub struct UserRecord {
    pub id: Uuid,
    pub email: String,
    pub name: String,
    pub role: String,
    pub status: String,
    pub password_hash: String,
}

/// A stored invite row; the token itself is kept only as a hash.
#[derive(Debug, Clone)]
pub struct UserInviteRecord {
    pub id: Uuid,
    pub user_id: Uuid,
    pub token_hash: String,
    pub expires_at: String,
    pub accepted_at: String,
    pub created_at: String,
}

/// The user that a stored row presents: the password hash stays behind.
pub open spec fn user_of_record(record: UserRecord) -> User {
    User {
        id: record.id,
        email: record.email,
        name: record.name,
        role: role_from_name(record.role@),
        status: status_from_name(record.status@),
    }
}

/// Presenting a stored user keeps its identifier, email and name, and reads
/// back the role and status that the record names: a record that stores a
/// role's or a status's name presents that very role or status.
pub proof fn lemma_user_presentation_keeps_fields(record: UserRecord, role: Role, status: UserStatus)
    ensures
        ({
            let u = user_of_record(record);
            &&& u.id == record.id
            &&& u.email == record.email
            &&& u.name == record.name
            &&& record.role@ == role_name(role) ==> u.role == role
            &&& record.status@ == status_name(status) ==> u.status == status
        }),
{
    lemma_role_round_trip(role);
    lemma_status_round_trip(status);
}

impl From<UserRecord> for User {
    fn from(record: UserRecord) -> (r: User)
        ensures
            r.id == record.id,
            r.email == record.email,
            r.name == record.name,
            r.role == role_from_name(record.role@),
            r.status == status_from_name(record.status@),
    {
        let role = Role::from(record.role.as_str());
        let status = UserStatus::from(record.status.as_str());
        User { id: record.id, email: record.email, name: record.name, role, status }
    }
}

impl vstd::std_specs::convert::FromSpecImpl<UserRecord> for User {
    open spec fn obeys_from_spec() -> bool {
        true
    }

    open spec fn from_spec(record: UserRecord) -> User {
        user_of_record(record)
    }
}

} // verus!
