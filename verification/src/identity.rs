//! Users and organization membership records.

use vstd::prelude::*;

verus! {

/// The user fields carried in activity payloads.
pub struct UserData {
    pub id: String,
    pub first_name: Option<String>,
    pub last_name: Option<String>,
    pub username: Option<String>,
}

/// A user row.
pub struct User {
    pub id: String,
    pub email: String,
    pub first_name: Option<String>,
    pub last_name: Option<String>,
    pub username: Option<String>,
    pub created_at: i64,
    pub updated_at: i64,
}

/// Field-for-field copy of an optional string.
pub fn opt_string_dup(s: &Option<String>) -> (r: Option<String>)
    ensures
        r == *s,
{
    match s {
        Some(v) => Some(v.clone()),
        None => None,
    }
}

/// Exact comparison of two optional strings by their character contents.
pub open spec fn opt_string_view_eq(a: Option<String>, b: Option<String>) -> bool {
    match a {
        Some(x) => match b {
            Some(y) => x@ == y@,
            None => false,
        },
        None => b is None,
    }
}

/// Compares two optional strings; true exactly when both are absent or
/// both hold the same characters.
pub fn opt_string_eq(a: &Option<String>, b: &Option<String>) -> (r: bool)
    ensures
        r == opt_string_view_eq(*a, *b),
{
    match a {
        Some(x) => match b {
            Some(y) => *x == *y,
            None => false,
        },
        None => b.is_none(),
    }
}

/// Field-for-field copy of an optional user record.
pub fn opt_user_dup(u: &Option<UserData>) -> (r: Option<UserData>)
    ensures
        r == *u,
{
    match u {
        Some(v) => Some(v.dup()),
        None => None,
    }
}

impl UserData {
    /// Field-for-field copy.
    pub fn dup(&self) -> (r: Self)
        ensures
            r == *self,
    {
        UserData {
            id: self.id.clone(),
            first_name: opt_string_dup(&self.first_name),
            last_name: opt_string_dup(&self.last_name),
            username: opt_string_dup(&self.username),
        }
    }
}

impl User {
    /// The payload-facing subset of a user row.
    pub fn data(&self) -> (r: UserData)
        ensures
            r.id == self.id,
            r.first_name == self.first_name,
            r.last_name == self.last_name,
            r.username == self.username,
    {
        UserData {
            id: self.id.clone(),
            first_name: opt_string_dup(&self.first_name),
            last_name: opt_string_dup(&self.last_name),
            username: opt_string_dup(&self.username),
        }
    }

    /// Field-for-field copy.
    pub fn dup(&self) -> (r: Self)
        ensures
            r == *self,
    {
        User {
            id: self.id.clone(),
            email: self.email.clone(),
            first_name: opt_string_dup(&self.first_name),
            last_name: opt_string_dup(&self.last_name),
            username: opt_string_dup(&self.username),
            created_at: self.created_at,
            updated_at: self.updated_at,
        }
    }
}


/// A verified identity: the token's user, organization, session, and
/// expiry instant.
pub struct ClerkIdentity {
    pub user_id: String,
    pub org_id: Option<String>,
    pub session_id: String,
    pub expires_at: i64,
}

impl ClerkIdentity {
    /// Field-for-field copy.
    pub fn dup(&self) -> (r: Self)
        ensures
            r == *self,
    {
        ClerkIdentity {
            user_id: self.user_id.clone(),
            org_id: opt_string_dup(&self.org_id),
            session_id: self.session_id.clone(),
            expires_at: self.expires_at,
        }
    }
}

} // verus!
