//! The persisted user record and the role enumeration.
use vstd::prelude::*;

use crate::text::str_eq;

verus! {

/// The role a user holds. A closed two-member domain: any client-supplied
/// role tag outside it is rejected by validation.
#[derive(Debug, Clone, Copy, PartialEq, Eq, Structural)]
pub enum UserRole {
    User,
    Admin,
}

/// The lowercase wire token of a role.
pub open spec fn role_token(role: UserRole) -> Seq<char> {
    match role {
        UserRole::User => "user"@,
        UserRole::Admin => "admin"@,
    }
}

impl UserRole {
    /// The lowercase wire token of this role.
    pub fn to_str(&self) -> (r: &'static str)
        ensures
            r@ == role_token(*self),
    {
        match self {
            UserRole::User => "user",
            UserRole::Admin => "admin",
        }
    }

    /// Resolves a lowercase wire token back to a role; any other tag
    /// resolves to nothing.
    pub fn from_token(tag: &str) -> (r: Option<UserRole>)
        ensures
            r == Some(UserRole::User) <==> tag@ == "user"@,
            r == Some(UserRole::Admin) <==> tag@ == "admin"@,
            r is Some <==> tag@ == "user"@ || tag@ == "admin"@,
    {
        proof {
            // The two tokens differ, so at most one branch can match.
            reveal_strlit("user");
            reveal_strlit("admin");
            assert("user"@.len() != "admin"@.len());
        }
        if str_eq(tag, "user") {
            Some(UserRole::User)
        } else if str_eq(tag, "admin") {
            Some(UserRole::Admin)
        } else {
            None
        }
    }
}

/// The canonical user record. The identifier is carried in its string form;
/// timestamps are carried as seconds since the Unix epoch. The password
/// field holds only an opaque hash, never a plaintext password.
#[derive(Debug, Clone)]
pub struct User {
    pub id: String,
    pub name: String,
    pub email: String,
    pub password: String,
    pub role: UserRole,
    pub verified: bool,
    pub verification_code: Option<String>,
    pub token_expires_at: Option<i64>,
    pub created_at: i64,
    pub updated_at: i64,
}

impl User {
    /// Record invariant: a pending verification code and its expiry are
    /// present together or absent together, and the update timestamp never
    /// precedes the creation timestamp.
    pub open spec fn wf(self) -> bool {
        &&& self.verification_code is Some <==> self.token_expires_at is Some
        &&& self.created_at <= self.updated_at
    }
}

} // verus!
