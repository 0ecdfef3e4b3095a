//! User identity records and their user-safe projection.

use vstd::prelude::*;

use crate::credentials::{bcrypt_matches, hash_password};
use crate::errors::AppError;
use crate::util::new_object_id;

verus! {

/// A user's role. Unknown labels are a client-input error and are rejected by
/// `parse`, never a fatal condition.
#[derive(Clone, Copy, Debug, PartialEq, Eq, Structural)]
pub enum Role {
    Admin,
    User,
}

impl Role {
    /// Parse a stored or transmitted role label.
    pub fn parse(s: &String) -> (r: Option<Role>)
        ensures
            (s@ == "admin"@ || s@ == "Admin"@) ==> r == Some(Role::Admin),
            (s@ == "user"@ || s@ == "User"@) ==> r == Some(Role::User),
            (s@ != "admin"@ && s@ != "Admin"@ && s@ != "user"@ && s@ != "User"@) ==> r is None,
    {
        proof {
            reveal_strlit("admin");
            reveal_strlit("Admin");
            reveal_strlit("user");
            reveal_strlit("User");
            // The role labels have different lengths or first characters, so
            // at most one comparison below can succeed.
            assert("admin"@.len() == 5 && "Admin"@.len() == 5);
            assert("user"@.len() == 4 && "User"@.len() == 4);
        }
        let c1 = *s == String::from_str("admin");
        let c2 = *s == String::from_str("Admin");
        let c3 = *s == String::from_str("user");
        let c4 = *s == String::from_str("User");
        if c1 || c2 {
            Some(Role::Admin)
        } else if c3 || c4 {
            Some(Role::User)
        } else {
            None
        }
    }

    /// The canonical stored label of this role.
    pub fn label(&self) -> (r: String)
        ensures
            *self == Role::Admin ==> r@ == "admin"@,
            *self == Role::User ==> r@ == "user"@,
    {
        match self {
            Role::Admin => String::from_str("admin"),
            Role::User => String::from_str("user"),
        }
    }
}

/// A user identity record. The authentication core reads it and creates it at
/// registration; profile updates are the persistence layer's concern.
pub struct User {
    pub id: String,
    pub email: String,
    pub pass: String,
    pub role: Role,
    pub active: bool,
    pub activities: Vec<(String, String)>,
    pub verified: bool,
    pub given_name: String,
    pub family_name: String,
    pub img: String,
    pub created_at: u64,
    pub v: u32,
}

impl User {
    /// A fresh user record: what is stored for the password is a 60-character
    /// bcrypt hash, never the plaintext; the role defaults to `User`, the
    /// account starts active and unverified. The only possible failure is the
    /// salted hash's entropy draw.
    pub fn new(email: String, pass: String, given_name: String, family_name: String, now: u64) -> (r:
        Result<Self, AppError>)
        ensures
            r matches Ok(u) ==> ({
                &&& u.email == email
                &&& bcrypt_matches(pass@, u.pass@)
                &&& u.pass@.len() == 60
                &&& u.pass@[0] == '$'
                &&& u.role == Role::User
                &&& u.active
                &&& !u.verified
                &&& u.activities@.len() == 0
                &&& u.given_name == given_name
                &&& u.family_name == family_name
                &&& u.img@.len() == 0
                &&& u.created_at == now
                &&& u.v == 1
                &&& u.id@.len() == 24
            }),
            r matches Err(e) ==> e.code == 500 && e.message@ == "failed to create user"@,
    {
        match hash_password(&pass) {
            Some(hash) => Ok(
                User {
                    id: new_object_id(),
                    email,
                    pass: hash,
                    role: Role::User,
                    active: true,
                    activities: Vec::new(),
                    verified: false,
                    given_name,
                    family_name,
                    img: String::new(),
                    created_at: now,
                    v: 1,
                },
            ),
            None => Err(AppError::new(500, String::from_str("failed to create user"))),
        }
    }
}

/// The user-safe projection returned by the route surface: everything except
/// the password hash and bookkeeping fields.
pub struct UserResponse {
    pub id: String,
    pub email: String,
    pub role: Role,
    pub activities: Vec<(String, String)>,
    pub verified: bool,
    pub given_name: String,
    pub family_name: String,
    pub img: String,
}

/// The projection of a user record into its user-safe response.
pub open spec fn user_response_of(u: User) -> UserResponse {
    UserResponse {
        id: u.id,
        email: u.email,
        role: u.role,
        activities: u.activities,
        verified: u.verified,
        given_name: u.given_name,
        family_name: u.family_name,
        img: u.img,
    }
}

impl vstd::std_specs::convert::FromSpecImpl<User> for UserResponse {
    open spec fn obeys_from_spec() -> bool {
        true
    }

    open spec fn from_spec(u: User) -> UserResponse {
        user_response_of(u)
    }
}

impl From<User> for UserResponse {
    fn from(u: User) -> (r: UserResponse) {
        UserResponse {
            id: u.id,
            email: u.email,
            role: u.role,
            activities: u.activities,
            verified: u.verified,
            given_name: u.given_name,
            family_name: u.family_name,
            img: u.img,
        }
    }
}

/// The payload accepted at registration.
pub struct RegisterUserPayload {
    pub email: String,
    pub pass: String,
    pub given_name: String,
    pub family_name: String,
}

} // verus!
