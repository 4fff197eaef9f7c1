//! Accounts and their roles.

use vstd::prelude::*;
use crate::error::Error;

verus! {

/// An account. Identifiers are 128-bit UUID values; times are Unix seconds.
#[derive(Debug, Clone)]
pub struct User {
    pub id: u128,
    pub name: String,
    pub email: String,
    pub password: String,
    pub role: String,
    pub verified: bool,
    pub created_at: Option<i64>,
    pub updated_at: Option<i64>,
    pub password_rev: u128,
}

impl User {
    /// Whether the account's role is one of `roles`.
    pub fn has_role(&self, roles: &[&str]) -> (r: bool)
        ensures
            r == exists|i: int| 0 <= i < roles@.len() && (#[trigger] roles@[i])@ == self.role@,
    {
        let mut i: usize = 0;
        while i < roles.len()
            invariant
                i <= roles@.len(),
                forall|j: int| 0 <= j < i ==> (#[trigger] roles@[j])@ != self.role@,
            decreases roles@.len() - i,
        {
            let candidate = String::from_str(roles[i]);
            if candidate == self.role {
                return true;
            }
            i = i + 1;
        }
        false
    }

    /// Whether the account is an administrator.
    pub fn is_admin(&self) -> (r: bool)
        ensures
            r == (self.role@ == "admin"@),
    {
        self.has_role(&["admin"])
    }

    /// Whether the account is an ordinary user.
    pub fn is_user(&self) -> (r: bool)
        ensures
            r == (self.role@ == "user"@),
    {
        self.has_role(&["user"])
    }

    /// Whether the account is a moderator.
    pub fn is_moderator(&self) -> (r: bool)
        ensures
            r == (self.role@ == "moderator"@),
    {
        self.has_role(&["moderator"])
    }

    /// Whether the account's address has been verified.
    pub fn is_verified(&self) -> (r: bool)
        ensures
            r == self.verified,
    {
        self.verified
    }
}

/// A sign-up request.
pub struct RegisterUserSchema {
    pub name: String,
    pub email: String,
    pub password: String,
}

/// A sign-in request.
pub struct LoginUserSchema {
    pub email: String,
    pub password: String,
}

/// A new password for the signed-in account.
pub struct UpdatePasswordSchema {
    pub password: String,
}

/// An account to create.
pub struct CreateUser {
    pub name: String,
    pub email: String,
    pub password: String,
    pub role: String,
    pub verified: bool,
}

/// New name and address for the signed-in account.
pub struct UpdateUser {
    pub name: String,
    pub email: String,
}

/// A full account update, as stored.
pub struct UpdateUserData {
    pub name: String,
    pub email: String,
    pub role: String,
    pub verified: bool,
    pub id: String,
}

/// A full account update requested by an administrator.
pub struct ForceUpdateUser {
    pub name: String,
    pub email: String,
    pub role: String,
    pub verified: bool,
    pub id: String,
}

/// The claims of a session token.
pub struct JwtUser {
    pub id: String,
    pub password_rev: String,
}

/// An account as shown to clients, without its password hash.
pub struct FilteredUser {
    pub id: String,
    pub name: String,
    pub email: String,
    pub role: String,
    pub verified: bool,
}

/// Access to the accounts.
pub struct UserPDO;

impl UserPDO {
    /// The account a sign-up creates: the given role, `user` when none is
    /// given, and not yet verified.
    pub fn registration(schema: RegisterUserSchema, role: Option<&str>) -> (r: CreateUser)
        ensures
            r.name == schema.name,
            r.email == schema.email,
            r.password == schema.password,
            r.role@ == match role {
                Some(s) => s@,
                None => "user"@,
            },
            !r.verified,
    {
        let role = match role {
            Some(s) => String::from_str(s),
            None => String::from_str("user"),
        };
        CreateUser {
            name: schema.name,
            email: schema.email,
            password: schema.password,
            role,
            verified: false,
        }
    }

    /// The outcome of a sign-in, given the account found under the address
    /// and whether the password matched its hash.
    pub fn login_outcome(found: Option<User>, password_verified: bool) -> (r: Result<User, Error>)
        ensures
            match found {
                None => r matches Err(e) && e.0@ == "Invald email or password"@,
                Some(u) => if password_verified {
                    r == Ok::<User, Error>(u)
                } else {
                    r matches Err(e) && e.0@ == "Invalid password"@
                },
            },
    {
        match found {
            None => Err(Error(String::from_str("Invald email or password"))),
            Some(u) => {
                if password_verified {
                    Ok(u)
                } else {
                    Err(Error(String::from_str("Invalid password")))
                }
            },
        }
    }
}

} // verus!
