use vstd::prelude::*;

verus! {

/// A stored user as the callers see it: the digest never leaves the store.
pub struct User {
    pub id: i32,
    pub username: String,
}

/// Input for a plain registration.
pub struct RegisterRequest {
    pub username: String,
    pub password: String,
}

/// Input for a login attempt.
pub struct LoginRequest {
    pub username: String,
    pub password: String,
}

/// Input for a registration that also records optional profile fields.
pub struct CreateUserRequest {
    pub username: String,
    pub password: String,
    pub email: Option<String>,
    pub full_name: Option<String>,
}

/// The error taxonomy of the credential store. `Database` carries a storage
/// failure verbatim; a login failure never says which factor was wrong.
#[derive(Debug)]
pub enum AuthError {
    Database(String),
    InvalidCredentials,
    UsernameTaken,
    HashingError,
}

impl AuthError {
    /// The display string handed to the command boundary.
    pub fn message(&self) -> (r: String)
        ensures
            self is InvalidCredentials ==> r@ == "Invalid credentials"@,
            self is UsernameTaken ==> r@ == "Username already exists"@,
            self is HashingError ==> r@ == "Password hashing failed"@,
            self is Database ==> r@ == "Database error: "@ + self->Database_0@,
    {
        match self {
            AuthError::Database(m) => {
                let mut s = String::from_str("Database error: ");
                s.append(m.as_str());
                s
            },
            AuthError::InvalidCredentials => String::from_str("Invalid credentials"),
            AuthError::UsernameTaken => String::from_str("Username already exists"),
            AuthError::HashingError => String::from_str("Password hashing failed"),
        }
    }
}

} // verus!
