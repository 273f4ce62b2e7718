use vstd::prelude::*;

verus! {

/// A stored account. Identifiers are the 128-bit values of UUIDs, dates are
/// days counted from 1 January of year 1 (day 1), and instants are
/// microseconds since the Unix epoch.
pub struct User {
    pub id: u128,
    pub username: String,
    pub email: String,
    pub name: Option<String>,
    pub password_hash: String,
    pub birthday: Option<i32>,
    pub created_at: i64,
}

/// What a client sends to open an account.
pub struct RegisterUser {
    pub username: String,
    pub email: String,
    pub name: Option<String>,
    pub password: String,
    pub birthday: Option<i32>,
}

/// What a client sends to log in.
pub struct LoginUser {
    pub username: String,
    pub password: String,
}

/// The fields a client may change on its own account; absent fields stay.
pub struct UpdateUser {
    pub username: Option<String>,
    pub email: Option<String>,
    pub name: Option<String>,
    pub password: Option<String>,
    pub birthday: Option<i32>,
}

/// An account as shown to clients: everything but the password hash.
pub struct UserResponse {
    pub id: u128,
    pub username: String,
    pub email: String,
    pub name: Option<String>,
    pub birthday: Option<i32>,
    pub created_at: i64,
}

impl UserResponse {
    /// The public view of an account.
    pub open spec fn of(user: User) -> UserResponse {
        UserResponse {
            id: user.id,
            username: user.username,
            email: user.email,
            name: user.name,
            birthday: user.birthday,
            created_at: user.created_at,
        }
    }
}

impl From<User> for UserResponse {
    fn from(user: User) -> (r: UserResponse) {
        UserResponse {
            id: user.id,
            username: user.username,
            email: user.email,
            name: user.name,
            birthday: user.birthday,
            created_at: user.created_at,
        }
    }
}

impl vstd::std_specs::convert::FromSpecImpl<User> for UserResponse {
    open spec fn obeys_from_spec() -> bool {
        true
    }

    open spec fn from_spec(user: User) -> UserResponse {
        UserResponse::of(user)
    }
}

} // verus!
