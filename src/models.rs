//! Plain data handed between the server and the library.

use vstd::prelude::*;

verus! {

/// Process configuration, read once at startup.
pub struct Config {
    pub database_url: String,
    /// The token signing secret; never rotated while the process runs.
    pub jwt_secret: String,
    pub port: u16,
}

/// Body of a registration request.
pub struct RegisterPayload {
    pub email: String,
    pub password: String,
}

/// Body of a login request.
pub struct LoginPayload {
    pub email: String,
    pub password: String,
}

} // verus!
