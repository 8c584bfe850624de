//! The profile of the signed-in user.

use vstd::prelude::*;
use vstd::string::StringExecFns;

use crate::api::error::Error;
use crate::api::jwt;

verus! {

/// The user that a token issued after a profile update speaks for: the
/// signed-in user's id with the names just written.
pub fn token_user(user_id: i64, profile: &request::Profile) -> (u: jwt::User)
    ensures
        u.id == user_id,
        u.first_name@ == profile.first_name@,
        u.last_name@ == profile.last_name@,
{
    jwt::User {
        id: user_id,
        first_name: profile.first_name.clone(),
        last_name: profile.last_name.clone(),
    }
}

/// The error answered when no token can be made: an internal error that
/// tells why.
pub fn token_error(e: &jwt::Error) -> (r: Error)
    ensures
        r matches Error::InternalServerError(t) && t@ == "cannot create token: "@ + "jsonwebtoken error: "@
            + e.0@,
{
    Error::InternalServerError(String::from_str("cannot create token: ").concat(e.text().as_str()))
}

} // verus!

pub mod request;
pub mod response;
