//! What a client sends to change its profile.

use vstd::prelude::*;

verus! {

/// The fields of a profile that its owner can change.
pub struct Profile {
    pub first_name: String,
    pub last_name: String,
    pub email: String,
    pub telegram: String,
    pub location: String,
    pub bio: String,
}

/// A new password.
pub struct Password {
    pub password: String,
}

} // verus!
