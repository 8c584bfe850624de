//! What the profile endpoints answer with.

use vstd::prelude::*;

verus! {

/// A profile in full.
pub struct Profile {
    pub username: String,
    pub first_name: String,
    pub last_name: String,
    pub email: String,
    pub telegram: String,
    pub location: String,
    pub bio: String,
}

/// A fresh access token.
pub struct Token {
    pub token: String,
}

} // verus!
