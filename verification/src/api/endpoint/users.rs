//! The public page of a user.

use vstd::prelude::*;

verus! {

/// What the users endpoint tells of a user.
pub struct User {
    pub username: String,
    pub first_name: String,
    pub last_name: String,
}

} // verus!
