//! The account of the blog's owner.

use vstd::prelude::*;

verus! {

/// The owner's login and name.
pub struct User {
    pub login: String,
    pub name: String,
}

} // verus!
