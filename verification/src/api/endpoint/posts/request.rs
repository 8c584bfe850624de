//! What a client sends to write a post.

use vstd::prelude::*;

verus! {

/// The title and the text of a post.
pub struct Post {
    pub title: String,
    pub post: String,
}

} // verus!
