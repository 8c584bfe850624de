//! What the posts endpoints answer with.

use vstd::prelude::*;

verus! {

/// The id of a post that was just written.
pub struct PostId {
    pub id: i64,
}

/// A post in full.
pub struct Post {
    pub id: i64,
    pub title: String,
    pub post: String,
    pub created_at: time::OffsetDateTime,
    pub updated_at: time::OffsetDateTime,
    pub published_at: Option<time::OffsetDateTime>,
}

} // verus!
