//! The records that the endpoints read and answer with.

pub mod account;
pub mod drafts;
pub mod posts;
pub mod profile;
pub mod users;

use vstd::prelude::*;
use vstd::string::StringExecFns;

verus! {

/// The secret with which the service signs its tokens.
pub struct JwtExt {
    pub secret: String,
}

/// A post in full.
pub struct Post {
    pub id: i64,
    pub title: String,
    pub post: String,
    pub created_at: time::OffsetDateTime,
    pub updated_at: time::OffsetDateTime,
    pub published_at: Option<time::OffsetDateTime>,
}

/// A post as a list shows it.
pub struct ListPost {
    pub id: i64,
    pub title: String,
    pub posted_at: Option<time::OffsetDateTime>,
}

/// A page of posts, and how many posts there are in all.
pub struct Posts {
    posts: Vec<ListPost>,
    count: i64,
}

/// Which page of a list to answer with: how many entries to skip and how
/// many to give at most.
pub struct Pagination {
    pub offset: i64,
    pub limit: i64,
}

impl JwtExt {
    /// The signing secret of the service.
    pub fn new(secret: &str) -> (r: JwtExt)
        ensures
            r.secret@ == secret@,
    {
        JwtExt { secret: String::from_str(secret) }
    }
}

impl Posts {
    /// A page of posts with the total that the database counted; where the
    /// database gave no count, the total is zero.
    pub fn new(posts: Vec<ListPost>, count: Option<i64>) -> (r: Posts)
        ensures
            r.posts() == posts,
            r.count() == match count {
                Some(n) => n,
                None => 0,
            },
    {
        let count = match count {
            Some(n) => n,
            None => 0,
        };
        Posts { posts, count }
    }

    /// The posts of the page.
    pub closed spec fn posts(&self) -> Vec<ListPost> {
        self.posts
    }

    /// The number of posts in all.
    pub closed spec fn count(&self) -> i64 {
        self.count
    }

    /// The posts of the page and the total, taken apart.
    pub fn into_parts(self) -> (r: (Vec<ListPost>, i64))
        ensures
            r.0 == self.posts(),
            r.1 == self.count(),
    {
        (self.posts, self.count)
    }
}

impl Default for Pagination {
    /// The first page, of no entries.
    fn default() -> (r: Pagination)
        ensures
            r.offset == 0,
            r.limit == 0,
    {
        Pagination { offset: 0, limit: 0 }
    }
}

} // verus!
