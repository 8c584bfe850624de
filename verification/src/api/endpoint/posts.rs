//! The published posts and the writing of posts.

use vstd::prelude::*;

verus! {

/// Which page of published posts to answer with.
pub struct Pagination {
    pub offset: i64,
    pub limit: i64,
}

impl Default for Pagination {
    /// The first page, of no entries.
    fn default() -> (r: Pagination)
        ensures
            r.offset == 0,
            r.limit == 0,
    {
        Pagination { offset: 0, limit: 0 }
    }
}

} // verus!

pub mod request;
pub mod response;
