//! The posts that are not published yet.

use vstd::prelude::*;
use vstd::string::StringExecFns;

use crate::api::error::Error;

verus! {

/// Why reading a row failed: no row matched, or the database failed with the
/// given description.
pub enum FetchFailure {
    RowNotFound,
    Other(String),
}

/// The error answered when a draft cannot be read: "not found" where no
/// draft matched, and a database error otherwise.
pub fn fetch_error(failure: FetchFailure) -> (r: Error)
    ensures
        match failure {
            FetchFailure::RowNotFound => r matches Error::NotFound(t) && t@ == "Draft not found"@,
            FetchFailure::Other(d) => r matches Error::DatabaseError(t) && t@ == d@,
        },
{
    match failure {
        FetchFailure::RowNotFound => Error::NotFound(String::from_str("Draft not found")),
        FetchFailure::Other(description) => Error::DatabaseError(description),
    }
}

} // verus!
