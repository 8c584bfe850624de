//! The HTTP side of the blog: errors, tokens, endpoints and middleware.

pub mod endpoint;
pub mod error;
pub mod extract;
pub mod jwt;
pub mod middleware;

pub use error::Error;

use vstd::prelude::*;

verus! {

/// The result type of every endpoint.
pub type Result<T> = std::result::Result<T, Error>;

} // verus!
