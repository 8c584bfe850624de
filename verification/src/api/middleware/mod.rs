//! Middleware of the HTTP service.

pub mod console;
pub mod json;
