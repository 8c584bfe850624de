//! The service as a whole: its configuration.

pub mod application;

pub use application::{Application, Config};
