//! A small blog service: its error answers, its access tokens, its request
//! log and the records that its endpoints read and write.

pub mod api;
pub mod service;
pub mod text;
