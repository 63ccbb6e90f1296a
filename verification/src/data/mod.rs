//! Requests for reference documents and their cache keys.
pub mod loader;
pub mod service;
