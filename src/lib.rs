//! Data-access core of a small blog service: users, posts and comments held in
//! a relational store with uniqueness and foreign-key invariants, a closed
//! taxonomy of failures, a deferred-result handle for work run off the
//! request-serving context, and the uniform response envelope.
pub mod model;
pub mod errors;
pub mod store;
pub mod bridge;
pub mod response;
pub mod laws;
