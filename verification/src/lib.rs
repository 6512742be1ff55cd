//! A verified core for a small CRUD service over a single "post" resource.
//!
//! The library models the posts table as an in-memory repository with a
//! mathematical view, proves the data-access operations against that view,
//! and provides the handler-level decision logic (parameter defaults,
//! pagination arithmetic, HTTP status selection) as verified functions.

pub mod laws;
pub mod post;
pub mod routes;
pub mod store;
