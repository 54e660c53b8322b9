//! An in-memory store of blog posts: an append-only, ordered collection
//! with a single validation rule, plus proofs that ids are assigned in
//! insertion order and that listing reproduces the store exactly.

pub mod post;
pub mod store;
