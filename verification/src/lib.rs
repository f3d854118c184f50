//! A verified core for a caching package mirror.
//!
//! The crate holds the decision logic of a cache-aside mirror: artifact key
//! validation, the metadata record codec, the index-page rewriter, the
//! cache-aside request state machine, and the per-key single-flight table.
//! All I/O (the HTTP front end, the metadata store connection, the blob
//! files, the upstream fetches) lives outside this crate and drives the
//! state machine defined here.

pub mod coordinator;
pub mod entry;
pub mod errors;
pub mod flight;
pub mod key;
pub mod rewrite;
pub mod upstream;
