//! Core of a small HTTP image server: path validation, cache-key
//! construction, and the per-request decision logic that orders a cache
//! lookup, a filesystem fallback, and a background cache write.
//!
//! The surrounding process (the HTTP listener, the key-value store
//! connection, the filesystem reads) performs the I/O and drives the
//! step functions in [`handler`]; everything decided here is verified.

pub mod handler;
pub mod validate;
