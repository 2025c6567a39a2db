//! Synchronizes a locally authored document with a page of a remote wiki.
//!
//! The library holds the decisions: which remote request comes next, what
//! payload it carries, and how each reply maps to an outcome or an error.
//! Performing the requests is left to the caller, one request at a time.
pub mod error;
pub mod text;
pub mod content;
pub mod json;
pub mod confluence;
pub mod ops;
