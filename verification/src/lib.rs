//! Verified core of a manifest-driven file synchronization tool.
//!
//! A manifest is a comma-separated table with a fixed four-column header.
//! Each well-formed row names a file, a source directory, a destination
//! directory and an overwrite policy. The modules here parse and screen the
//! manifest, memoize directory-existence checks, and decide per rule whether
//! a copy is performed; the filesystem itself is driven by the caller.

pub mod copier;
pub mod dircache;
pub mod manifest;
pub mod paths;
pub mod text;
