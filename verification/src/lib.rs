//! Indexes a messaging application's on-disk asset cache (avatars, per-user
//! stickers, per-user images) into an in-memory model, and computes the exact
//! sequence of directory-creation and file-copy steps that materializes the
//! model into a browsable output tree, normalizing extensionless file names
//! to `.jpg`.
//!
//! All filesystem traversal and copying is left to the surrounding binary;
//! this crate works on plain path strings and is fully verified.

pub mod cache;
pub mod output;
pub mod paths;
pub mod replay;
