//! Decisions behind a handle that is either a named file or a standard stream.
//!
//! The path `-` stands for the standard stream of the direction at hand; any
//! other path names a file. This crate decides which resource a path selects,
//! how a file is opened for it, and drives the whole-buffer read and write
//! loops over the events that the underlying stream reports.
pub mod reader;
pub mod sentinel;
pub mod writer;
