//! An in-process, single-writer / multi-reader, append-only byte buffer.
//!
//! Bytes appended through a [`buffer::Buffer`] become visible to any number of
//! independent [`buffer::Reader`] cursors. Storage grows by replacement: a full
//! block is superseded by a larger one whose readable prefix is byte-identical,
//! so a cursor never observes bytes lost, duplicated, or reordered across a
//! growth boundary.

pub mod buffer;
pub mod laws;
