//! Collects lines appended to watched files and hands them out either one at
//! a time or in debounced batches.
//!
//! The file watching itself happens outside this library; the library holds
//! the shared line buffer, the collector's decisions and the polling state
//! machine that decides when a batch is complete.

pub mod buffer;
pub mod event;
pub mod poll;
pub mod reader;
