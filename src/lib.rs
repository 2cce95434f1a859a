//! Extraction core for gzip-compressed tar packages whose top-level entries
//! each hold a `pathname` file and an `asset` file.
//!
//! Everything here is free of filesystem access: the decisions about which
//! entries to write, where to write them, and how to move their bytes are
//! made over plain values and proved against their contracts.
pub mod sanitize;
pub mod path;
pub mod entry;
pub mod error;
pub mod transfer;
pub mod report;
