//! Verified core of an image writer: pre-flight device validation, a chunked
//! copy loop with throttled progress reporting, and a post-copy byte-exact
//! verification pass.
//!
//! The library works on plain values: streams are byte slices, the mount
//! table is the text read from the host, and clock readings are millisecond
//! counts supplied by the caller. All file and device I/O stays outside.

pub mod device;
pub mod error;
pub mod progress;
pub mod session;
pub mod writer;

pub use error::WriterError;
