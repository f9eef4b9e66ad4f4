//! A session-scoped text recorder: it derives a base name from a path once,
//! names one output file per session as "{base}_rec{suffix}.txt", normalizes
//! appended lines, and accounts the bytes written to the current file. The
//! caller owns the file handle and the I/O; this crate holds the state
//! machine and its rules.

pub mod pathname;
pub mod recorder;
pub mod text;

pub use recorder::Recorder;
