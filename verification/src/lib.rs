//! Verified core of a process-wide logging initializer.
//!
//! The crate models the decisions a logging bootstrap makes — parsing a
//! severity threshold, naming daily-rotated log files, laying out record
//! lines, and installing a process-wide sink at most once — and proves each
//! of them against an explicit specification. The surrounding I/O (opening
//! the rotating file sink, spawning the background flush worker, registering
//! the global logger) stays outside the verified core and consumes the
//! decisions made here.

pub mod error;
pub mod format;
pub mod init;
pub mod level;
pub mod rotation;
