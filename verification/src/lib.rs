//! A verified core for a progress-reporting file downloader.
//!
//! The crate holds the decision and accounting logic of a downloader:
//! HTTP status admission, declared-size verification for bulk transfers,
//! per-chunk progress accounting for streaming transfers, and the
//! rendering of error messages. All network and filesystem work is left
//! to the caller, which feeds plain values (status codes, byte counts,
//! chunk lengths) into the functions here.

pub mod digits;
pub mod error;
pub mod path_name;
pub mod progress;
pub mod removal;
pub mod transfer;
