//! The error taxonomy of the downloader.
//!
//! Every failure of the downloader is one of four conditions: a non-success
//! HTTP status, a network-level failure, a filesystem failure, or a
//! byte-count mismatch found after a bulk transfer. Each carries the plain
//! data that names the condition; `message` renders the single
//! human-readable string that callers surface.

use vstd::prelude::*;

verus! {

use vstd::string::*;

use crate::digits::{dec_digits, decimal_string};

/// One failure condition of a download, size probe or deletion.
#[derive(Debug, PartialEq, Eq)]
pub enum DownloadError {
    /// The server answered with a non-success (non-2xx) HTTP status.
    Status { code: u16 },
    /// A connection, TLS or protocol failure, carried as the underlying
    /// error's text.
    Network { detail: String },
    /// A directory, file or removal failure, carried as the underlying
    /// error's text.
    Filesystem { detail: String },
    /// A bulk transfer wrote a number of bytes different from the size the
    /// server declared.
    SizeMismatch { expected: u64, actual: u64 },
}

impl DownloadError {
    /// The characters of the human-readable message for this error.
    pub open spec fn spec_message(self) -> Seq<char> {
        match self {
            DownloadError::Status { code } => "failed to download file: status "@ + dec_digits(
                code as nat,
            ),
            DownloadError::Network { detail } => detail@,
            DownloadError::Filesystem { detail } => detail@,
            DownloadError::SizeMismatch { expected, actual } => "couldn't complete download: expected "@
                + dec_digits(expected as nat) + " bytes, got "@ + dec_digits(actual as nat)
                + " bytes"@,
        }
    }

    /// Render the single human-readable message that callers surface.
    pub fn message(&self) -> (r: String)
        ensures
            r@ == self.spec_message(),
    {
        match self {
            DownloadError::Status { code } => {
                let head = String::from_str("failed to download file: status ");
                let num = decimal_string(*code as u64);
                head.concat(num.as_str())
            },
            DownloadError::Network { detail } => detail.clone(),
            DownloadError::Filesystem { detail } => detail.clone(),
            DownloadError::SizeMismatch { expected, actual } => {
                let head = String::from_str("couldn't complete download: expected ");
                let exp = decimal_string(*expected);
                let act = decimal_string(*actual);
                head.concat(exp.as_str()).concat(" bytes, got ").concat(act.as_str()).concat(
                    " bytes",
                )
            },
        }
    }
}

} // verus!
