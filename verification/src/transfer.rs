//! Admission and completion decisions of a transfer.
//!
//! The fetcher side of a download admits a response by its HTTP status;
//! the writer side checks, for a bulk transfer, that the byte count
//! matches the size the server declared. Streaming transfers perform no
//! final length check: the two modes diverge on purpose, and
//! `lemma_mode_divergence` states that divergence as a proved law.

use vstd::prelude::*;

verus! {

use crate::error::DownloadError;

/// Whether an HTTP status code is a success (2xx) code.
pub open spec fn is_success_code(code: u16) -> bool {
    200 <= code < 300
}

/// What admitting a response by its status code yields.
pub open spec fn spec_status_check(code: u16) -> Result<(), DownloadError> {
    if is_success_code(code) {
        Ok(())
    } else {
        Err(DownloadError::Status { code })
    }
}

/// Admit or reject a response by its HTTP status code.
///
/// Succeeds exactly on 2xx codes; any other code is rejected with a
/// `Status` error naming the code, before any byte is handled.
pub fn check_status(code: u16) -> (r: Result<(), DownloadError>)
    ensures
        r == spec_status_check(code),
{
    if 200 <= code && code < 300 {
        Ok(())
    } else {
        Err(DownloadError::Status { code })
    }
}

/// What checking a finished bulk transfer against a declared size yields:
/// with no declared size the check is skipped; with one, a differing byte
/// count is an error naming both counts.
pub open spec fn spec_bulk_check(declared: Option<u64>, actual: u64) -> Result<
    (),
    DownloadError,
> {
    match declared {
        None => Ok(()),
        Some(expected) => if expected == actual {
            Ok(())
        } else {
            Err(DownloadError::SizeMismatch { expected, actual })
        },
    }
}

/// Check a finished bulk transfer against the size the server declared.
pub fn verify_bulk_size(declared: Option<u64>, actual: u64) -> (r: Result<(), DownloadError>)
    ensures
        r == spec_bulk_check(declared, actual),
{
    match declared {
        None => Ok(()),
        Some(expected) => {
            if expected == actual {
                Ok(())
            } else {
                Err(DownloadError::SizeMismatch { expected, actual })
            }
        },
    }
}

/// The two transfer modes, each with its own completion contract.
#[derive(Debug, Clone, Copy, PartialEq, Eq, Structural)]
pub enum TransferMode {
    /// Whole-body transfer with a single post-hoc length check.
    Bulk,
    /// Chunked transfer with per-chunk progress reporting and no
    /// post-hoc length check.
    Streaming,
}

/// What completing a transfer of `actual` bytes yields in each mode: a
/// bulk transfer must match a declared size, a streaming transfer
/// completes once the body is exhausted, whatever the count.
pub open spec fn spec_completion_check(
    mode: TransferMode,
    declared: Option<u64>,
    actual: u64,
) -> Result<(), DownloadError> {
    match mode {
        TransferMode::Bulk => spec_bulk_check(declared, actual),
        TransferMode::Streaming => Ok(()),
    }
}

/// Decide whether a finished transfer of `actual` bytes completes
/// successfully, given the mode and the size the server declared.
///
/// The divergence between the modes is deliberate and part of the
/// design; `lemma_mode_divergence` states it.
pub fn completion_check(mode: TransferMode, declared: Option<u64>, actual: u64) -> (r: Result<
    (),
    DownloadError,
>)
    ensures
        r == spec_completion_check(mode, declared, actual),
{
    match mode {
        TransferMode::Streaming => Ok(()),
        TransferMode::Bulk => verify_bulk_size(declared, actual),
    }
}

/// What a size-probe response yields: the declared length on a success
/// status (0 when the server declared none), a `Status` error otherwise.
pub open spec fn spec_size_probe(code: u16, content_length: Option<u64>) -> Result<
    u64,
    DownloadError,
> {
    if is_success_code(code) {
        Ok(
            match content_length {
                Some(n) => n,
                None => 0u64,
            },
        )
    } else {
        Err(DownloadError::Status { code })
    }
}

/// Interpret a size-probe response: the declared content length of the
/// resource at a URL.
///
/// An absent content length is not an error: it reads as 0.
pub fn interpret_size_probe(code: u16, content_length: Option<u64>) -> (r: Result<
    u64,
    DownloadError,
>)
    ensures
        r == spec_size_probe(code, content_length),
{
    match check_status(code) {
        Err(e) => Err(e),
        Ok(()) => match content_length {
            Some(n) => Ok(n),
            None => Ok(0),
        },
    }
}

/// A bulk transfer that completes successfully against a declared size
/// transferred exactly that many bytes.
pub proof fn lemma_bulk_success_is_exact(expected: u64, actual: u64)
    requires
        spec_bulk_check(Some(expected), actual) is Ok,
    ensures
        actual == expected,
{
}

/// A bulk transfer whose byte count differs from the declared size fails
/// with an error carrying both counts, and never fails on equal counts.
pub proof fn lemma_bulk_mismatch_carries_both_counts(expected: u64, actual: u64)
    ensures
        actual != expected ==> spec_bulk_check(Some(expected), actual) == Result::<
            (),
            DownloadError,
        >::Err(DownloadError::SizeMismatch { expected, actual }),
        actual == expected ==> spec_bulk_check(Some(expected), actual) == Result::<
            (),
            DownloadError,
        >::Ok(()),
{
}

/// A size probe on a success response whose server declared no content
/// length yields 0, not an error.
pub proof fn lemma_size_probe_absent_length_is_zero(code: u16)
    requires
        is_success_code(code),
    ensures
        spec_size_probe(code, None) == Result::<u64, DownloadError>::Ok(0u64),
{
}

/// A non-success status rejects both a download and a size probe with a
/// `Status` error naming the code, before any byte is handled.
pub proof fn lemma_non_success_is_rejected(code: u16, content_length: Option<u64>)
    requires
        !is_success_code(code),
    ensures
        spec_status_check(code) == Result::<(), DownloadError>::Err(DownloadError::Status { code }),
        spec_size_probe(code, content_length) == Result::<u64, DownloadError>::Err(
            DownloadError::Status { code },
        ),
{
}

/// The two modes diverge at completion: a streaming transfer always
/// completes once the body is exhausted, while a bulk transfer is held
/// to the declared size. On a short or long body with a declared size,
/// bulk fails where streaming succeeds.
pub proof fn lemma_mode_divergence(declared: Option<u64>, actual: u64)
    ensures
        spec_completion_check(TransferMode::Streaming, declared, actual) == Result::<
            (),
            DownloadError,
        >::Ok(()),
        spec_completion_check(TransferMode::Bulk, declared, actual) == spec_bulk_check(
            declared,
            actual,
        ),
{
}

} // verus!
