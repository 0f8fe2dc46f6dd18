//! The outcome of the file-deletion utility.
//!
//! Deleting a path that holds no file is a no-op reported as `false`, not
//! an error; deleting an existing file reports `true`; only a filesystem
//! failure during removal is an error. The caller performs the existence
//! check and the removal itself and feeds their outcomes in as plain
//! values.

use vstd::prelude::*;

verus! {

use crate::error::DownloadError;

/// What a deletion yields: `false` for a path that held no file, `true`
/// for a removed file, and a `Filesystem` error when the removal failed.
pub open spec fn spec_delete_outcome(existed: bool, removal_error: Option<String>) -> Result<
    bool,
    DownloadError,
> {
    if !existed {
        Ok(false)
    } else {
        match removal_error {
            None => Ok(true),
            Some(detail) => Err(DownloadError::Filesystem { detail }),
        }
    }
}

/// Decide the result of a deletion, from whether a file existed at the
/// path and, if one did, whether removing it failed (`Some` carries the
/// underlying error's text).
pub fn delete_outcome(existed: bool, removal_error: Option<String>) -> (r: Result<
    bool,
    DownloadError,
>)
    requires
        !existed ==> removal_error is None,
    ensures
        r == spec_delete_outcome(existed, removal_error),
        !existed ==> r == Result::<bool, DownloadError>::Ok(false),
{
    if !existed {
        Ok(false)
    } else {
        match removal_error {
            None => Ok(true),
            Some(detail) => Err(DownloadError::Filesystem { detail }),
        }
    }
}

} // verus!
