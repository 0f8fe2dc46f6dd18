//! Progress accounting for streaming transfers.
//!
//! A streaming transfer reads the body chunk by chunk; for each chunk the
//! tracker adds its length to a running total and yields a progress event
//! carrying the running total, the declared total, the exact percentage as
//! a ratio of integers, and the destination's base name. The tracker keeps
//! a ghost history of the running totals it has emitted, so that their
//! monotonicity is a proved invariant, not a hope.

use vstd::prelude::*;

verus! {

use vstd::string::*;

use crate::path_name::{base_name, file_name_of};

/// One progress observation of a streaming transfer.
#[derive(Debug, PartialEq, Eq)]
pub struct ProgressEvent {
    /// Bytes transferred so far, this chunk included.
    pub downloaded: u64,
    /// The size the server declared, or 0 when it declared none.
    pub total: u64,
    /// The base name of the destination path.
    pub file_name: String,
}

/// The percentage a progress report stands for, as the exact ratio
/// `numerator / denominator`: `100 * downloaded / total` under a declared
/// total, and zero (`0 / 1`) when none was declared (`total == 0`).
pub open spec fn spec_percentage_ratio(downloaded: u64, total: u64) -> (u128, u64) {
    if total > 0 {
        ((100 * downloaded) as u128, total)
    } else {
        (0u128, 1u64)
    }
}

impl ProgressEvent {
    /// The percentage of the transfer this event reports, as the exact
    /// ratio `numerator / denominator`.
    pub fn percentage_ratio(&self) -> (r: (u128, u64))
        ensures
            r == spec_percentage_ratio(self.downloaded, self.total),
    {
        if self.total > 0 {
            (100 * self.downloaded as u128, self.total)
        } else {
            (0, 1)
        }
    }
}

/// The running account of one streaming transfer.
pub struct ProgressTracker {
    /// Bytes transferred so far.
    pub downloaded: u64,
    /// The size the server declared, or 0 when it declared none.
    pub total: u64,
    /// The base name of the destination path, carried on every event.
    pub file_name: String,
    /// The running totals of the events yielded so far, oldest first.
    pub history: Ghost<Seq<u64>>,
}

impl ProgressTracker {
    /// The tracker's invariant: the yielded running totals grow strictly,
    /// and the last of them is the current byte count.
    pub open spec fn well_formed(self) -> bool {
        &&& forall|i: int, j: int|
            0 <= i < j < self.history@.len() ==> self.history@[i] < self.history@[j]
        &&& self.history@.len() == 0 ==> self.downloaded == 0
        &&& self.history@.len() > 0 ==> self.history@.last() == self.downloaded
    }

    /// Start the account of a transfer to `dest_path` whose response
    /// declared `declared` as its size (`None` for no declaration).
    pub fn new(declared: Option<u64>, dest_path: &str) -> (t: ProgressTracker)
        ensures
            t.well_formed(),
            t.downloaded == 0,
            t.total == (match declared {
                Some(d) => d,
                None => 0,
            }),
            t.file_name@ == base_name(dest_path@),
            t.history@ == Seq::<u64>::empty(),
    {
        let total = match declared {
            Some(d) => d,
            None => 0,
        };
        ProgressTracker {
            downloaded: 0,
            total,
            file_name: file_name_of(dest_path),
            history: Ghost(Seq::empty()),
        }
    }

    /// Account one chunk of `chunk_len` bytes and yield the event to
    /// report for it.
    ///
    /// The running total grows by exactly the chunk's length, the event
    /// carries the new running total, the declared total and the file
    /// name, and the event is recorded in the history.
    pub fn record_chunk(&mut self, chunk_len: u64) -> (e: ProgressEvent)
        requires
            old(self).well_formed(),
            chunk_len > 0,
            old(self).downloaded + chunk_len <= u64::MAX,
        ensures
            final(self).well_formed(),
            final(self).downloaded == old(self).downloaded + chunk_len,
            final(self).total == old(self).total,
            final(self).file_name == old(self).file_name,
            final(self).history@ == old(self).history@.push(
                (old(self).downloaded + chunk_len) as u64,
            ),
            e.downloaded == final(self).downloaded,
            e.total == old(self).total,
            e.file_name@ == old(self).file_name@,
    {
        self.downloaded = self.downloaded + chunk_len;
        proof {
            self.history@ = self.history@.push(self.downloaded);
        }
        ProgressEvent {
            downloaded: self.downloaded,
            total: self.total,
            file_name: self.file_name.clone(),
        }
    }

    /// Bytes transferred so far.
    pub fn downloaded(&self) -> (n: u64)
        ensures
            n == self.downloaded,
    {
        self.downloaded
    }
}

/// The running totals a well-formed tracker has yielded are strictly
/// increasing, and the last of them equals the bytes actually
/// transferred — whether or not that matches any declared total.
pub proof fn lemma_progress_monotone(t: ProgressTracker)
    requires
        t.well_formed(),
    ensures
        forall|i: int, j: int| 0 <= i < j < t.history@.len() ==> t.history@[i] < t.history@[j],
        t.history@.len() > 0 ==> t.history@.last() == t.downloaded,
{
}

} // verus!
