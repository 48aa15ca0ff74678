use vstd::prelude::*;

verus! {

use crate::human::dec_str;
use crate::human::u64_to_dec;
use crate::progress::Progress;
use crate::speed::MovingAverage;
use crate::speed::Sample;
use crate::speed::recent;
use crate::speed::sum_bytes;
use crate::speed::sum_time;

// The per-URL worker protocol. A worker performs one resumable transfer
// end-to-end: pick the working filename, read the resume offset from the
// partial file's on-disk size, interpret the server's response, then account
// the streamed chunks and periodically emit a snapshot to persist. The
// surrounding runtime does the network and file traffic and feeds the plain
// values (status codes, chunk lengths, elapsed times) into these functions.

/// An error a worker surfaces to its supervisor. Transfers are never retried
/// locally; every error ends the attempt abnormally.
pub enum DownloadError {
    /// The server answered 404 for this URL.
    NotFound(String),
}

impl DownloadError {
    /// A human-readable account of the error.
    pub fn describe(&self) -> (r: String)
        ensures
            match self {
                DownloadError::NotFound(url) => r@ == "Failed to download file, it was not found: "@
                    + url@,
            },
    {
        match self {
            DownloadError::NotFound(url) => String::from_str(
                "Failed to download file, it was not found: ",
            ).concat(url.as_str()),
        }
    }
}

/// How the server's response status directs the transfer.
#[derive(Clone, Copy, Debug, PartialEq, Eq, Structural)]
pub enum TransferMode {
    /// 404: terminal for this attempt, nothing to clean up locally.
    NotFound,
    /// 206: the server honored the range request; append to the partial file.
    Resume,
    /// Any other success status: the server sent the whole file; truncate and
    /// start the local file afresh.
    Restart,
}

/// The transfer mode an HTTP status code dictates.
pub open spec fn spec_classify(status: u16) -> TransferMode {
    if status == 404 {
        TransferMode::NotFound
    } else if status == 206 {
        TransferMode::Resume
    } else {
        TransferMode::Restart
    }
}

/// Interpret the response status: 404 is terminal, 206 resumes into the
/// partial file, anything else restarts the file from empty.
pub fn classify_response(status: u16) -> (m: TransferMode)
    ensures
        m == spec_classify(status),
{
    if status == 404 {
        TransferMode::NotFound
    } else if status == 206 {
        TransferMode::Resume
    } else {
        TransferMode::Restart
    }
}

impl TransferMode {
    /// Whether the local file is opened with truncation.
    pub fn truncates(&self) -> (r: bool)
        ensures
            r == (*self is Restart),
    {
        match self {
            TransferMode::Restart => true,
            _ => false,
        }
    }

    /// Whether the local file is opened for append.
    pub fn appends(&self) -> (r: bool)
        ensures
            r == (*self is Resume),
    {
        match self {
            TransferMode::Resume => true,
            _ => false,
        }
    }
}

/// The byte offset a transfer resumes from, given the partial file's on-disk
/// size and the persisted record. The record plays no part: after an unclean
/// shutdown its counter may lag what actually reached the disk.
pub open spec fn spec_resume_offset(disk_len: Option<u64>, record: Option<Progress>) -> u64 {
    match disk_len {
        Some(l) => l,
        None => 0u64,
    }
}

/// The byte offset from which a resumed transfer continues: the size of the
/// partial file on disk, or zero when no partial file exists.
pub fn resume_offset(disk_len: Option<u64>, record: &Option<Progress>) -> (r: u64)
    ensures
        r == spec_resume_offset(disk_len, *record),
        r == match disk_len {
            Some(l) => l,
            None => 0u64,
        },
{
    match disk_len {
        Some(l) => l,
        None => 0,
    }
}

/// The resume offset is a function of the on-disk size alone: two attempts
/// that see the same file size resume at the same offset, whatever the
/// persisted records claim about progress.
pub proof fn lemma_resume_offset_ignores_record(
    disk_len: Option<u64>,
    a: Option<Progress>,
    b: Option<Progress>,
)
    ensures
        spec_resume_offset(disk_len, a) == spec_resume_offset(disk_len, b),
{
}

/// The Range header value requesting bytes from `offset` onward; attached
/// only when a partial file already holds some bytes.
pub fn range_header(offset: u64) -> (r: Option<String>)
    ensures
        match r {
            Some(h) => offset > 0 && h@ == "bytes="@ + dec_str(offset as int) + "-"@,
            None => offset == 0,
        },
{
    if offset == 0 {
        None
    } else {
        let h = String::from_str("bytes=").concat(u64_to_dec(offset).as_str()).concat("-");
        Some(h)
    }
}

/// Relies on `ulid::Ulid::generate` and `Ulid::to_string`: a ULID renders as
/// 26 characters, so the working name ".{ulid}.tmp" has 31. The value depends
/// on the clock and on randomness, so nothing more is stated of it.
#[verifier::external_body]
fn fresh_temp_name() -> (r: String)
    ensures
        r@.len() == 31,
{
    format!(".{}.tmp", ulid::Ulid::generate())
}

/// The working filename for an attempt: the one a previous attempt recorded,
/// so that resume finds the partial file, else a fresh unique temporary name.
pub fn choose_working_file(record: &Option<Progress>) -> (r: String)
    ensures
        match record {
            Some(p) => match p.target_file {
                Some(t) => r@ == t@,
                None => r@.len() == 31,
            },
            None => r@.len() == 31,
        },
{
    match record {
        Some(p) => match &p.target_file {
            Some(t) => t.clone(),
            None => fresh_temp_name(),
        },
        None => fresh_temp_name(),
    }
}

/// The expected size of the finished file. A 206 response reports only the
/// remaining range, so the resume offset is added back; a full response
/// reports the whole length. An unknown length stays unknown, as does one
/// that would overflow the byte counter.
pub open spec fn spec_total_size(mode: TransferMode, offset: u64, content_length: Option<u64>) -> Option<
    u64,
> {
    match content_length {
        None => None,
        Some(c) => if mode is Resume {
            if offset + c <= u64::MAX {
                Some((offset + c) as u64)
            } else {
                None
            }
        } else {
            Some(c)
        },
    }
}

/// The total the snapshots will report for this transfer.
pub fn total_size(mode: TransferMode, offset: u64, content_length: Option<u64>) -> (r: Option<u64>)
    ensures
        r == spec_total_size(mode, offset, content_length),
{
    match content_length {
        None => None,
        Some(c) => if mode.appends() {
            if c <= u64::MAX - offset {
                Some(offset + c)
            } else {
                None
            }
        } else {
            Some(c)
        },
    }
}

/// The reported throughput in whole bytes per second: the estimator's byte
/// sum over its time sum, scaled from milliseconds, zero when nothing has
/// been timed yet, and saturated at the counter's maximum.
pub open spec fn spec_speed_bps(h: Seq<Sample>) -> int {
    let sb = sum_bytes(recent(h));
    let st = sum_time(recent(h));
    if st == 0 {
        0
    } else if sb * 1000 / st > u64::MAX {
        u64::MAX as int
    } else {
        sb * 1000 / st
    }
}

/// One per-URL download task. It accepts no inbound messages: started once,
/// it runs its transfer to completion or terminates abnormally, and its
/// supervisor observes which of the two happened.
pub struct Downloader {
    /// The URL this worker downloads.
    pub url: String,
}

/// The in-memory accounting of one transfer in flight.
pub struct Transfer {
    /// The URL being downloaded; the key of the persisted snapshots.
    pub url: String,
    /// The working file the bytes are streamed into.
    pub target_file: String,
    /// The expected final size, when the server reported one.
    pub total: Option<u64>,
    /// Bytes in the working file so far.
    pub progress: u64,
    /// Bytes received since the last persisted snapshot.
    pub since_last_report: u64,
    /// Throughput estimator fed once per report.
    pub estimator: MovingAverage,
}

impl Transfer {
    /// The counters stay coherent: never more short-term bytes than total
    /// progress, and never more progress than the known total.
    pub open spec fn wf(self) -> bool {
        &&& self.estimator.wf()
        &&& self.since_last_report <= self.progress
        &&& match self.total {
            Some(t) => self.progress <= t,
            None => true,
        }
    }

    /// Begin accounting a transfer that the server answered with `mode`,
    /// resuming from `offset` bytes already on disk. On a restart the
    /// counter begins at zero, matching the just-truncated file.
    pub fn begin(
        url: String,
        target_file: String,
        mode: TransferMode,
        offset: u64,
        content_length: Option<u64>,
    ) -> (t: Transfer)
        ensures
            t.wf(),
            t.url == url,
            t.target_file == target_file,
            t.progress == if mode is Resume {
                offset
            } else {
                0u64
            },
            t.total == spec_total_size(mode, offset, content_length),
            t.since_last_report == 0,
            t.estimator@ == Seq::<Sample>::empty(),
    {
        let total = total_size(mode, offset, content_length);
        let progress = if mode.appends() {
            offset
        } else {
            0
        };
        Transfer {
            url,
            target_file,
            total,
            progress,
            since_last_report: 0,
            estimator: MovingAverage::new(),
        }
    }

    /// Account one received chunk, already written to the working file.
    pub fn on_chunk(&mut self, len: u64)
        requires
            old(self).wf(),
            old(self).progress + len <= u64::MAX,
            match old(self).total {
                Some(t) => old(self).progress + len <= t,
                None => true,
            },
        ensures
            final(self).wf(),
            final(self).progress == old(self).progress + len,
            final(self).since_last_report == old(self).since_last_report + len,
            final(self).url == old(self).url,
            final(self).target_file == old(self).target_file,
            final(self).total == old(self).total,
            final(self).estimator == old(self).estimator,
    {
        self.progress = self.progress + len;
        self.since_last_report = self.since_last_report + len;
    }

    /// The periodic report: once at least a second has passed since the
    /// last snapshot, record the short-term accumulator as a sample, reset
    /// it, and hand back the snapshot to persist; otherwise change nothing.
    pub fn tick(&mut self, elapsed_ms: u64) -> (snap: Option<Progress>)
        requires
            old(self).wf(),
        ensures
            final(self).wf(),
            elapsed_ms < 1000 ==> snap is None && *final(self) == *old(self),
            elapsed_ms >= 1000 ==> {
                &&& final(self).estimator@ == old(self).estimator@.push(
                    (old(self).since_last_report, elapsed_ms),
                )
                &&& final(self).since_last_report == 0
                &&& final(self).progress == old(self).progress
                &&& final(self).url == old(self).url
                &&& final(self).target_file == old(self).target_file
                &&& final(self).total == old(self).total
                &&& match snap {
                    Some(p) => {
                        &&& p.target_file == Some(old(self).target_file)
                        &&& !p.failed
                        &&& p.url == old(self).url
                        &&& p.progress == old(self).progress
                        &&& p.total == old(self).total
                        &&& p.speed == spec_speed_bps(final(self).estimator@)
                        &&& p.wf()
                    },
                    None => false,
                }
            },
    {
        if elapsed_ms >= 1000 {
            self.estimator.add(self.since_last_report, elapsed_ms);
            self.since_last_report = 0;
            let sums = self.estimator.totals();
            let sb = sums.0;
            let st = sums.1;
            let speed: u64 = if st == 0 {
                0
            } else {
                let v = sb * 1000 / st;
                if v > u64::MAX as u128 {
                    u64::MAX
                } else {
                    v as u64
                }
            };
            Some(
                Progress {
                    target_file: Some(self.target_file.clone()),
                    failed: false,
                    url: self.url.clone(),
                    progress: self.progress,
                    total: self.total,
                    speed,
                },
            )
        } else {
            None
        }
    }
}

} // verus!
