use vstd::prelude::*;

verus! {

/// The persisted snapshot of one URL's transfer state. The store keeps one
/// record per distinct URL, keyed by the URL itself; it is the single
/// durable source of truth across process restarts.
#[derive(Clone, Debug)]
pub struct Progress {
    /// Working (temporary) filename chosen for this transfer; reused across
    /// retries so a resumed attempt finds the partial file.
    pub target_file: Option<String>,
    /// True once the retry budget is exhausted; such a record keeps no
    /// worker assigned until a fresh download request arrives.
    pub failed: bool,
    /// The URL being downloaded: the record's key.
    pub url: String,
    /// Bytes already written to the working file.
    pub progress: u64,
    /// Content length, when the server reported one.
    pub total: Option<u64>,
    /// Last reported throughput, in whole bytes per second.
    pub speed: u64,
}

impl Progress {
    /// A record never claims more progress than the known total.
    pub open spec fn wf(self) -> bool {
        match self.total {
            Some(t) => self.progress <= t,
            None => true,
        }
    }

    /// The zero-progress record written when a download is first requested,
    /// and synthesized when a failure must be recorded for a URL whose
    /// record has vanished.
    pub fn default_with(url: String) -> (r: Progress)
        ensures
            r.target_file is None,
            !r.failed,
            r.url == url,
            r.progress == 0,
            r.total is None,
            r.speed == 0,
            r.wf(),
    {
        Progress {
            target_file: None,
            failed: false,
            url,
            progress: 0,
            total: None,
            speed: 0,
        }
    }
}

} // verus!
