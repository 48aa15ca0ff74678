use vstd::prelude::*;

verus! {

use std::collections::HashMap;
use crate::progress::Progress;

broadcast use vstd::std_specs::hash::group_hash_axioms;

// The supervisor of the per-URL download workers. It owns the table of live
// workers and the retry policy; the surrounding runtime spawns the worker
// tasks, assigns them identities, and feeds their termination events back in.
// Every decision — what to register, what to persist, whether to respawn —
// is made here, on plain values.

/// Consecutive abnormal terminations tolerated for one URL before its record
/// is marked permanently failed.
pub const MAX_RETRIES: u64 = 24;

/// A command to the supervisor: begin downloading a URL.
#[derive(Clone, Debug)]
pub struct StartDownload {
    /// The URL to download.
    pub url: String,
}

/// The messages the supervisor accepts.
#[derive(Clone, Debug)]
pub enum CoordinatorMsg {
    /// Begin a new download.
    StartDownload(StartDownload),
}

/// The supervisor's note of one live worker.
#[derive(Clone, Debug)]
pub struct DownloaderRef {
    /// The worker's identity, assigned by the runtime that spawned it.
    pub id: u64,
    /// The URL the worker downloads.
    pub url: String,
    /// How many abnormal terminations on this URL preceded this worker:
    /// zero for a first attempt, one more after each failure.
    pub retries: u64,
}

/// The supervisor's in-memory table of live workers, keyed by worker
/// identity. It is rebuilt from the store at startup, never persisted.
pub struct CoordinatorState {
    /// The live workers.
    pub children: HashMap<u64, DownloaderRef>,
}

impl CoordinatorState {
    /// Each entry is filed under the identity it records.
    pub open spec fn wf(self) -> bool {
        forall|id: u64|
            self.children@.contains_key(id) ==> (#[trigger] self.children@[id]).id == id
    }

    /// An empty table: no workers are live before startup reconciliation.
    pub fn new() -> (r: CoordinatorState)
        ensures
            r.wf(),
            r.children@ == Map::<u64, DownloaderRef>::empty(),
    {
        CoordinatorState { children: HashMap::new() }
    }
}

/// What the supervisor asks of its runtime after a worker's abnormal
/// termination.
pub enum FailureDecision {
    /// Spawn a replacement worker for the URL at once, with the retry count
    /// it inherits; the registration has already been replaced.
    Respawn {
        /// The URL to retry.
        url: String,
        /// Abnormal terminations so far, inherited by the replacement.
        retries: u64,
    },
    /// The retry budget is exhausted: persist the URL's last record with its
    /// failed mark set (see `mark_failed`) and spawn nothing further.
    GiveUp {
        /// The URL being given up on.
        url: String,
    },
}

/// The supervisor: configuration of the download orchestration core.
#[derive(Clone, Debug)]
pub struct Coordinator {
    /// How many files to download at once.
    pub concurrent_downloads: usize,
}

impl Coordinator {
    /// Register a newly spawned worker for `url`. The runtime has assigned
    /// it `worker_id`; `retries` is the failure count it inherits.
    pub fn start_download(
        &self,
        state: &mut CoordinatorState,
        worker_id: u64,
        url: String,
        retries: u64,
    )
        requires
            old(state).wf(),
        ensures
            final(state).wf(),
            final(state).children@ == old(state).children@.insert(
                worker_id,
                (DownloaderRef { id: worker_id, url, retries }),
            ),
    {
        state.children.insert(worker_id, DownloaderRef { id: worker_id, url, retries });
    }

    /// Handle one inbound command. A start request registers a fresh worker
    /// with a retry count of zero — deliberately even when another worker is
    /// already live for the same URL, since the table is keyed by worker
    /// identity — and hands back the initial zero-progress record the runtime
    /// must persist before the worker starts.
    pub fn handle(
        &self,
        state: &mut CoordinatorState,
        msg: CoordinatorMsg,
        worker_id: u64,
    ) -> (rec: Progress)
        requires
            old(state).wf(),
        ensures
            final(state).wf(),
            msg matches CoordinatorMsg::StartDownload(sd) ==> {
                &&& final(state).children@ == old(state).children@.insert(
                    worker_id,
                    (DownloaderRef { id: worker_id, url: sd.url, retries: 0 }),
                )
                &&& rec.target_file is None
                &&& !rec.failed
                &&& rec.url == sd.url
                &&& rec.progress == 0
                &&& rec.total is None
                &&& rec.speed == 0
                &&& rec.wf()
            },
    {
        match msg {
            CoordinatorMsg::StartDownload(sd) => {
                let rec = Progress::default_with(sd.url.clone());
                self.start_download(state, worker_id, sd.url, 0);
                rec
            },
        }
    }

    /// Startup reconciliation: the runtime scans the store and hands over
    /// every record found, with one fresh worker identity per record. A
    /// worker is registered, with a retry count of zero, for exactly the
    /// records not marked failed: those are the downloads a crash or restart
    /// interrupted.
    pub fn on_startup(&self, state: &mut CoordinatorState, records: &Vec<Progress>, ids: &Vec<u64>)
        requires
            old(state).wf(),
            ids@.len() == records@.len(),
            forall|i: int, j: int| 0 <= i < j < ids@.len() ==> ids@[i] != ids@[j],
            forall|i: int| 0 <= i < ids@.len() ==> !old(state).children@.contains_key(ids@[i]),
        ensures
            final(state).wf(),
            forall|i: int|
                0 <= i < records@.len() && !records@[i].failed
                    ==> final(state).children@.contains_key(ids@[i])
                    && final(state).children@[ids@[i]]
                    == (DownloaderRef { id: ids@[i], url: records@[i].url, retries: 0 }),
            forall|i: int|
                0 <= i < records@.len() && records@[i].failed
                    ==> !final(state).children@.contains_key(ids@[i]),
            forall|id: u64|
                #[trigger] old(state).children@.dom().contains(id)
                    ==> final(state).children@.dom().contains(id)
                    && final(state).children@[id] == old(state).children@[id],
            forall|id: u64|
                #[trigger] final(state).children@.dom().contains(id)
                    ==> old(state).children@.dom().contains(id) || exists|i: int|
                    0 <= i < records@.len() && ids@[i] == id && !records@[i].failed,
    {
        let ghost init = state.children@;
        let n = records.len();
        let mut i: usize = 0;
        while i < n
            invariant
                state.wf(),
                n == records@.len(),
                ids@.len() == records@.len(),
                i <= n,
                forall|p: int, q: int| 0 <= p < q < ids@.len() ==> ids@[p] != ids@[q],
                forall|p: int| 0 <= p < ids@.len() ==> !init.contains_key(ids@[p]),
                forall|p: int|
                    0 <= p < i && !records@[p].failed ==> state.children@.contains_key(ids@[p])
                        && state.children@[ids@[p]] == (DownloaderRef {
                        id: ids@[p],
                        url: records@[p].url,
                        retries: 0,
                    }),
                forall|p: int|
                    0 <= p < i && records@[p].failed ==> !state.children@.contains_key(ids@[p]),
                forall|id: u64|
                    #[trigger] init.dom().contains(id) ==> state.children@.dom().contains(id)
                        && state.children@[id] == init[id],
                forall|id: u64|
                    #[trigger] state.children@.dom().contains(id) ==> init.dom().contains(id)
                        || exists|p: int| 0 <= p < i && ids@[p] == id && !records@[p].failed,
            decreases n - i,
        {
            proof {
                assert(!init.contains_key(ids@[i as int]));
            }
            if !records[i].failed {
                let ghost prev = state.children@;
                let entry = DownloaderRef { id: ids[i], url: records[i].url.clone(), retries: 0 };
                state.children.insert(ids[i], entry);
                proof {
                    assert(state.children@ == prev.insert(ids@[i as int], entry));
                    assert forall|id: u64|
                        #[trigger] init.dom().contains(id) implies state.children@.dom().contains(
                        id,
                    ) && state.children@[id] == init[id] by {
                        assert(prev.dom().contains(id));
                        assert(id != ids@[i as int]);
                        assert(state.children@.dom().contains(id));
                    }
                }
            }
            i = i + 1;
        }
    }

    /// A worker terminated normally: its download is complete. Drop its
    /// registration and return the URL whose store record the runtime must
    /// now delete — after that deletion the store no longer tracks the URL.
    pub fn on_worker_success(&self, state: &mut CoordinatorState, worker_id: u64) -> (url: String)
        requires
            old(state).wf(),
            old(state).children@.contains_key(worker_id),
        ensures
            final(state).wf(),
            final(state).children@ == old(state).children@.remove(worker_id),
            url == old(state).children@[worker_id].url,
    {
        match state.children.remove(&worker_id) {
            Some(child) => child.url,
            None => unreached(),
        }
    }

    /// A worker terminated abnormally. While the failure count is within the
    /// budget, the registration is replaced at once — same URL, fresh
    /// identity, count one higher — and the runtime is told to respawn with
    /// no delay. Once the count exceeds the budget, the registration is
    /// dropped and nothing further is spawned for the URL until a new start
    /// request: the runtime is told to mark the URL's record failed.
    pub fn on_worker_failure(
        &self,
        state: &mut CoordinatorState,
        worker_id: u64,
        replacement_id: u64,
    ) -> (d: FailureDecision)
        requires
            old(state).wf(),
            old(state).children@.contains_key(worker_id),
        ensures
            final(state).wf(),
            old(state).children@[worker_id].retries > MAX_RETRIES ==> {
                &&& d matches FailureDecision::GiveUp { url }
                    && url == old(state).children@[worker_id].url
                &&& final(state).children@ == old(state).children@.remove(worker_id)
            },
            old(state).children@[worker_id].retries <= MAX_RETRIES ==> {
                &&& d matches FailureDecision::Respawn { url, retries }
                    && url == old(state).children@[worker_id].url
                    && retries == old(state).children@[worker_id].retries + 1
                &&& final(state).children@ == old(state).children@.remove(worker_id).insert(
                    replacement_id,
                    (DownloaderRef {
                        id: replacement_id,
                        url: old(state).children@[worker_id].url,
                        retries: (old(state).children@[worker_id].retries + 1) as u64,
                    }),
                )
            },
    {
        let (url, retries) = match state.children.get(&worker_id) {
            Some(child) => (child.url.clone(), child.retries),
            None => unreached(),
        };
        state.children.remove(&worker_id);
        if retries > MAX_RETRIES {
            FailureDecision::GiveUp { url }
        } else {
            let inherited = retries + 1;
            let entry = DownloaderRef { id: replacement_id, url: url.clone(), retries: inherited };
            state.children.insert(replacement_id, entry);
            FailureDecision::Respawn { url, retries: inherited }
        }
    }
}

/// The record the runtime persists when the supervisor gives up on a URL:
/// the last known record with its failed mark set and every other field
/// preserved, or a fresh zero-progress record when none survives.
pub fn mark_failed(url: &str, last: Option<Progress>) -> (r: Progress)
    ensures
        r.failed,
        match last {
            Some(p) => r.target_file == p.target_file && r.url == p.url && r.progress == p.progress
                && r.total == p.total && r.speed == p.speed,
            None => r.target_file is None && r.url@ == url@ && r.progress == 0 && r.total is None
                && r.speed == 0,
        },
{
    match last {
        Some(p) => Progress {
            target_file: p.target_file,
            failed: true,
            url: p.url,
            progress: p.progress,
            total: p.total,
            speed: p.speed,
        },
        None => Progress {
            target_file: None,
            failed: true,
            url: url.to_owned(),
            progress: 0,
            total: None,
            speed: 0,
        },
    }
}

/// The store, as the runtime's delete leaves it after a worker's normal
/// termination: the completed URL's record is gone.
pub open spec fn store_after_success(store: Map<Seq<char>, Progress>, url: Seq<char>) -> Map<
    Seq<char>,
    Progress,
> {
    store.remove(url)
}

/// The store, as the runtime's put leaves it after the supervisor gives up
/// on a URL: the record `mark_failed` produced sits under the URL.
pub open spec fn store_after_give_up(store: Map<Seq<char>, Progress>, rec: Progress) -> Map<
    Seq<char>,
    Progress,
> {
    store.insert(rec.url@, rec)
}

/// After a successful completion no record for that URL remains in the
/// store, and no other URL's record is touched.
pub proof fn lemma_success_leaves_no_record(store: Map<Seq<char>, Progress>, url: Seq<char>)
    ensures
        !store_after_success(store, url).contains_key(url),
        forall|u: Seq<char>|
            u != url ==> store_after_success(store, url).contains_key(u) == store.contains_key(u),
        forall|u: Seq<char>|
            u != url && store.contains_key(u) ==> store_after_success(store, url)[u] == store[u],
{
}

/// Exhaustion of the retry budget is terminal: the worker's registration is
/// gone from the supervisor's table, and the record the runtime persists for
/// the URL carries the failed mark — so a later startup scan (see
/// `Coordinator::on_startup`) spawns no worker for it either.
pub proof fn lemma_exhausted_failure_is_terminal(
    children: Map<u64, DownloaderRef>,
    worker_id: u64,
    store: Map<Seq<char>, Progress>,
    rec: Progress,
)
    requires
        rec.failed,
    ensures
        !children.remove(worker_id).contains_key(worker_id),
        store_after_give_up(store, rec).contains_key(rec.url@),
        store_after_give_up(store, rec)[rec.url@].failed,
{
}

} // verus!
