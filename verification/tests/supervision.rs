use std::collections::HashMap;

use http_drogue::coordinator::{
    Coordinator, CoordinatorMsg, CoordinatorState, FailureDecision, MAX_RETRIES, StartDownload,
    mark_failed,
};
use http_drogue::progress::Progress;
use http_drogue::worker::{TransferMode, classify_response};

fn coordinator() -> Coordinator {
    Coordinator { concurrent_downloads: 1 }
}

fn stored(url: &str, failed: bool) -> Progress {
    Progress {
        target_file: Some(format!(".{url}.tmp")),
        failed,
        url: url.to_string(),
        progress: 10,
        total: Some(100),
        speed: 3,
    }
}

#[test]
fn start_download_registers_a_fresh_worker() {
    let c = coordinator();
    let mut state = CoordinatorState::new();
    let msg = CoordinatorMsg::StartDownload(StartDownload { url: "http://a/f".to_string() });
    let rec = c.handle(&mut state, msg, 1);
    assert_eq!(rec.url, "http://a/f");
    assert_eq!(rec.progress, 0);
    assert!(!rec.failed);
    assert_eq!(rec.target_file, None);
    assert_eq!(rec.total, None);
    let entry = state.children.get(&1).expect("registered");
    assert_eq!(entry.url, "http://a/f");
    assert_eq!(entry.retries, 0);
}

#[test]
fn concurrent_starts_for_one_url_are_not_deduplicated() {
    // The table is keyed by worker identity, so a second start request for
    // the same URL spawns a second worker.
    let c = coordinator();
    let mut state = CoordinatorState::new();
    let start = |url: &str| CoordinatorMsg::StartDownload(StartDownload { url: url.to_string() });
    c.handle(&mut state, start("http://a/f"), 1);
    c.handle(&mut state, start("http://a/f"), 2);
    assert_eq!(state.children.len(), 2);
    assert_eq!(state.children.get(&1).unwrap().url, "http://a/f");
    assert_eq!(state.children.get(&2).unwrap().url, "http://a/f");
}

#[test]
fn startup_spawns_only_for_unfailed_records() {
    // Store holds {url:"A", failed:false} and {url:"B", failed:true}:
    // exactly one worker is spawned, for "A".
    let c = coordinator();
    let mut state = CoordinatorState::new();
    let records = vec![stored("A", false), stored("B", true)];
    let ids = vec![1, 2];
    c.on_startup(&mut state, &records, &ids);
    assert_eq!(state.children.len(), 1);
    let entry = state.children.get(&1).expect("worker for A");
    assert_eq!(entry.url, "A");
    assert_eq!(entry.retries, 0);
    assert!(state.children.get(&2).is_none());
}

#[test]
fn success_deletes_the_record_and_the_registration() {
    let c = coordinator();
    let mut state = CoordinatorState::new();
    let mut store: HashMap<String, Progress> = HashMap::new();
    store.insert("http://a/f".to_string(), stored("http://a/f", false));
    c.start_download(&mut state, 5, "http://a/f".to_string(), 0);
    let url = c.on_worker_success(&mut state, 5);
    store.remove(&url);
    assert!(store.get("http://a/f").is_none());
    assert!(state.children.is_empty());
}

#[test]
fn not_found_is_fatal_for_the_worker_and_respawned_at_once() {
    // A 404 ends the attempt; the supervisor immediately replaces the worker
    // with the retry count one higher.
    assert_eq!(classify_response(404), TransferMode::NotFound);
    let c = coordinator();
    let mut state = CoordinatorState::new();
    c.start_download(&mut state, 1, "http://gone".to_string(), 0);
    let decision = c.on_worker_failure(&mut state, 1, 2);
    match decision {
        FailureDecision::Respawn { url, retries } => {
            assert_eq!(url, "http://gone");
            assert_eq!(retries, 1);
        }
        FailureDecision::GiveUp { .. } => panic!("budget not exhausted"),
    }
    assert!(state.children.get(&1).is_none());
    let replacement = state.children.get(&2).expect("respawned");
    assert_eq!(replacement.url, "http://gone");
    assert_eq!(replacement.retries, 1);
}

#[test]
fn budget_boundary_respawns_at_the_maximum() {
    let c = coordinator();
    let mut state = CoordinatorState::new();
    c.start_download(&mut state, 1, "u".to_string(), MAX_RETRIES);
    match c.on_worker_failure(&mut state, 1, 2) {
        FailureDecision::Respawn { retries, .. } => assert_eq!(retries, MAX_RETRIES + 1),
        FailureDecision::GiveUp { .. } => panic!("count has not exceeded the budget yet"),
    }
}

#[test]
fn exhausted_budget_marks_failed_and_spawns_nothing() {
    let c = coordinator();
    let mut state = CoordinatorState::new();
    let mut store: HashMap<String, Progress> = HashMap::new();
    store.insert("u".to_string(), stored("u", false));
    c.start_download(&mut state, 1, "u".to_string(), MAX_RETRIES + 1);
    let decision = c.on_worker_failure(&mut state, 1, 2);
    let url = match decision {
        FailureDecision::GiveUp { url } => url,
        FailureDecision::Respawn { .. } => panic!("budget exhausted"),
    };
    assert_eq!(url, "u");
    // The runtime then rewrites the record with the failed mark set.
    let rec = mark_failed(&url, store.get(&url).cloned());
    store.insert(url.clone(), rec);
    let kept = store.get("u").unwrap();
    assert!(kept.failed);
    assert_eq!(kept.progress, 10);
    assert_eq!(kept.total, Some(100));
    assert_eq!(kept.speed, 3);
    assert_eq!(kept.target_file, Some(".u.tmp".to_string()));
    // No worker remains, and none was spawned.
    assert!(state.children.is_empty());
}

#[test]
fn give_up_synthesizes_a_record_when_none_survives() {
    let rec = mark_failed("u2", None);
    assert!(rec.failed);
    assert_eq!(rec.url, "u2");
    assert_eq!(rec.progress, 0);
    assert_eq!(rec.total, None);
    assert_eq!(rec.target_file, None);
    assert_eq!(rec.speed, 0);
}

#[test]
fn full_retry_chain_gives_up_after_the_budget() {
    let c = coordinator();
    let mut state = CoordinatorState::new();
    c.start_download(&mut state, 0, "u".to_string(), 0);
    let mut failures: u64 = 0;
    let mut worker: u64 = 0;
    loop {
        let replacement = worker + 1;
        match c.on_worker_failure(&mut state, worker, replacement) {
            FailureDecision::Respawn { retries, .. } => {
                failures += 1;
                assert_eq!(retries, failures);
                worker = replacement;
            }
            FailureDecision::GiveUp { url } => {
                assert_eq!(url, "u");
                break;
            }
        }
    }
    // Counts 0 through MAX_RETRIES respawn; the next failure gives up.
    assert_eq!(failures, MAX_RETRIES + 1);
    assert!(state.children.is_empty());
}
