use http_drogue::progress::Progress;
use http_drogue::worker::{
    DownloadError, Transfer, TransferMode, choose_working_file, classify_response, range_header,
    resume_offset, total_size,
};

fn record(url: &str, progress: u64, target_file: Option<&str>) -> Progress {
    Progress {
        target_file: target_file.map(|t| t.to_string()),
        failed: false,
        url: url.to_string(),
        progress,
        total: None,
        speed: 0,
    }
}

#[test]
fn status_classification() {
    assert_eq!(classify_response(404), TransferMode::NotFound);
    assert_eq!(classify_response(206), TransferMode::Resume);
    assert_eq!(classify_response(200), TransferMode::Restart);
    assert_eq!(classify_response(204), TransferMode::Restart);
}

#[test]
fn file_open_flags_follow_mode() {
    assert!(TransferMode::Restart.truncates());
    assert!(!TransferMode::Restart.appends());
    assert!(TransferMode::Resume.appends());
    assert!(!TransferMode::Resume.truncates());
}

#[test]
fn resume_offset_is_the_on_disk_size() {
    // The persisted counter says 7 bytes, but the disk holds 42: the disk wins.
    let stale = Some(record("u", 7, None));
    assert_eq!(resume_offset(Some(42), &stale), 42);
    assert_eq!(resume_offset(None, &stale), 0);
    // And the record changes nothing.
    assert_eq!(resume_offset(Some(42), &None), 42);
}

#[test]
fn range_header_only_when_resuming() {
    assert_eq!(range_header(0), None);
    assert_eq!(range_header(1234), Some("bytes=1234-".to_string()));
}

#[test]
fn working_file_is_reused_across_retries() {
    let rec = Some(record("u", 0, Some(".earlier.tmp")));
    assert_eq!(choose_working_file(&rec), ".earlier.tmp");
}

#[test]
fn working_file_is_fresh_when_none_recorded() {
    let name = choose_working_file(&None);
    assert_eq!(name.chars().count(), 31);
    assert!(name.starts_with('.'));
    assert!(name.ends_with(".tmp"));
    // Fresh names are unique identifiers: two draws differ.
    assert_ne!(name, choose_working_file(&None));
}

#[test]
fn total_size_restores_the_resume_offset() {
    // A 206 reports only the remaining range.
    assert_eq!(total_size(TransferMode::Resume, 100, Some(50)), Some(150));
    assert_eq!(total_size(TransferMode::Restart, 100, Some(50)), Some(50));
    assert_eq!(total_size(TransferMode::Resume, 100, None), None);
    assert_eq!(total_size(TransferMode::Resume, u64::MAX, Some(1)), None);
}

#[test]
fn transfer_accounting_and_snapshot() {
    let mut t = Transfer::begin(
        "http://host/f".to_string(),
        ".work.tmp".to_string(),
        TransferMode::Resume,
        100,
        Some(400),
    );
    assert_eq!(t.progress, 100);
    assert_eq!(t.total, Some(500));
    t.on_chunk(50);
    assert_eq!(t.progress, 150);
    // Less than a second since the last report: nothing to persist.
    assert!(t.tick(500).is_none());
    assert!(t.tick(999).is_none());
    assert_eq!(t.since_last_report, 50);
    t.on_chunk(25);
    let snap = t.tick(1001).expect("a second has passed");
    assert_eq!(snap.url, "http://host/f");
    assert_eq!(snap.target_file, Some(".work.tmp".to_string()));
    assert!(!snap.failed);
    assert_eq!(snap.progress, 175);
    assert_eq!(snap.total, Some(500));
    // 75 bytes over 1001 ms, scaled to bytes per second, truncated.
    assert_eq!(snap.speed, 75 * 1000 / 1001);
    assert_eq!(t.since_last_report, 0);
}

#[test]
fn report_fires_at_exactly_one_second() {
    let mut t = Transfer::begin(
        "u".to_string(),
        ".w.tmp".to_string(),
        TransferMode::Restart,
        0,
        None,
    );
    t.on_chunk(500);
    let snap = t.tick(1000).expect("a full second counts");
    assert_eq!(snap.progress, 500);
    // 500 bytes over exactly one second.
    assert_eq!(snap.speed, 500);
}

#[test]
fn restart_resets_the_byte_counter() {
    // The server ignored the range request: the file was truncated, and the
    // counter starts over with it.
    let t = Transfer::begin(
        "u".to_string(),
        ".w.tmp".to_string(),
        TransferMode::Restart,
        100,
        Some(50),
    );
    assert_eq!(t.progress, 0);
    assert_eq!(t.total, Some(50));
}

#[test]
fn not_found_error_names_the_url() {
    let e = DownloadError::NotFound("http://gone".to_string());
    assert_eq!(
        e.describe(),
        "Failed to download file, it was not found: http://gone"
    );
}
