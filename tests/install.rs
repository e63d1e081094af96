use watchfolio::install::{
    check_failure_message, install_failure_message, InstallError, InstallPhase, InstallSession,
};
use watchfolio::updater::{DownloadProgress, Notification};

fn progress(n: &Notification) -> (u64, Option<u64>) {
    match n {
        Notification::DownloadProgress(DownloadProgress { downloaded, content_length }) => {
            (*downloaded, *content_length)
        }
        other => panic!("not a progress notification: {:?}", other),
    }
}

#[test]
fn completed_run_reports_sum_of_chunks() {
    let mut s = InstallSession::new();
    assert_eq!(s.on_check(true), Ok(()));
    let chunks: [u64; 4] = [100, 250, 0, 650];
    let mut last = (0, None);
    let mut names = Vec::new();
    for c in chunks {
        let n = s.on_chunk(c, Some(1000)).expect("chunk accepted");
        names.push(n.event_name());
        last = progress(&n);
    }
    assert_eq!(last, (1000, Some(1000)));
    assert_eq!(s.downloaded, chunks.iter().sum::<u64>());
    let ready = s.on_download_finished();
    assert_eq!(ready, Notification::ReadyToInstall);
    assert_eq!(ready.event_name(), "update-ready-to-install");
    let done = s.on_installed();
    assert_eq!(done, Notification::Installed);
    assert_eq!(done.event_name(), "update-installed");
    assert_eq!(s.phase, InstallPhase::Installed);
    assert!(names.iter().all(|n| *n == "update-download-progress"));
}

#[test]
fn progress_without_known_length() {
    let mut s = InstallSession::new();
    s.on_check(true).unwrap();
    assert_eq!(progress(&s.on_chunk(7, None).unwrap()), (7, None));
    assert_eq!(progress(&s.on_chunk(5, None).unwrap()), (12, None));
}

#[test]
fn no_update_fails_and_emits_nothing() {
    let mut s = InstallSession::new();
    let r = s.on_check(false);
    assert_eq!(r, Err(InstallError::NoUpdateAvailable));
    assert_eq!(s.phase, InstallPhase::Failed);
    assert_eq!(InstallError::NoUpdateAvailable.message(), "No update available");
    assert_eq!(
        install_failure_message(&InstallError::NoUpdateAvailable.message()),
        "Failed to install update: No update available"
    );
}

#[test]
fn chunk_past_announced_size_fails() {
    let mut s = InstallSession::new();
    s.on_check(true).unwrap();
    s.on_chunk(60, Some(100)).unwrap();
    assert_eq!(s.on_chunk(41, Some(100)), Err(InstallError::ExceedsContentLength));
    assert_eq!(s.phase, InstallPhase::Failed);
    assert_eq!(s.downloaded, 60);
}

#[test]
fn chunk_overflowing_counter_fails() {
    let mut s = InstallSession::new();
    s.on_check(true).unwrap();
    s.on_chunk(u64::MAX, None).unwrap();
    assert_eq!(s.on_chunk(1, None), Err(InstallError::ProgressOverflow));
    assert_eq!(s.phase, InstallPhase::Failed);
}

#[test]
fn chunk_reaching_exactly_announced_size_is_accepted() {
    let mut s = InstallSession::new();
    s.on_check(true).unwrap();
    assert_eq!(progress(&s.on_chunk(100, Some(100)).unwrap()), (100, Some(100)));
}

#[test]
fn service_failure_ends_run() {
    let mut s = InstallSession::new();
    s.on_check(true).unwrap();
    s.on_chunk(3, None).unwrap();
    s.on_failure();
    assert_eq!(s.phase, InstallPhase::Failed);
}

#[test]
fn failure_messages_carry_reason() {
    assert_eq!(check_failure_message("offline"), "Failed to check for updates: offline");
    assert_eq!(install_failure_message("bad signature"), "Failed to install update: bad signature");
    assert_ne!(InstallError::ProgressOverflow.message(), InstallError::ExceedsContentLength.message());
}
