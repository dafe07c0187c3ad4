use wraith_shell::update::{
    UpdateError, UpdateLifecycleManager, UpdateManifest, UpdateState, Version,
};

fn v(major: u64, minor: u64, patch: u64) -> Version {
    Version { major, minor, patch }
}

fn manifest(version: Version, size: u64) -> UpdateManifest {
    UpdateManifest {
        version,
        size,
        url: "https://updates.example/wraith.tar.gz".to_string(),
    }
}

#[test]
fn version_order_is_lexicographic() {
    assert!(v(2, 0, 0).newer_than(&v(1, 9, 9)));
    assert!(v(1, 3, 0).newer_than(&v(1, 2, 9)));
    assert!(v(1, 2, 4).newer_than(&v(1, 2, 3)));
    assert!(!v(1, 2, 3).newer_than(&v(1, 2, 3)));
    assert!(!v(1, 2, 3).newer_than(&v(1, 3, 0)));
    assert!(!v(0, 9, 9).newer_than(&v(1, 0, 0)));
}

#[test]
fn check_reports_true_exactly_for_a_newer_manifest() {
    let mut m = UpdateLifecycleManager::new(v(1, 2, 3));

    m.begin_check().unwrap();
    let newer = manifest(v(1, 3, 0), 100);
    assert_eq!(m.complete_check(Ok(Some(newer.clone()))), Ok(true));
    assert_eq!(m.state, UpdateState::Available(newer));

    let mut m = UpdateLifecycleManager::new(v(1, 2, 3));
    m.begin_check().unwrap();
    assert_eq!(m.complete_check(Ok(Some(manifest(v(1, 2, 3), 100)))), Ok(false));
    assert_eq!(m.state, UpdateState::Idle);

    let mut m = UpdateLifecycleManager::new(v(1, 2, 3));
    m.begin_check().unwrap();
    assert_eq!(m.complete_check(Ok(Some(manifest(v(1, 0, 0), 100)))), Ok(false));
    assert_eq!(m.state, UpdateState::Idle);

    let mut m = UpdateLifecycleManager::new(v(1, 2, 3));
    m.begin_check().unwrap();
    assert_eq!(m.complete_check(Ok(None)), Ok(false));
    assert_eq!(m.state, UpdateState::Idle);
}

#[test]
fn failed_check_surfaces_the_reason() {
    let mut m = UpdateLifecycleManager::new(v(1, 0, 0));
    m.begin_check().unwrap();
    let r = m.complete_check(Err("connection refused".to_string()));
    assert_eq!(r, Err(UpdateError::CheckFailed("connection refused".to_string())));
    assert_eq!(m.state, UpdateState::Failed("connection refused".to_string()));
    m.retry();
    assert_eq!(m.state, UpdateState::Idle);
}

#[test]
fn install_without_update_found_is_a_no_op_success() {
    let mut m = UpdateLifecycleManager::new(v(1, 0, 0));
    assert_eq!(m.begin_install(), Ok(None));
    assert_eq!(m.state, UpdateState::Idle);

    m.begin_check().unwrap();
    m.complete_check(Ok(None)).unwrap();
    assert_eq!(m.begin_install(), Ok(None));
}

#[test]
fn overlapping_flows_receive_already_in_progress() {
    let mut m = UpdateLifecycleManager::new(v(1, 0, 0));
    m.begin_check().unwrap();
    // a second flow may not start while the check is in flight
    assert_eq!(m.begin_check(), Err(UpdateError::AlreadyInProgress));
    assert_eq!(m.begin_install(), Err(UpdateError::AlreadyInProgress));
    assert_eq!(m.state, UpdateState::Checking);
}

#[test]
fn one_install_proceeds_and_the_overlapping_one_is_refused() {
    let mut m = UpdateLifecycleManager::new(v(1, 2, 3));
    m.begin_check().unwrap();
    let found = manifest(v(2, 0, 0), 200);
    assert_eq!(m.complete_check(Ok(Some(found.clone()))), Ok(true));

    // exactly one of two competing install requests proceeds to Downloading
    let first = m.begin_install();
    assert_eq!(first, Ok(Some(found.clone())));
    assert_eq!(
        m.state,
        UpdateState::Downloading { manifest: found.clone(), received: 0 }
    );
    let second = m.begin_install();
    assert_eq!(second, Err(UpdateError::AlreadyInProgress));
    assert_eq!(
        m.state,
        UpdateState::Downloading { manifest: found.clone(), received: 0 }
    );

    // the surviving flow runs to completion and reaches Installing
    m.download_progress(200);
    m.complete_download(Ok(())).unwrap();
    assert_eq!(m.state, UpdateState::ReadyToInstall(found.clone()));
    m.start_install();
    assert_eq!(m.state, UpdateState::Installing(found.clone()));
    assert_eq!(m.complete_install(Ok(())), Ok(()));
    assert_eq!(m.state, UpdateState::Installing(found));
}

fn downloading_manager(size: u64) -> (UpdateLifecycleManager, UpdateManifest) {
    let mut m = UpdateLifecycleManager::new(v(1, 0, 0));
    m.begin_check().unwrap();
    let found = manifest(v(1, 1, 0), size);
    m.complete_check(Ok(Some(found.clone()))).unwrap();
    m.begin_install().unwrap();
    (m, found)
}

#[test]
fn progress_is_monotone_and_reported_as_a_percentage() {
    let (mut m, found) = downloading_manager(200);
    assert_eq!(m.progress_percent(), 0);
    m.download_progress(50);
    assert_eq!(
        m.state,
        UpdateState::Downloading { manifest: found.clone(), received: 50 }
    );
    assert_eq!(m.progress_percent(), 25);
    m.download_progress(149);
    assert_eq!(m.progress_percent(), 99);
    m.download_progress(1);
    assert_eq!(m.progress_percent(), 100);
}

#[test]
fn progress_saturates_at_the_manifest_size() {
    let (mut m, found) = downloading_manager(10);
    m.download_progress(7);
    m.download_progress(1000);
    assert_eq!(
        m.state,
        UpdateState::Downloading { manifest: found, received: 10 }
    );
    assert_eq!(m.progress_percent(), 100);
}

#[test]
fn empty_artifact_counts_as_fully_received() {
    let (m, _) = downloading_manager(0);
    assert_eq!(m.progress_percent(), 100);
}

#[test]
fn failed_download_surfaces_the_reason_and_retry_recovers() {
    let (mut m, _) = downloading_manager(100);
    m.download_progress(40);
    let r = m.complete_download(Err("stream reset".to_string()));
    assert_eq!(r, Err(UpdateError::DownloadFailed("stream reset".to_string())));
    assert_eq!(m.state, UpdateState::Failed("stream reset".to_string()));
    m.retry();
    assert_eq!(m.state, UpdateState::Idle);
    assert_eq!(m.begin_check(), Ok(()));
}

#[test]
fn failed_install_surfaces_the_reason() {
    let (mut m, _) = downloading_manager(100);
    m.complete_download(Ok(())).unwrap();
    m.start_install();
    let r = m.complete_install(Err("signature mismatch".to_string()));
    assert_eq!(r, Err(UpdateError::InstallFailed("signature mismatch".to_string())));
    assert_eq!(m.state, UpdateState::Failed("signature mismatch".to_string()));
}

#[test]
fn error_messages_carry_the_reason() {
    assert_eq!(
        UpdateLifecycleManager::error_message(&UpdateError::CheckFailed("no route".to_string())),
        "no route"
    );
    assert_eq!(
        UpdateLifecycleManager::error_message(&UpdateError::DownloadFailed("timeout".to_string())),
        "timeout"
    );
    assert_eq!(
        UpdateLifecycleManager::error_message(&UpdateError::InstallFailed("bad disk".to_string())),
        "bad disk"
    );
    assert_eq!(
        UpdateLifecycleManager::error_message(&UpdateError::AlreadyInProgress),
        "an update flow is already in progress"
    );
}
