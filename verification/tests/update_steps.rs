use rlbot_launcher::binary_update::{BinaryUpdate, UpdateAction, UpdateEvent, UpdateStage};
use rlbot_launcher::github::{Asset, Release};
use rlbot_launcher::updates::{update_targets, UpdateError};

const HELLO_SHA: &str = "2cf24dba5fb0a30e26e83b2ac5b9e29e1b161e5c1fa7425e73043362938b9824";

fn server_release() -> Release {
    Release {
        name: "v5.0.0".to_string(),
        assets: vec![Asset {
            name: "RLBotServer".to_string(),
            digest: format!("sha256:{HELLO_SHA}"),
            browser_download_url: "https://example.invalid/RLBotServer".to_string(),
        }],
    }
}

fn server_update(force: bool) -> BinaryUpdate {
    let targets = update_targets(false, force);
    let (update, action) = BinaryUpdate::start(&targets[1]);
    assert!(matches!(action, UpdateAction::ReadLocalCopy));
    assert_eq!(update.stage, UpdateStage::AwaitLocalCopy);
    update
}

#[test]
fn fresh_install_downloads_checks_and_installs() {
    let mut u = server_update(false);
    assert!(matches!(u.step(UpdateEvent::LocalCopyRead { contents: None }), UpdateAction::FetchRelease));
    match u.step(UpdateEvent::ReleaseFetched { release: server_release() }) {
        UpdateAction::Download { url, release_name } => {
            assert_eq!(url, "https://example.invalid/RLBotServer");
            assert_eq!(release_name, "v5.0.0");
        }
        _ => panic!("expected a download"),
    }
    match u.step(UpdateEvent::Downloaded { bytes: b"hello".to_vec() }) {
        UpdateAction::Install { bytes } => assert_eq!(bytes, b"hello"),
        _ => panic!("expected an install"),
    }
    assert!(matches!(u.step(UpdateEvent::Installed), UpdateAction::Finish));
    assert_eq!(u.stage, UpdateStage::Installed);
}

#[test]
fn current_local_copy_is_up_to_date() {
    let mut u = server_update(false);
    u.step(UpdateEvent::LocalCopyRead { contents: Some(b"hello".to_vec()) });
    assert_eq!(u.local_digest.as_deref(), Some(HELLO_SHA));
    assert!(matches!(u.step(UpdateEvent::ReleaseFetched { release: server_release() }), UpdateAction::Finish));
    assert_eq!(u.stage, UpdateStage::UpToDate);
}

#[test]
fn forced_update_downloads_current_copy() {
    let mut u = server_update(true);
    u.step(UpdateEvent::LocalCopyRead { contents: Some(b"hello".to_vec()) });
    assert!(matches!(
        u.step(UpdateEvent::ReleaseFetched { release: server_release() }),
        UpdateAction::Download { .. }
    ));
}

#[test]
fn tampered_download_is_not_installed() {
    let mut u = server_update(false);
    u.step(UpdateEvent::LocalCopyRead { contents: None });
    u.step(UpdateEvent::ReleaseFetched { release: server_release() });
    match u.step(UpdateEvent::Downloaded { bytes: b"evil".to_vec() }) {
        UpdateAction::Fail { error } => assert_eq!(
            error,
            Some(UpdateError::DigestMismatch { bin_name: "RLBotServer".to_string() })
        ),
        _ => panic!("expected a failure"),
    }
    assert_eq!(u.stage, UpdateStage::Failed);
}

#[test]
fn missing_asset_fails_update() {
    let targets = update_targets(false, false);
    let (mut u, _) = BinaryUpdate::start(&targets[0]);
    u.step(UpdateEvent::LocalCopyRead { contents: None });
    match u.step(UpdateEvent::ReleaseFetched { release: server_release() }) {
        UpdateAction::Fail { error } => assert_eq!(
            error,
            Some(UpdateError::MissingAsset { bin_name: "rlbotgui".to_string() })
        ),
        _ => panic!("expected a failure"),
    }
}

#[test]
fn outside_failure_fails_without_library_error() {
    let mut u = server_update(false);
    u.step(UpdateEvent::LocalCopyRead { contents: None });
    assert!(matches!(u.step(UpdateEvent::WorkFailed), UpdateAction::Fail { error: None }));
    assert_eq!(u.stage, UpdateStage::Failed);
}

#[test]
fn stray_update_report_is_ignored() {
    let mut u = server_update(false);
    assert!(matches!(u.step(UpdateEvent::Installed), UpdateAction::Ignore));
    assert_eq!(u.stage, UpdateStage::AwaitLocalCopy);
    assert!(matches!(u.step(UpdateEvent::Downloaded { bytes: b"hello".to_vec() }), UpdateAction::Ignore));
    assert_eq!(u.stage, UpdateStage::AwaitLocalCopy);
}
