use ttdash::checksum::md5sum;
use ttdash::install::{
    backup_path, staging_path, InstallAction, InstallEvent, InstallFailure, InstallPhase, Installer,
};
use ttdash::update::TTDashUpgradeTarget;
use ttdash::version::TTDashVersion;

const ARTIFACT: &[u8] = b"abc";
const ARTIFACT_MD5: &str = "900150983cd24fb0d6963f7d28e17f72";

fn start() -> Installer {
    let target = TTDashUpgradeTarget::new(
        TTDashVersion::new(1, 3),
        ARTIFACT_MD5.to_string(),
        "http://example.com/ttdash".to_string(),
    );
    let argv = vec!["/usr/bin/ttdash".to_string(), "-u".to_string()];
    let (installer, first) = Installer::new(target, "/usr/bin/ttdash".to_string(), argv);
    assert_eq!(first, InstallAction::ReadStaged);
    installer
}

#[test]
fn md5sum_is_lowercase_hex_digest() {
    assert_eq!(md5sum(b""), "d41d8cd98f00b204e9800998ecf8427e");
    assert_eq!(md5sum(ARTIFACT), ARTIFACT_MD5);
}

#[test]
fn staging_path_is_keyed_by_version() {
    assert_eq!(staging_path(&TTDashVersion::new(1, 3)), "/tmp/ttdash-download-1.3");
    assert_eq!(backup_path(), "/tmp/ttdash.prev");
    let installer = start();
    assert_eq!(installer.staging_path(), "/tmp/ttdash-download-1.3");
    assert_eq!(installer.url(), "http://example.com/ttdash");
    assert_eq!(installer.executable(), "/usr/bin/ttdash");
    assert_eq!(installer.arguments().len(), 2);
    assert_eq!(installer.version(), TTDashVersion::new(1, 3));
}

#[test]
fn valid_staged_file_skips_download() {
    let mut i = start();
    assert_eq!(i.step(InstallEvent::StagedContents(Some(ARTIFACT.to_vec()))), InstallAction::SetExecutable);
    assert_eq!(i.step(InstallEvent::PermissionsSet(true)), InstallAction::Backup);
    assert_eq!(i.step(InstallEvent::BackedUp(true)), InstallAction::Replace);
    assert_eq!(i.step(InstallEvent::Replaced(true)), InstallAction::Exec);
    assert_eq!(i.phase(), InstallPhase::Exec);
}

#[test]
fn mismatched_staged_file_is_downloaded_again() {
    let mut i = start();
    assert_eq!(i.step(InstallEvent::StagedContents(Some(b"ab".to_vec()))), InstallAction::Download);
    assert_eq!(i.step(InstallEvent::Downloaded(true)), InstallAction::ReadStaged);
    assert_eq!(i.step(InstallEvent::StagedContents(Some(ARTIFACT.to_vec()))), InstallAction::SetExecutable);
}

#[test]
fn missing_staged_file_is_downloaded() {
    let mut i = start();
    assert_eq!(i.step(InstallEvent::StagedContents(None)), InstallAction::Download);
    assert_eq!(i.phase(), InstallPhase::Download);
}

#[test]
fn bad_download_aborts_before_replacing() {
    let mut i = start();
    assert_eq!(i.step(InstallEvent::StagedContents(None)), InstallAction::Download);
    assert_eq!(i.step(InstallEvent::Downloaded(true)), InstallAction::ReadStaged);
    assert_eq!(i.step(InstallEvent::StagedContents(Some(b"abd".to_vec()))), InstallAction::Abort);
    assert_eq!(i.phase(), InstallPhase::Aborted);
    for e in [InstallEvent::PermissionsSet(true), InstallEvent::BackedUp(true), InstallEvent::Replaced(true)] {
        assert_eq!(i.step(e), InstallAction::Fail(InstallFailure::OutOfOrder));
    }
    assert_eq!(i.phase(), InstallPhase::Aborted);
}

#[test]
fn failed_download_fails_the_install() {
    let mut i = start();
    i.step(InstallEvent::StagedContents(None));
    assert_eq!(i.step(InstallEvent::Downloaded(false)), InstallAction::Fail(InstallFailure::Network));
    assert_eq!(i.phase(), InstallPhase::Failed);
}

#[test]
fn unreadable_download_fails_the_install() {
    let mut i = start();
    i.step(InstallEvent::StagedContents(None));
    i.step(InstallEvent::Downloaded(true));
    assert_eq!(i.step(InstallEvent::StagedContents(None)), InstallAction::Fail(InstallFailure::Filesystem));
}

#[test]
fn failed_backup_does_not_stop_the_install() {
    let mut i = start();
    i.step(InstallEvent::StagedContents(Some(ARTIFACT.to_vec())));
    i.step(InstallEvent::PermissionsSet(true));
    assert_eq!(i.step(InstallEvent::BackedUp(false)), InstallAction::Replace);
}

#[test]
fn permission_rename_and_exec_failures() {
    let mut i = start();
    i.step(InstallEvent::StagedContents(Some(ARTIFACT.to_vec())));
    assert_eq!(i.step(InstallEvent::PermissionsSet(false)), InstallAction::Fail(InstallFailure::Filesystem));

    let mut i = start();
    i.step(InstallEvent::StagedContents(Some(ARTIFACT.to_vec())));
    i.step(InstallEvent::PermissionsSet(true));
    i.step(InstallEvent::BackedUp(true));
    assert_eq!(i.step(InstallEvent::Replaced(false)), InstallAction::Fail(InstallFailure::Filesystem));

    let mut i = start();
    i.step(InstallEvent::StagedContents(Some(ARTIFACT.to_vec())));
    i.step(InstallEvent::PermissionsSet(true));
    i.step(InstallEvent::BackedUp(true));
    i.step(InstallEvent::Replaced(true));
    assert_eq!(i.step(InstallEvent::ExecFailed), InstallAction::Fail(InstallFailure::ProcessReplace));
}

#[test]
fn event_out_of_order_fails() {
    let mut i = start();
    assert_eq!(i.step(InstallEvent::Replaced(true)), InstallAction::Fail(InstallFailure::OutOfOrder));
    assert_eq!(i.phase(), InstallPhase::Failed);
}

#[test]
fn md5sum_is_32_lowercase_hex_digits() {
    for data in [&b""[..], b"abc", &[0xffu8; 1000][..]] {
        let sum = md5sum(data);
        assert_eq!(sum.len(), 32);
        assert!(sum.chars().all(|c| c.is_ascii_digit() || ('a'..='f').contains(&c)));
    }
}
