use audio_downloader::binary::BinaryKind;
use audio_downloader::error::{DirectoryFault, JobError, ProvisionError, SpawnError, StreamError};
use audio_downloader::log::{JobOutcome, Phase};

#[test]
fn provision_errors_read_as_stated() {
    assert_eq!(ProvisionError::DirectoryUnwritable.describe(), "the binaries directory is not writable");
    assert_eq!(ProvisionError::WriteFailed.describe(), "the executable could not be written");
}

#[test]
fn spawn_errors_read_as_stated() {
    assert_eq!(SpawnError::NotFound.describe(), "the executable was not found");
    assert_eq!(SpawnError::PermissionDenied.describe(), "the executable may not be run");
    assert_eq!(SpawnError::Other.describe(), "the process could not be started");
}

#[test]
fn stream_errors_read_as_stated() {
    assert_eq!(StreamError::ReadFailed.describe(), "reading the process output failed");
    assert_eq!(StreamError::DecodeFallback.describe(), "malformed text was replaced");
}

#[test]
fn only_a_failed_read_ends_a_stream() {
    assert!(StreamError::ReadFailed.is_terminal());
    assert!(!StreamError::DecodeFallback.is_terminal());
}

#[test]
fn directory_faults_read_as_stated() {
    assert_eq!(DirectoryFault::Occupied.describe(), "the path is taken by something that is no directory");
    assert_eq!(DirectoryFault::CreateFailed.describe(), "the directory could not be created");
}

#[test]
fn provisioning_failure_names_the_binary() {
    assert_eq!(
        JobError::ProvisionFailed(BinaryKind::Downloader, ProvisionError::WriteFailed).describe(),
        "provisioning downloader failed: the executable could not be written"
    );
    assert_eq!(
        JobError::ProvisionFailed(BinaryKind::Transcoder, ProvisionError::DirectoryUnwritable).describe(),
        "provisioning transcoder failed: the binaries directory is not writable"
    );
}

#[test]
fn spawn_failure_names_the_phase() {
    assert_eq!(
        JobError::SpawnFailed(Phase::VerifyDownloader, SpawnError::NotFound).describe(),
        "starting the process of verify-downloader failed: the executable was not found"
    );
    assert_eq!(
        JobError::SpawnFailed(Phase::Download, SpawnError::PermissionDenied).describe(),
        "starting the process of download failed: the executable may not be run"
    );
    assert_eq!(
        JobError::SpawnFailed(Phase::VerifyTranscoder, SpawnError::Other).describe(),
        "starting the process of verify-transcoder failed: the process could not be started"
    );
}

#[test]
fn directory_failure_names_the_fault() {
    assert_eq!(
        JobError::DirectoryCreateFailed(DirectoryFault::Occupied).describe(),
        "creating the target directory failed: the path is taken by something that is no directory"
    );
    assert_eq!(
        JobError::DirectoryCreateFailed(DirectoryFault::CreateFailed).describe(),
        "creating the target directory failed: the directory could not be created"
    );
}

#[test]
fn phases_have_their_tags() {
    assert_eq!(Phase::ProvisionDownloader.label(), "provision-downloader");
    assert_eq!(Phase::VerifyDownloader.label(), "verify-downloader");
    assert_eq!(Phase::ProvisionTranscoder.label(), "provision-transcoder");
    assert_eq!(Phase::VerifyTranscoder.label(), "verify-transcoder");
    assert_eq!(Phase::Download.label(), "download");
}

#[test]
fn outcomes_say_what_they_are() {
    let good = JobOutcome::Success("Download finished".to_string());
    let bad = JobOutcome::Failure("no".to_string());
    assert!(good.is_success());
    assert!(!bad.is_success());
    assert_eq!(good.text(), "Download finished");
    assert_eq!(bad.text(), "no");
}
