use audio_downloader::binary::BinaryKind;
use audio_downloader::command::{Capture, Command};
use audio_downloader::error::SpawnError;
use audio_downloader::job::{submit_job, Directive, Event, Job, Run, Stage, Step};
use audio_downloader::log::{JobOutcome, LogLine, Phase, StreamTag};
use audio_downloader::provision::{
    CreateOutcome, FileReply, PathKind, ProvisionStage, ProvisionedBinary, Provisioning,
    WriteOutcome,
};

const URL: &str = "https://example.test/watch?v=abc";
const DIRECTORY: &str = "/tmp/out";

fn strings(items: &[&str]) -> Vec<String> {
    items.iter().map(|s| s.to_string()).collect()
}

fn line(text: &str, stream: StreamTag, phase: Phase) -> LogLine {
    LogLine { text: text.to_string(), stream, phase }
}

fn quiet(directive: Directive) -> Step {
    Step { logs: Vec::new(), directive }
}

fn probed(found: PathKind) -> Event {
    Event::File(FileReply::Probed(found))
}

fn created(outcome: CreateOutcome) -> Event {
    Event::File(FileReply::Created(outcome))
}

fn written(outcome: WriteOutcome) -> Event {
    Event::File(FileReply::Written(outcome))
}

fn feed(job: &mut Job, events: Vec<Event>) -> Vec<Step> {
    events.into_iter().map(|event| job.step(event)).collect()
}

fn up_to_target_probe() -> Vec<Event> {
    vec![
        Event::Start,
        probed(PathKind::Directory),
        written(WriteOutcome::Written),
        Event::Spawned,
        Event::StreamClosed,
        probed(PathKind::Directory),
        written(WriteOutcome::Written),
        Event::Spawned,
        Event::StreamClosed,
    ]
}

fn download_spawn() -> Directive {
    Directive::Spawn(Command {
        program: "\\bin/yt-dlp.exe".to_string(),
        args: strings(&[
            "--extract-audio",
            "--format",
            "bestaudio/best",
            "--ignore-errors",
            "--no-playlist",
            "--continue",
            "--no-abort-on-error",
            "-o",
            "/tmp/out/%(title)s.%(ext)s",
            URL,
        ]),
        working_directory: Some(DIRECTORY.to_string()),
        capture: Capture::Stdout,
    })
}

#[test]
fn runs_and_stages_belong_to_their_phases() {
    assert_eq!(Run::Probe(BinaryKind::Downloader).phase(), Phase::VerifyDownloader);
    assert_eq!(Run::Probe(BinaryKind::Transcoder).phase(), Phase::VerifyTranscoder);
    assert_eq!(Run::Download.phase(), Phase::Download);
    assert_eq!(Run::Probe(BinaryKind::Downloader).stream(), StreamTag::Stderr);
    assert_eq!(Run::Probe(BinaryKind::Transcoder).stream(), StreamTag::Stderr);
    assert_eq!(Run::Download.stream(), StreamTag::Stdout);
    assert_eq!(Stage::Submitted.phase(), None);
    assert_eq!(Stage::Finished.phase(), None);
    assert_eq!(Stage::ProbingTarget.phase(), Some(Phase::Download));
    assert_eq!(Stage::CreatingTarget.phase(), Some(Phase::Download));
    assert_eq!(Stage::Launching(Run::Download).phase(), Some(Phase::Download));
    assert_eq!(
        Stage::Reading(Run::Probe(BinaryKind::Transcoder)).phase(),
        Some(Phase::VerifyTranscoder)
    );
    assert_eq!(
        Stage::Provisioning(Provisioning {
            binary: BinaryKind::Downloader,
            stage: ProvisionStage::WritingBinary
        })
        .phase(),
        Some(Phase::ProvisionDownloader)
    );
    assert_eq!(
        Stage::Provisioning(Provisioning {
            binary: BinaryKind::Transcoder,
            stage: ProvisionStage::ProbingDirectory
        })
        .phase(),
        Some(Phase::ProvisionTranscoder)
    );
}

#[test]
fn submitted_job_waits_for_its_start() {
    let mut job = submit_job(URL, DIRECTORY);
    assert_eq!(job.stage(), Stage::Submitted);
    assert!(!job.is_finished());
    assert_eq!(job.source_url(), URL);
    assert_eq!(job.target_directory(), DIRECTORY);
    assert_eq!(job.step(Event::Spawned), quiet(Directive::Wait));
    assert_eq!(job.step(Event::Output(b"x\n".to_vec())), quiet(Directive::Wait));
    assert_eq!(job.stage(), Stage::Submitted);
}

#[test]
fn whole_job_goes_through_its_phases() {
    let mut job = submit_job(URL, DIRECTORY);

    assert_eq!(job.step(Event::Start), quiet(Directive::ProbeDirectory("\\bin".to_string())));
    assert_eq!(job.stage().phase(), Some(Phase::ProvisionDownloader));
    assert_eq!(
        job.step(probed(PathKind::Missing)),
        quiet(Directive::CreateDirectory("\\bin".to_string()))
    );
    assert_eq!(
        job.step(created(CreateOutcome::Created)),
        quiet(Directive::WriteBinary(ProvisionedBinary {
            kind: BinaryKind::Downloader,
            path: "\\bin/yt-dlp.exe".to_string(),
        }))
    );
    assert_eq!(
        job.step(written(WriteOutcome::Written)),
        quiet(Directive::Spawn(Command {
            program: "\\bin/yt-dlp.exe".to_string(),
            args: strings(&["--version"]),
            working_directory: None,
            capture: Capture::Stderr,
        }))
    );
    assert_eq!(job.stage(), Stage::Launching(Run::Probe(BinaryKind::Downloader)));
    assert_eq!(job.step(Event::Spawned), quiet(Directive::Wait));
    assert_eq!(job.stage(), Stage::Reading(Run::Probe(BinaryKind::Downloader)));
    assert_eq!(
        job.step(Event::Output(b"2024.08.06\n".to_vec())),
        Step {
            logs: vec![line("2024.08.06", StreamTag::Stderr, Phase::VerifyDownloader)],
            directive: Directive::Wait,
        }
    );

    assert_eq!(
        job.step(Event::StreamClosed),
        quiet(Directive::ProbeDirectory("\\bin".to_string()))
    );
    assert_eq!(job.stage().phase(), Some(Phase::ProvisionTranscoder));
    assert_eq!(
        job.step(probed(PathKind::Directory)),
        quiet(Directive::WriteBinary(ProvisionedBinary {
            kind: BinaryKind::Transcoder,
            path: "\\bin/ffmpeg.exe".to_string(),
        }))
    );
    assert_eq!(
        job.step(written(WriteOutcome::Written)),
        quiet(Directive::Spawn(Command {
            program: "\\bin/ffmpeg.exe".to_string(),
            args: strings(&["-version"]),
            working_directory: None,
            capture: Capture::Stderr,
        }))
    );
    assert_eq!(job.step(Event::Spawned), quiet(Directive::Wait));
    assert_eq!(
        job.step(Event::Output(b"ffmpeg version 7.0\r\nbuilt with gcc\r\n".to_vec())),
        Step {
            logs: vec![
                line("ffmpeg version 7.0", StreamTag::Stderr, Phase::VerifyTranscoder),
                line("built with gcc", StreamTag::Stderr, Phase::VerifyTranscoder),
            ],
            directive: Directive::Wait,
        }
    );

    assert_eq!(
        job.step(Event::StreamClosed),
        quiet(Directive::ProbeDirectory(DIRECTORY.to_string()))
    );
    assert_eq!(job.stage(), Stage::ProbingTarget);
    assert_eq!(job.step(probed(PathKind::Directory)), quiet(download_spawn()));
    assert_eq!(job.stage(), Stage::Launching(Run::Download));
    assert_eq!(job.step(Event::Spawned), quiet(Directive::Wait));
    assert_eq!(
        job.step(Event::Output(b"[download] 50%\n[download] 100%\n".to_vec())),
        Step {
            logs: vec![
                line("[download] 50%", StreamTag::Stdout, Phase::Download),
                line("[download] 100%", StreamTag::Stdout, Phase::Download),
            ],
            directive: Directive::Wait,
        }
    );
    assert!(!job.is_finished());
    assert_eq!(
        job.step(Event::StreamClosed),
        quiet(Directive::Finish(JobOutcome::Success("Download finished".to_string())))
    );
    assert!(job.is_finished());
    assert_eq!(job.stage(), Stage::Finished);
}

#[test]
fn missing_target_directory_is_created_before_the_download() {
    let mut job = submit_job(URL, DIRECTORY);
    feed(&mut job, up_to_target_probe());
    assert_eq!(job.stage(), Stage::ProbingTarget);
    assert_eq!(
        job.step(probed(PathKind::Missing)),
        quiet(Directive::CreateDirectory(DIRECTORY.to_string()))
    );
    assert_eq!(job.stage(), Stage::CreatingTarget);
    assert_eq!(job.step(created(CreateOutcome::Created)), quiet(download_spawn()));
}

#[test]
fn target_directory_that_appeared_meanwhile_is_no_failure() {
    let mut job = submit_job(URL, DIRECTORY);
    feed(&mut job, up_to_target_probe());
    job.step(probed(PathKind::Missing));
    assert_eq!(job.step(created(CreateOutcome::AlreadyExists)), quiet(download_spawn()));
}

#[test]
fn target_taken_by_a_file_fails_without_download_lines() {
    let mut job = submit_job(URL, DIRECTORY);
    let mut steps = feed(&mut job, up_to_target_probe());
    steps.push(job.step(probed(PathKind::Occupied)));
    assert_eq!(
        steps.last().unwrap(),
        &quiet(Directive::Finish(JobOutcome::Failure(
            "creating the target directory failed: the path is taken by something that is no directory"
                .to_string()
        )))
    );
    assert!(job.is_finished());
    steps.extend(feed(
        &mut job,
        vec![Event::Spawned, Event::Output(b"late\n".to_vec()), Event::StreamClosed],
    ));
    for step in &steps {
        assert!(step.logs.iter().all(|log| log.phase != Phase::Download));
        assert!(!matches!(&step.directive, Directive::Spawn(command) if command.capture == Capture::Stdout));
    }
}

#[test]
fn target_directory_that_cannot_be_created_fails_the_job() {
    let mut job = submit_job(URL, DIRECTORY);
    feed(&mut job, up_to_target_probe());
    job.step(probed(PathKind::Missing));
    assert_eq!(
        job.step(created(CreateOutcome::Failed)),
        quiet(Directive::Finish(JobOutcome::Failure(
            "creating the target directory failed: the directory could not be created".to_string()
        )))
    );
    assert!(job.is_finished());
}

#[test]
fn downloader_that_cannot_be_written_fails_before_any_spawn() {
    let mut job = submit_job(URL, DIRECTORY);
    let steps = feed(
        &mut job,
        vec![Event::Start, probed(PathKind::Directory), written(WriteOutcome::Failed)],
    );
    match &steps[2].directive {
        Directive::Finish(JobOutcome::Failure(reason)) => {
            assert!(reason.contains("provisioning downloader failed"));
            assert_eq!(reason, "provisioning downloader failed: the executable could not be written");
        }
        other => panic!("expected a failure, got {:?}", other),
    }
    assert!(steps.iter().all(|step| !matches!(step.directive, Directive::Spawn(_))));
    assert!(job.is_finished());
}

#[test]
fn unwritable_binaries_directory_fails_before_any_spawn() {
    let mut job = submit_job(URL, DIRECTORY);
    let steps = feed(
        &mut job,
        vec![Event::Start, probed(PathKind::Missing), created(CreateOutcome::Failed)],
    );
    assert_eq!(
        steps[2],
        quiet(Directive::Finish(JobOutcome::Failure(
            "provisioning downloader failed: the binaries directory is not writable".to_string()
        )))
    );
    assert!(steps.iter().all(|step| !matches!(step.directive, Directive::Spawn(_))));
}

#[test]
fn transcoder_that_cannot_be_written_fails_the_job() {
    let mut job = submit_job(URL, DIRECTORY);
    let mut events = up_to_target_probe();
    events.truncate(6);
    feed(&mut job, events);
    assert_eq!(
        job.step(written(WriteOutcome::Failed)),
        quiet(Directive::Finish(JobOutcome::Failure(
            "provisioning transcoder failed: the executable could not be written".to_string()
        )))
    );
}

#[test]
fn probe_that_cannot_start_fails_the_job() {
    let mut job = submit_job(URL, DIRECTORY);
    feed(&mut job, vec![Event::Start, probed(PathKind::Directory), written(WriteOutcome::Written)]);
    assert_eq!(
        job.step(Event::SpawnFailed(SpawnError::PermissionDenied)),
        quiet(Directive::Finish(JobOutcome::Failure(
            "starting the process of verify-downloader failed: the executable may not be run"
                .to_string()
        )))
    );
    assert!(job.is_finished());
}

#[test]
fn download_that_cannot_start_fails_the_job() {
    let mut job = submit_job(URL, DIRECTORY);
    feed(&mut job, up_to_target_probe());
    job.step(probed(PathKind::Directory));
    assert_eq!(
        job.step(Event::SpawnFailed(SpawnError::NotFound)),
        quiet(Directive::Finish(JobOutcome::Failure(
            "starting the process of download failed: the executable was not found".to_string()
        )))
    );
}

#[test]
fn open_line_is_logged_when_the_stream_closes() {
    let mut job = submit_job(URL, DIRECTORY);
    feed(&mut job, up_to_target_probe());
    feed(&mut job, vec![probed(PathKind::Directory), Event::Spawned]);
    assert_eq!(job.step(Event::Output(b"Extracting".to_vec())), quiet(Directive::Wait));
    assert_eq!(
        job.step(Event::Output(b" audio\nDeleting ori".to_vec())),
        Step {
            logs: vec![line("Extracting audio", StreamTag::Stdout, Phase::Download)],
            directive: Directive::Wait,
        }
    );
    assert_eq!(
        job.step(Event::StreamClosed),
        Step {
            logs: vec![line("Deleting ori", StreamTag::Stdout, Phase::Download)],
            directive: Directive::Finish(JobOutcome::Success("Download finished".to_string())),
        }
    );
}

#[test]
fn failed_read_is_logged_once_and_does_not_fail_the_job() {
    let mut job = submit_job(URL, DIRECTORY);
    feed(&mut job, vec![Event::Start, probed(PathKind::Directory), written(WriteOutcome::Written)]);
    job.step(Event::Spawned);
    assert_eq!(job.step(Event::Output(b"partial".to_vec())), quiet(Directive::Wait));
    assert_eq!(
        job.step(Event::StreamFailed),
        Step {
            logs: vec![line(
                "reading the process output failed",
                StreamTag::Stderr,
                Phase::VerifyDownloader
            )],
            directive: Directive::ProbeDirectory("\\bin".to_string()),
        }
    );
    assert_eq!(job.stage().phase(), Some(Phase::ProvisionTranscoder));
    assert_eq!(job.step(Event::StreamFailed), quiet(Directive::Wait));
}

#[test]
fn failed_read_of_the_download_still_ends_in_success() {
    let mut job = submit_job(URL, DIRECTORY);
    feed(&mut job, up_to_target_probe());
    feed(&mut job, vec![probed(PathKind::Directory), Event::Spawned]);
    assert_eq!(
        job.step(Event::StreamFailed),
        Step {
            logs: vec![line(
                "reading the process output failed",
                StreamTag::Stdout,
                Phase::Download
            )],
            directive: Directive::Finish(JobOutcome::Success("Download finished".to_string())),
        }
    );
}

#[test]
fn malformed_output_is_replaced_and_the_job_goes_on() {
    let mut job = submit_job(URL, DIRECTORY);
    feed(&mut job, up_to_target_probe());
    feed(&mut job, vec![probed(PathKind::Directory), Event::Spawned]);
    assert_eq!(
        job.step(Event::Output(b"bad \xFF\xFE byte\nfine\n".to_vec())),
        Step {
            logs: vec![
                line("bad \u{FFFD}\u{FFFD} byte", StreamTag::Stdout, Phase::Download),
                line("fine", StreamTag::Stdout, Phase::Download),
            ],
            directive: Directive::Wait,
        }
    );
    assert_eq!(job.stage(), Stage::Reading(Run::Download));
}

#[test]
fn output_of_one_process_does_not_leak_into_the_next() {
    let mut job = submit_job(URL, DIRECTORY);
    feed(&mut job, vec![Event::Start, probed(PathKind::Directory), written(WriteOutcome::Written)]);
    job.step(Event::Spawned);
    job.step(Event::Output(b"left open".to_vec()));
    job.step(Event::StreamFailed);
    feed(&mut job, vec![probed(PathKind::Directory), written(WriteOutcome::Written), Event::Spawned]);
    assert_eq!(
        job.step(Event::Output(b"fresh\n".to_vec())),
        Step {
            logs: vec![line("fresh", StreamTag::Stderr, Phase::VerifyTranscoder)],
            directive: Directive::Wait,
        }
    );
}

#[test]
fn events_that_a_stage_does_not_wait_for_are_ignored() {
    let mut job = submit_job(URL, DIRECTORY);
    job.step(Event::Start);
    let stage = job.stage();
    for event in [
        Event::Start,
        Event::Spawned,
        Event::SpawnFailed(SpawnError::Other),
        Event::Output(b"x\n".to_vec()),
        Event::StreamClosed,
        Event::StreamFailed,
        written(WriteOutcome::Written),
        created(CreateOutcome::Failed),
    ] {
        assert_eq!(job.step(event), quiet(Directive::Wait));
        assert_eq!(job.stage(), stage);
    }
}

#[test]
fn finished_job_hands_out_nothing_more() {
    let mut job = submit_job(URL, DIRECTORY);
    let mut steps = feed(&mut job, up_to_target_probe());
    steps.extend(feed(
        &mut job,
        vec![probed(PathKind::Directory), Event::Spawned, Event::StreamClosed],
    ));
    assert!(job.is_finished());
    steps.extend(feed(
        &mut job,
        vec![
            Event::Start,
            probed(PathKind::Directory),
            written(WriteOutcome::Written),
            Event::Spawned,
            Event::Output(b"again\n".to_vec()),
            Event::StreamClosed,
            Event::StreamFailed,
            Event::SpawnFailed(SpawnError::NotFound),
        ],
    ));
    let outcomes = steps
        .iter()
        .filter(|step| matches!(step.directive, Directive::Finish(_)))
        .count();
    assert_eq!(outcomes, 1);
    for step in &steps[12..] {
        assert_eq!(step, &quiet(Directive::Wait));
    }
    assert!(job.is_finished());
}
