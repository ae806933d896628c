//! The download job: a state machine from events to directives.
//!
//! A job goes through its phases in order: the downloader is put on disk and
//! asked for its version, then the transcoder, then the target directory is
//! secured and the download runs. Each call of [`Job::step`] takes what
//! happened outside and answers with the log lines that came of it and with
//! what to do next. [`transition`] says, for every state and every event,
//! what that answer is.

use vstd::prelude::*;
use crate::binary::BinaryKind;
use crate::command::{download_command, download_of, version_probe, version_probe_of, Command, CommandView};
use crate::error::{DirectoryFault, JobError, SpawnError, StreamError};
use crate::lines::{cut_chunk, frame_from, line_texts, open_line_text, take_open_line, texts_of};
use crate::log::{log_views, success_summary, tagged, JobOutcome, LogLine, LogLineView, OutcomeView, Phase, StreamTag};
use crate::provision::{awaited, awaits, binary_path, path_of, request_of, save_ffmpeg_to_file, save_ytdlp_to_file, stage_after, CreateOutcome, FileReply, PathKind, ProvisionStage, ProvisionStep, ProvisionStepView, ProvisionedBinary, ProvisionedBinaryView, Provisioning};

verus! {

/// A child process that a job runs.
#[derive(Clone, Copy, Debug, PartialEq, Eq, Structural)]
pub enum Run {
    /// An executable is asked for its version.
    Probe(BinaryKind),
    /// The downloader fetches the source.
    Download,
}

impl Run {
    /// The phase that the process belongs to.
    pub open spec fn phase_of(self) -> Phase {
        match self {
            Run::Probe(BinaryKind::Downloader) => Phase::VerifyDownloader,
            Run::Probe(BinaryKind::Transcoder) => Phase::VerifyTranscoder,
            Run::Download => Phase::Download,
        }
    }

    /// The stream of the process that is captured and logged.
    pub open spec fn stream_of(self) -> StreamTag {
        match self {
            Run::Probe(_) => StreamTag::Stderr,
            Run::Download => StreamTag::Stdout,
        }
    }

    /// The phase that the process belongs to.
    pub fn phase(&self) -> (phase: Phase)
        ensures
            phase == self.phase_of(),
    {
        match self {
            Run::Probe(BinaryKind::Downloader) => Phase::VerifyDownloader,
            Run::Probe(BinaryKind::Transcoder) => Phase::VerifyTranscoder,
            Run::Download => Phase::Download,
        }
    }

    /// The stream of the process that is captured and logged.
    pub fn stream(&self) -> (stream: StreamTag)
        ensures
            stream == self.stream_of(),
    {
        match self {
            Run::Probe(_) => StreamTag::Stderr,
            Run::Download => StreamTag::Stdout,
        }
    }
}

/// Where a job stands.
#[derive(Clone, Copy, Debug, PartialEq, Eq, Structural)]
pub enum Stage {
    /// The job was submitted and has not begun.
    Submitted,
    /// An executable is being put on disk.
    Provisioning(Provisioning),
    /// A process was asked for and has not started yet.
    Launching(Run),
    /// A process runs and its output is read.
    Reading(Run),
    /// The target directory is being looked at.
    ProbingTarget,
    /// The target directory is being made.
    CreatingTarget,
    /// The job has ended and its outcome was handed out.
    Finished,
}

impl Stage {
    /// The phase that the stage is part of, if the job runs.
    pub open spec fn phase_of(self) -> Option<Phase> {
        match self {
            Stage::Submitted => None,
            Stage::Provisioning(task) => Some(
                match task.binary {
                    BinaryKind::Downloader => Phase::ProvisionDownloader,
                    BinaryKind::Transcoder => Phase::ProvisionTranscoder,
                },
            ),
            Stage::Launching(run) => Some(run.phase_of()),
            Stage::Reading(run) => Some(run.phase_of()),
            Stage::ProbingTarget => Some(Phase::Download),
            Stage::CreatingTarget => Some(Phase::Download),
            Stage::Finished => None,
        }
    }

    /// The phase that the stage is part of, if the job runs.
    pub fn phase(&self) -> (phase: Option<Phase>)
        ensures
            phase == self.phase_of(),
    {
        match self {
            Stage::Submitted => None,
            Stage::Provisioning(task) => Some(
                match task.binary {
                    BinaryKind::Downloader => Phase::ProvisionDownloader,
                    BinaryKind::Transcoder => Phase::ProvisionTranscoder,
                },
            ),
            Stage::Launching(run) => Some(run.phase()),
            Stage::Reading(run) => Some(run.phase()),
            Stage::ProbingTarget => Some(Phase::Download),
            Stage::CreatingTarget => Some(Phase::Download),
            Stage::Finished => None,
        }
    }
}

/// Something that happened outside and that a job is told of.
#[derive(Clone, Debug, PartialEq, Eq)]
pub enum Event {
    /// The job may begin.
    Start,
    /// The file system answered the last request.
    File(FileReply),
    /// The process that was asked for runs.
    Spawned,
    /// The process that was asked for could not be started.
    SpawnFailed(SpawnError),
    /// The captured stream of the running process delivered these bytes.
    Output(Vec<u8>),
    /// The captured stream reached its end.
    StreamClosed,
    /// Reading the captured stream failed.
    StreamFailed,
}

/// An [`Event`] as contracts see it.
pub enum EventView {
    Start,
    File(FileReply),
    Spawned,
    SpawnFailed(SpawnError),
    Output(Seq<u8>),
    StreamClosed,
    StreamFailed,
}

impl View for Event {
    type V = EventView;

    open spec fn view(&self) -> EventView {
        match self {
            Event::Start => EventView::Start,
            Event::File(reply) => EventView::File(*reply),
            Event::Spawned => EventView::Spawned,
            Event::SpawnFailed(error) => EventView::SpawnFailed(*error),
            Event::Output(bytes) => EventView::Output(bytes@),
            Event::StreamClosed => EventView::StreamClosed,
            Event::StreamFailed => EventView::StreamFailed,
        }
    }
}

/// What a job wants done next.
#[derive(Clone, Debug, PartialEq, Eq)]
pub enum Directive {
    /// Look at this path and answer with [`FileReply::Probed`].
    ProbeDirectory(String),
    /// Make this directory and answer with [`FileReply::Created`].
    CreateDirectory(String),
    /// Write the payload of this executable to its path, replacing what the
    /// file held, and answer with [`FileReply::Written`].
    WriteBinary(ProvisionedBinary),
    /// Start this process without waiting for it, and answer with
    /// [`Event::Spawned`] or [`Event::SpawnFailed`]. Then hand over what its
    /// captured stream delivers until the stream ends.
    Spawn(Command),
    /// Nothing new: go on with what is under way.
    Wait,
    /// The job has ended, with this outcome.
    Finish(JobOutcome),
}

/// A [`Directive`] as contracts see it.
pub enum DirectiveView {
    ProbeDirectory(Seq<char>),
    CreateDirectory(Seq<char>),
    WriteBinary(ProvisionedBinaryView),
    Spawn(CommandView),
    Wait,
    Finish(OutcomeView),
}

impl View for Directive {
    type V = DirectiveView;

    open spec fn view(&self) -> DirectiveView {
        match self {
            Directive::ProbeDirectory(path) => DirectiveView::ProbeDirectory(path@),
            Directive::CreateDirectory(path) => DirectiveView::CreateDirectory(path@),
            Directive::WriteBinary(binary) => DirectiveView::WriteBinary(binary@),
            Directive::Spawn(command) => DirectiveView::Spawn(command@),
            Directive::Wait => DirectiveView::Wait,
            Directive::Finish(outcome) => DirectiveView::Finish(outcome@),
        }
    }
}

/// The answer of a job to one event.
#[derive(Clone, Debug, PartialEq, Eq)]
pub struct Step {
    /// The log lines that the event brought, in order.
    pub logs: Vec<LogLine>,
    /// What to do next.
    pub directive: Directive,
}

/// A [`Step`] as contracts see it.
pub struct StepView {
    pub logs: Seq<LogLineView>,
    pub directive: DirectiveView,
}

impl View for Step {
    type V = StepView;

    open spec fn view(&self) -> StepView {
        StepView { logs: log_views(self.logs@), directive: self.directive@ }
    }
}

/// A job as contracts see it.
pub struct JobView {
    /// The address of the source.
    pub url: Seq<char>,
    /// The directory that receives the download.
    pub directory: Seq<char>,
    /// Where the job stands.
    pub stage: Stage,
    /// The bytes of the running process since its last newline.
    pub open: Seq<u8>,
}

/// A state together with the answer that led to it.
pub struct Transition {
    pub next: JobView,
    pub step: StepView,
}

/// A job that was submitted and has not begun.
pub open spec fn submitted(url: Seq<char>, directory: Seq<char>) -> JobView {
    JobView { url: url, directory: directory, stage: Stage::Submitted, open: Seq::empty() }
}

/// `job` at another stage, with no output pending.
pub open spec fn at_stage(job: JobView, stage: Stage) -> JobView {
    JobView { url: job.url, directory: job.directory, stage: stage, open: Seq::empty() }
}

/// The answer to an event that the job did not wait for: nothing changes.
pub open spec fn ignored(job: JobView) -> Transition {
    Transition { next: job, step: StepView { logs: Seq::empty(), directive: DirectiveView::Wait } }
}

/// The job is given up for `error`.
pub open spec fn given_up(job: JobView, error: JobError) -> Transition {
    Transition {
        next: at_stage(job, Stage::Finished),
        step: StepView {
            logs: Seq::empty(),
            directive: DirectiveView::Finish(OutcomeView::Failure(error.message())),
        },
    }
}

/// The job goes on with the provisioning `task`, after `logs` came in: it
/// hands on what the task asks for, probes the executable once it is on
/// disk, and gives up if it cannot be put there.
pub open spec fn provisioned(job: JobView, task: Provisioning, logs: Seq<LogLineView>) -> Transition {
    match request_of(task.binary, task.stage) {
        ProvisionStepView::ProbeDirectory(path) => Transition {
            next: at_stage(job, Stage::Provisioning(task)),
            step: StepView { logs: logs, directive: DirectiveView::ProbeDirectory(path) },
        },
        ProvisionStepView::CreateDirectory(path) => Transition {
            next: at_stage(job, Stage::Provisioning(task)),
            step: StepView { logs: logs, directive: DirectiveView::CreateDirectory(path) },
        },
        ProvisionStepView::WriteBinary(binary) => Transition {
            next: at_stage(job, Stage::Provisioning(task)),
            step: StepView { logs: logs, directive: DirectiveView::WriteBinary(binary) },
        },
        ProvisionStepView::Ready(binary) => Transition {
            next: at_stage(job, Stage::Launching(Run::Probe(task.binary))),
            step: StepView {
                logs: logs,
                directive: DirectiveView::Spawn(version_probe_of(task.binary, binary.path)),
            },
        },
        ProvisionStepView::Failed(error) => Transition {
            next: at_stage(job, Stage::Finished),
            step: StepView {
                logs: logs,
                directive: DirectiveView::Finish(
                    OutcomeView::Failure(JobError::ProvisionFailed(task.binary, error).message()),
                ),
            },
        },
    }
}

/// The target directory is there: the download is started.
pub open spec fn download_launched(job: JobView) -> Transition {
    Transition {
        next: at_stage(job, Stage::Launching(Run::Download)),
        step: StepView {
            logs: Seq::empty(),
            directive: DirectiveView::Spawn(
                download_of(binary_path(BinaryKind::Downloader), job.directory, job.url),
            ),
        },
    }
}

/// The stream of `run` has ended, and `logs` is the last that came of it.
/// After a probe the job goes on to the next phase, whatever the probe said;
/// after the download it ends in success, whatever the downloader's exit.
pub open spec fn stream_ended(job: JobView, run: Run, logs: Seq<LogLineView>) -> Transition {
    match run {
        Run::Probe(BinaryKind::Downloader) => provisioned(
            job,
            Provisioning { binary: BinaryKind::Transcoder, stage: ProvisionStage::ProbingDirectory },
            logs,
        ),
        Run::Probe(BinaryKind::Transcoder) => Transition {
            next: at_stage(job, Stage::ProbingTarget),
            step: StepView { logs: logs, directive: DirectiveView::ProbeDirectory(job.directory) },
        },
        Run::Download => Transition {
            next: at_stage(job, Stage::Finished),
            step: StepView {
                logs: logs,
                directive: DirectiveView::Finish(OutcomeView::Success(success_summary())),
            },
        },
    }
}

/// The lines that the end of a stream brings: the line that was still open,
/// if there is one.
pub open spec fn closing_lines(open: Seq<u8>, run: Run) -> Seq<LogLineView> {
    match open_line_text(open) {
        Some(text) => seq![
            LogLineView { text: text, stream: run.stream_of(), phase: run.phase_of() },
        ],
        None => Seq::empty(),
    }
}

/// The one line that reports a failed read.
pub open spec fn failure_lines(run: Run) -> Seq<LogLineView> {
    seq![
        LogLineView {
            text: StreamError::ReadFailed.detail(),
            stream: run.stream_of(),
            phase: run.phase_of(),
        },
    ]
}

/// What a job in state `job` answers to `event`, and the state it is in
/// afterwards.
pub open spec fn transition(job: JobView, event: EventView) -> Transition {
    match (job.stage, event) {
        (Stage::Submitted, EventView::Start) => provisioned(
            job,
            Provisioning { binary: BinaryKind::Downloader, stage: ProvisionStage::ProbingDirectory },
            Seq::empty(),
        ),
        (Stage::Provisioning(task), EventView::File(reply)) => if awaited(task.stage, reply) {
            provisioned(
                job,
                Provisioning { binary: task.binary, stage: stage_after(task.stage, reply) },
                Seq::empty(),
            )
        } else {
            ignored(job)
        },
        (Stage::Launching(run), EventView::Spawned) => Transition {
            next: at_stage(job, Stage::Reading(run)),
            step: StepView { logs: Seq::empty(), directive: DirectiveView::Wait },
        },
        (Stage::Launching(run), EventView::SpawnFailed(error)) => given_up(
            job,
            JobError::SpawnFailed(run.phase_of(), error),
        ),
        (Stage::Reading(run), EventView::Output(bytes)) => Transition {
            next: JobView {
                url: job.url,
                directory: job.directory,
                stage: job.stage,
                open: frame_from(job.open, bytes).rest,
            },
            step: StepView {
                logs: tagged(
                    line_texts(frame_from(job.open, bytes).lines),
                    run.stream_of(),
                    run.phase_of(),
                ),
                directive: DirectiveView::Wait,
            },
        },
        (Stage::Reading(run), EventView::StreamClosed) => stream_ended(
            job,
            run,
            closing_lines(job.open, run),
        ),
        (Stage::Reading(run), EventView::StreamFailed) => stream_ended(
            job,
            run,
            failure_lines(run),
        ),
        (Stage::ProbingTarget, EventView::File(FileReply::Probed(found))) => match found {
            PathKind::Directory => download_launched(job),
            PathKind::Missing => Transition {
                next: at_stage(job, Stage::CreatingTarget),
                step: StepView {
                    logs: Seq::empty(),
                    directive: DirectiveView::CreateDirectory(job.directory),
                },
            },
            PathKind::Occupied => given_up(
                job,
                JobError::DirectoryCreateFailed(DirectoryFault::Occupied),
            ),
        },
        (Stage::CreatingTarget, EventView::File(FileReply::Created(outcome))) => match outcome {
            CreateOutcome::Created => download_launched(job),
            CreateOutcome::AlreadyExists => download_launched(job),
            CreateOutcome::Failed => given_up(
                job,
                JobError::DirectoryCreateFailed(DirectoryFault::CreateFailed),
            ),
        },
        _ => ignored(job),
    }
}

/// One download: a source, a target directory, and how far it has come.
///
/// A job is driven from outside. [`submit_job`] makes it, [`Event::Start`]
/// begins it, and every later event is what came of the last directive or
/// what the running process wrote. The job hands out exactly one
/// [`Directive::Finish`]; after that it answers every event with
/// [`Directive::Wait`] and nothing else.
#[derive(Debug)]
pub struct Job {
    url: String,
    directory: String,
    stage: Stage,
    open: Vec<u8>,
}

impl View for Job {
    type V = JobView;

    closed spec fn view(&self) -> JobView {
        JobView {
            url: self.url@,
            directory: self.directory@,
            stage: self.stage,
            open: self.open@,
        }
    }
}

/// Gives every text the same stream and phase.
fn tag_lines(texts: Vec<String>, stream: StreamTag, phase: Phase) -> (logs: Vec<LogLine>)
    ensures
        log_views(logs@) == tagged(texts_of(texts@), stream, phase),
{
    let mut logs: Vec<LogLine> = Vec::new();
    let mut i: usize = 0;
    while i < texts.len()
        invariant
            i <= texts.len(),
            logs@.len() == i,
            forall|k: int|
                0 <= k < i ==> (#[trigger] logs@[k])@ == (LogLineView {
                    text: texts@[k]@,
                    stream: stream,
                    phase: phase,
                }),
        decreases texts.len() - i,
    {
        let text: String = texts[i].clone();
        logs.push(LogLine { text: text, stream: stream, phase: phase });
        i = i + 1;
    }
    assert(log_views(logs@) =~= tagged(texts_of(texts@), stream, phase));
    logs
}

/// No log lines.
fn no_lines() -> (logs: Vec<LogLine>)
    ensures
        log_views(logs@) == Seq::<LogLineView>::empty(),
{
    let logs: Vec<LogLine> = Vec::new();
    assert(log_views(logs@) =~= Seq::<LogLineView>::empty());
    logs
}

/// Takes a new download job. Nothing happens until the job is started.
pub fn submit_job(source_url: &str, target_directory: &str) -> (job: Job)
    ensures
        job@ == submitted(source_url@, target_directory@),
{
    Job {
        url: String::from_str(source_url),
        directory: String::from_str(target_directory),
        stage: Stage::Submitted,
        open: Vec::new(),
    }
}

impl Job {
    /// Where the job stands.
    pub fn stage(&self) -> (stage: Stage)
        ensures
            stage == self@.stage,
    {
        self.stage
    }

    /// Whether the job has ended.
    pub fn is_finished(&self) -> (finished: bool)
        ensures
            finished == (self@.stage == Stage::Finished),
    {
        match self.stage {
            Stage::Finished => true,
            _ => false,
        }
    }

    /// The address of the source.
    pub fn source_url(&self) -> (url: &str)
        ensures
            url@ == self@.url,
    {
        self.url.as_str()
    }

    /// The directory that receives the download.
    pub fn target_directory(&self) -> (directory: &str)
        ensures
            directory@ == self@.directory,
    {
        self.directory.as_str()
    }

    /// Moves to `stage` and forgets what output was pending.
    fn move_to(&mut self, stage: Stage)
        ensures
            final(self)@ == at_stage(old(self)@, stage),
    {
        self.stage = stage;
        self.open.clear();
    }

    /// Gives the job up.
    fn give_up(&mut self, error: JobError) -> (step: Step)
        ensures
            final(self)@ == given_up(old(self)@, error).next,
            step@ == given_up(old(self)@, error).step,
    {
        self.move_to(Stage::Finished);
        Step { logs: no_lines(), directive: Directive::Finish(JobOutcome::Failure(error.describe())) }
    }

    /// Goes on with a provisioning.
    fn provision(&mut self, task: Provisioning, logs: Vec<LogLine>) -> (step: Step)
        ensures
            final(self)@ == provisioned(old(self)@, task, log_views(logs@)).next,
            step@ == provisioned(old(self)@, task, log_views(logs@)).step,
    {
        match task.request() {
            ProvisionStep::ProbeDirectory(path) => {
                self.move_to(Stage::Provisioning(task));
                Step { logs: logs, directive: Directive::ProbeDirectory(path) }
            },
            ProvisionStep::CreateDirectory(path) => {
                self.move_to(Stage::Provisioning(task));
                Step { logs: logs, directive: Directive::CreateDirectory(path) }
            },
            ProvisionStep::WriteBinary(binary) => {
                self.move_to(Stage::Provisioning(task));
                Step { logs: logs, directive: Directive::WriteBinary(binary) }
            },
            ProvisionStep::Ready(binary) => {
                self.move_to(Stage::Launching(Run::Probe(task.binary)));
                let command: Command = version_probe(task.binary, binary.path.as_str());
                Step { logs: logs, directive: Directive::Spawn(command) }
            },
            ProvisionStep::Failed(error) => {
                self.move_to(Stage::Finished);
                let reason: String = JobError::ProvisionFailed(task.binary, error).describe();
                Step { logs: logs, directive: Directive::Finish(JobOutcome::Failure(reason)) }
            },
        }
    }

    /// Starts the download.
    fn launch_download(&mut self) -> (step: Step)
        ensures
            final(self)@ == download_launched(old(self)@).next,
            step@ == download_launched(old(self)@).step,
    {
        let program: String = path_of(BinaryKind::Downloader);
        let command: Command = download_command(
            program.as_str(),
            self.directory.as_str(),
            self.url.as_str(),
        );
        self.move_to(Stage::Launching(Run::Download));
        Step { logs: no_lines(), directive: Directive::Spawn(command) }
    }

    /// Goes on after the stream of `run` has ended.
    fn end_stream(&mut self, run: Run, logs: Vec<LogLine>) -> (step: Step)
        ensures
            final(self)@ == stream_ended(old(self)@, run, log_views(logs@)).next,
            step@ == stream_ended(old(self)@, run, log_views(logs@)).step,
    {
        match run {
            Run::Probe(BinaryKind::Downloader) => self.provision(save_ffmpeg_to_file(), logs),
            Run::Probe(BinaryKind::Transcoder) => {
                let path: String = self.directory.clone();
                self.move_to(Stage::ProbingTarget);
                Step { logs: logs, directive: Directive::ProbeDirectory(path) }
            },
            Run::Download => {
                self.move_to(Stage::Finished);
                let summary: String = String::from_str("Download finished");
                Step { logs: logs, directive: Directive::Finish(JobOutcome::Success(summary)) }
            },
        }
    }

    /// The lines that the end of the stream of `run` brings.
    fn last_lines(&mut self, run: Run) -> (logs: Vec<LogLine>)
        ensures
            log_views(logs@) == closing_lines(old(self)@.open, run),
            final(self)@ == at_stage(old(self)@, old(self)@.stage),
    {
        let mut logs: Vec<LogLine> = Vec::new();
        match take_open_line(&mut self.open) {
            Some(text) => {
                logs.push(LogLine { text: text, stream: run.stream(), phase: run.phase() });
            },
            None => {},
        }
        assert(log_views(logs@) =~= closing_lines(old(self)@.open, run));
        logs
    }

    /// The one line that reports a failed read of the stream of `run`.
    fn failure_report(run: Run) -> (logs: Vec<LogLine>)
        ensures
            log_views(logs@) == failure_lines(run),
    {
        let mut logs: Vec<LogLine> = Vec::new();
        logs.push(
            LogLine {
                text: String::from_str(StreamError::ReadFailed.describe()),
                stream: run.stream(),
                phase: run.phase(),
            },
        );
        assert(log_views(logs@) =~= failure_lines(run));
        logs
    }

    /// An answer that changes nothing.
    fn ignore(&self) -> (step: Step)
        ensures
            step@ == ignored(self@).step,
    {
        Step { logs: no_lines(), directive: Directive::Wait }
    }

    /// Tells the job what happened and returns its answer.
    ///
    /// The answer and the state afterwards are those of [`transition`]: the
    /// job acts on the event that its stage waits for and ignores any other.
    pub fn step(&mut self, event: Event) -> (step: Step)
        ensures
            final(self)@ == transition(old(self)@, event@).next,
            step@ == transition(old(self)@, event@).step,
    {
        match self.stage {
            Stage::Submitted => match event {
                Event::Start => self.provision(save_ytdlp_to_file(), no_lines()),
                _ => self.ignore(),
            },
            Stage::Provisioning(task) => match event {
                Event::File(reply) => {
                    let mut task: Provisioning = task;
                    if awaits(task.stage, reply) {
                        task.reply(reply);
                        self.provision(task, no_lines())
                    } else {
                        self.ignore()
                    }
                },
                _ => self.ignore(),
            },
            Stage::Launching(run) => match event {
                Event::Spawned => {
                    self.move_to(Stage::Reading(run));
                    Step { logs: no_lines(), directive: Directive::Wait }
                },
                Event::SpawnFailed(error) => self.give_up(
                    JobError::SpawnFailed(run.phase(), error),
                ),
                _ => self.ignore(),
            },
            Stage::Reading(run) => match event {
                Event::Output(bytes) => {
                    let texts: Vec<String> = cut_chunk(&mut self.open, bytes.as_slice());
                    let logs: Vec<LogLine> = tag_lines(texts, run.stream(), run.phase());
                    Step { logs: logs, directive: Directive::Wait }
                },
                Event::StreamClosed => {
                    let logs: Vec<LogLine> = self.last_lines(run);
                    self.end_stream(run, logs)
                },
                Event::StreamFailed => {
                    let logs: Vec<LogLine> = Self::failure_report(run);
                    self.end_stream(run, logs)
                },
                _ => self.ignore(),
            },
            Stage::ProbingTarget => match event {
                Event::File(FileReply::Probed(found)) => match found {
                    PathKind::Directory => self.launch_download(),
                    PathKind::Missing => {
                        let path: String = self.directory.clone();
                        self.move_to(Stage::CreatingTarget);
                        Step { logs: no_lines(), directive: Directive::CreateDirectory(path) }
                    },
                    PathKind::Occupied => self.give_up(
                        JobError::DirectoryCreateFailed(DirectoryFault::Occupied),
                    ),
                },
                _ => self.ignore(),
            },
            Stage::CreatingTarget => match event {
                Event::File(FileReply::Created(outcome)) => match outcome {
                    CreateOutcome::Created => self.launch_download(),
                    CreateOutcome::AlreadyExists => self.launch_download(),
                    CreateOutcome::Failed => self.give_up(
                        JobError::DirectoryCreateFailed(DirectoryFault::CreateFailed),
                    ),
                },
                _ => self.ignore(),
            },
            Stage::Finished => self.ignore(),
        }
    }
}

} // verus!
