//! What a job tells the outside: log lines while it runs, one outcome at its end.

use vstd::prelude::*;

verus! {

/// One sequential step of a job.
#[derive(Clone, Copy, Debug, PartialEq, Eq, Structural)]
pub enum Phase {
    /// The downloader is written to disk.
    ProvisionDownloader,
    /// The downloader is asked for its version.
    VerifyDownloader,
    /// The transcoder is written to disk.
    ProvisionTranscoder,
    /// The transcoder is asked for its version.
    VerifyTranscoder,
    /// The download itself runs.
    Download,
}

impl Phase {
    /// The tag under which the phase appears in the log.
    pub open spec fn tag(self) -> Seq<char> {
        match self {
            Phase::ProvisionDownloader => "provision-downloader"@,
            Phase::VerifyDownloader => "verify-downloader"@,
            Phase::ProvisionTranscoder => "provision-transcoder"@,
            Phase::VerifyTranscoder => "verify-transcoder"@,
            Phase::Download => "download"@,
        }
    }

    /// The tag under which the phase appears in the log.
    pub fn label(&self) -> (text: &'static str)
        ensures
            text@ == self.tag(),
    {
        match self {
            Phase::ProvisionDownloader => "provision-downloader",
            Phase::VerifyDownloader => "verify-downloader",
            Phase::ProvisionTranscoder => "provision-transcoder",
            Phase::VerifyTranscoder => "verify-transcoder",
            Phase::Download => "download",
        }
    }
}

/// The stream of a child process that a line came from.
#[derive(Clone, Copy, Debug, PartialEq, Eq, Structural)]
pub enum StreamTag {
    /// Standard output.
    Stdout,
    /// Standard error.
    Stderr,
}

/// One line of process output, with where it came from.
#[derive(Clone, Debug, PartialEq, Eq)]
pub struct LogLine {
    /// The text of the line, without its line ending.
    pub text: String,
    /// The stream that carried it.
    pub stream: StreamTag,
    /// The phase whose process wrote it.
    pub phase: Phase,
}

/// A [`LogLine`] as contracts see it.
pub struct LogLineView {
    pub text: Seq<char>,
    pub stream: StreamTag,
    pub phase: Phase,
}

impl View for LogLine {
    type V = LogLineView;

    open spec fn view(&self) -> LogLineView {
        LogLineView { text: self.text@, stream: self.stream, phase: self.phase }
    }
}

/// What the log lines of `lines` hold, in order.
pub open spec fn log_views(lines: Seq<LogLine>) -> Seq<LogLineView> {
    Seq::new(lines.len(), |i: int| lines[i]@)
}

/// The lines with the given texts, all from one stream of one phase.
pub open spec fn tagged(texts: Seq<Seq<char>>, stream: StreamTag, phase: Phase) -> Seq<
    LogLineView,
> {
    Seq::new(texts.len(), |i: int| LogLineView { text: texts[i], stream: stream, phase: phase })
}

/// How a job ended. A job ends once.
#[derive(Clone, Debug, PartialEq, Eq)]
pub enum JobOutcome {
    /// The download ran to the end of its output; the text sums it up.
    Success(String),
    /// The job was given up; the text says why.
    Failure(String),
}

/// A [`JobOutcome`] as contracts see it.
pub enum OutcomeView {
    Success(Seq<char>),
    Failure(Seq<char>),
}

impl View for JobOutcome {
    type V = OutcomeView;

    open spec fn view(&self) -> OutcomeView {
        match self {
            JobOutcome::Success(summary) => OutcomeView::Success(summary@),
            JobOutcome::Failure(reason) => OutcomeView::Failure(reason@),
        }
    }
}

/// The summary of every successful job.
pub open spec fn success_summary() -> Seq<char> {
    "Download finished"@
}

impl JobOutcome {
    /// Whether the job succeeded.
    pub fn is_success(&self) -> (yes: bool)
        ensures
            yes == (self@ is Success),
    {
        match self {
            JobOutcome::Success(_) => true,
            JobOutcome::Failure(_) => false,
        }
    }

    /// The text that the outcome carries: the summary or the reason.
    pub fn text(&self) -> (text: &str)
        ensures
            text@ == match self@ {
                OutcomeView::Success(summary) => summary,
                OutcomeView::Failure(reason) => reason,
            },
    {
        match self {
            JobOutcome::Success(summary) => summary.as_str(),
            JobOutcome::Failure(reason) => reason.as_str(),
        }
    }
}

} // verus!
