//! The state behind the window: two inputs, the log, and whether a job runs.
//!
//! The window sends messages; [`ApplicationState::update`] takes each one,
//! changes the state and says whether a download is to be started. At most
//! one job runs at a time: a request that comes while one is under way is
//! dropped.

use vstd::prelude::*;
use crate::job::{submit_job, submitted, Job, JobView};
use crate::lines::texts_of;
use crate::log::{JobOutcome, LogLine, OutcomeView};
use crate::path::{join, joined};

verus! {

/// What the window and the running job tell the application.
#[derive(Debug, Clone, PartialEq, Eq)]
pub enum Message {
    /// The target directory was edited.
    DirectoryPathChanged(String),
    /// The source address was edited.
    YoutubeUrlChanged(String),
    /// A download was asked for.
    DownloadYt,
    /// The job ended in success.
    Completed,
    /// The job ended in failure, for this reason.
    DownloadFailed(String),
    /// The log was to be copied. Nothing comes of it.
    CopyLogsPressed,
    /// The log was to be cleared. Nothing comes of it: the log only grows.
    ClearLogsPressed,
    /// A line for the log.
    LogUpdated(String),
}

/// A [`Message`] as contracts see it.
pub enum MessageView {
    DirectoryPathChanged(Seq<char>),
    YoutubeUrlChanged(Seq<char>),
    DownloadYt,
    Completed,
    DownloadFailed(Seq<char>),
    CopyLogsPressed,
    ClearLogsPressed,
    LogUpdated(Seq<char>),
}

impl View for Message {
    type V = MessageView;

    open spec fn view(&self) -> MessageView {
        match self {
            Message::DirectoryPathChanged(path) => MessageView::DirectoryPathChanged(path@),
            Message::YoutubeUrlChanged(url) => MessageView::YoutubeUrlChanged(url@),
            Message::DownloadYt => MessageView::DownloadYt,
            Message::Completed => MessageView::Completed,
            Message::DownloadFailed(reason) => MessageView::DownloadFailed(reason@),
            Message::CopyLogsPressed => MessageView::CopyLogsPressed,
            Message::ClearLogsPressed => MessageView::ClearLogsPressed,
            Message::LogUpdated(line) => MessageView::LogUpdated(line@),
        }
    }
}

/// The message that tells the application of an outcome.
pub open spec fn outcome_message(outcome: OutcomeView) -> MessageView {
    match outcome {
        OutcomeView::Success(_) => MessageView::Completed,
        OutcomeView::Failure(reason) => MessageView::DownloadFailed(reason),
    }
}

impl Message {
    /// The message that tells the application how a job ended.
    pub fn from_outcome(outcome: JobOutcome) -> (message: Message)
        ensures
            message@ == outcome_message(outcome@),
    {
        match outcome {
            JobOutcome::Success(_) => Message::Completed,
            JobOutcome::Failure(reason) => Message::DownloadFailed(reason),
        }
    }

    /// The message that puts a line of process output into the log.
    pub fn from_log(line: LogLine) -> (message: Message)
        ensures
            message@ == MessageView::LogUpdated(line@.text),
    {
        Message::LogUpdated(line.text)
    }
}

/// What the application is to do after a message.
#[derive(Debug)]
pub enum Effect {
    /// Nothing.
    Idle,
    /// Run this job.
    Run(Job),
}

/// An [`Effect`] as contracts see it.
pub enum EffectView {
    Idle,
    Run(JobView),
}

impl View for Effect {
    type V = EffectView;

    open spec fn view(&self) -> EffectView {
        match self {
            Effect::Idle => EffectView::Idle,
            Effect::Run(job) => EffectView::Run(job@),
        }
    }
}

/// The folder for music inside a home directory.
pub open spec fn music_folder() -> Seq<char> {
    "Music"@
}

/// The folder inside the music folder that downloads go to by default.
pub open spec fn playlist_folder() -> Seq<char> {
    "PLAYLIST_NAME"@
}

/// The target directory that the window starts with: the playlist folder in
/// the music folder of `home`, or of nothing where no home is known.
pub open spec fn default_directory(home: Option<Seq<char>>) -> Seq<char> {
    let base = match home {
        Some(path) => path,
        None => Seq::empty(),
    };
    joined(joined(base, music_folder()), playlist_folder())
}

/// The prefix of the log line that reports a failed job.
pub open spec fn failure_prefix() -> Seq<char> {
    "Download failed: "@
}

/// The text that shows `lines`: one after the other, with a newline between
/// each two.
pub open spec fn transcript_of(lines: Seq<Seq<char>>) -> Seq<char>
    decreases lines.len(),
{
    if lines.len() == 0 {
        Seq::empty()
    } else if lines.len() == 1 {
        lines[0]
    } else {
        transcript_of(lines.drop_last()) + seq!['\n'] + lines.last()
    }
}

/// The state of the application as contracts see it.
pub struct ApplicationView {
    /// The source address as typed.
    pub yt_url: Seq<char>,
    /// The target directory as typed.
    pub directory_path: Seq<char>,
    /// The lines of the log, oldest first.
    pub logs: Seq<Seq<char>>,
    /// Whether a job runs.
    pub busy: bool,
}

/// A state and what is to be done on reaching it.
pub struct Update {
    pub next: ApplicationView,
    pub effect: EffectView,
}

/// The state that the application starts in.
pub open spec fn initial(home: Option<Seq<char>>) -> ApplicationView {
    ApplicationView {
        yt_url: Seq::empty(),
        directory_path: default_directory(home),
        logs: Seq::empty(),
        busy: false,
    }
}

/// What `message` makes of `state`.
pub open spec fn updated(state: ApplicationView, message: MessageView) -> Update {
    match message {
        MessageView::DirectoryPathChanged(path) => Update {
            next: ApplicationView { directory_path: path, ..state },
            effect: EffectView::Idle,
        },
        MessageView::YoutubeUrlChanged(url) => Update {
            next: ApplicationView { yt_url: url, ..state },
            effect: EffectView::Idle,
        },
        MessageView::DownloadYt => if state.busy {
            Update { next: state, effect: EffectView::Idle }
        } else {
            Update {
                next: ApplicationView { busy: true, ..state },
                effect: EffectView::Run(submitted(state.yt_url, state.directory_path)),
            }
        },
        MessageView::Completed => Update {
            next: ApplicationView { busy: false, ..state },
            effect: EffectView::Idle,
        },
        MessageView::DownloadFailed(reason) => Update {
            next: ApplicationView {
                busy: false,
                logs: state.logs.push(failure_prefix() + reason),
                ..state
            },
            effect: EffectView::Idle,
        },
        MessageView::CopyLogsPressed => Update { next: state, effect: EffectView::Idle },
        MessageView::ClearLogsPressed => Update { next: state, effect: EffectView::Idle },
        MessageView::LogUpdated(line) => Update {
            next: ApplicationView { logs: state.logs.push(line), ..state },
            effect: EffectView::Idle,
        },
    }
}

/// Asks `dirs::home_dir` for the home directory of the user.
///
/// Trusted: the answer depends on the environment of the process, so
/// nothing is claimed of it.
#[verifier::external_body]
fn home_directory() -> (home: Option<String>) {
    match dirs::home_dir() {
        Some(path) => Some(path.to_string_lossy().into_owned()),
        None => None,
    }
}

/// What an optional string holds.
pub open spec fn home_view(home: Option<String>) -> Option<Seq<char>> {
    match home {
        Some(path) => Some(path@),
        None => None,
    }
}

/// The state behind the window.
#[derive(Debug)]
pub struct ApplicationState {
    yt_url: String,
    directory_path: String,
    logs: Vec<String>,
    busy: bool,
}

impl View for ApplicationState {
    type V = ApplicationView;

    closed spec fn view(&self) -> ApplicationView {
        ApplicationView {
            yt_url: self.yt_url@,
            directory_path: self.directory_path@,
            logs: texts_of(self.logs@),
            busy: self.busy,
        }
    }
}

impl ApplicationState {
    /// The state at start, for a user whose home directory is `home`.
    pub fn with_home(home: Option<String>) -> (state: Self)
        ensures
            state@ == initial(home_view(home)),
    {
        let music: String = match home {
            Some(path) => join(path.as_str(), "Music"),
            None => join("", "Music"),
        };
        proof {
            reveal_strlit("");
            assert(""@ =~= Seq::<char>::empty());
        }
        let state = ApplicationState {
            yt_url: String::new(),
            directory_path: join(music.as_str(), "PLAYLIST_NAME"),
            logs: Vec::new(),
            busy: false,
        };
        assert(state@.logs =~= Seq::<Seq<char>>::empty());
        state
    }

    /// The state at start, for the user that runs the process.
    pub fn new() -> (state: Self)
        ensures
            exists|home: Option<Seq<char>>| state@ == initial(home),
    {
        let home: Option<String> = home_directory();
        let ghost known = home_view(home);
        let state = Self::with_home(home);
        assert(state@ == initial(known));
        state
    }

    /// The source address as typed.
    pub fn yt_url(&self) -> (url: &str)
        ensures
            url@ == self@.yt_url,
    {
        self.yt_url.as_str()
    }

    /// The target directory as typed.
    pub fn directory_path(&self) -> (path: &str)
        ensures
            path@ == self@.directory_path,
    {
        self.directory_path.as_str()
    }

    /// Whether a job runs.
    pub fn is_busy(&self) -> (busy: bool)
        ensures
            busy == self@.busy,
    {
        self.busy
    }

    /// The lines of the log, oldest first.
    pub fn logs(&self) -> (lines: &Vec<String>)
        ensures
            texts_of(lines@) == self@.logs,
    {
        &self.logs
    }

    /// The log as one text, a newline between each two lines.
    pub fn transcript(&self) -> (text: String)
        ensures
            text@ == transcript_of(self@.logs),
    {
        let mut text: String = String::new();
        let mut i: usize = 0;
        proof {
            assert(texts_of(self.logs@).take(0) =~= Seq::<Seq<char>>::empty());
        }
        while i < self.logs.len()
            invariant
                i <= self.logs.len(),
                text@ == transcript_of(texts_of(self.logs@).take(i as int)),
            decreases self.logs.len() - i,
        {
            let ghost lines = texts_of(self.logs@);
            proof {
                assert(lines.take(i as int + 1).drop_last() =~= lines.take(i as int));
                assert(lines.take(i as int + 1).last() == self.logs@[i as int]@);
                reveal_strlit("\n");
                assert("\n"@ =~= seq!['\n']);
            }
            if i > 0 {
                text.append("\n");
            } else {
                assert(lines.take(1)[0] == self.logs@[0]@);
                assert(Seq::<char>::empty() + self.logs@[0]@ =~= self.logs@[0]@);
            }
            text.append(self.logs[i].as_str());
            i = i + 1;
        }
        proof {
            assert(texts_of(self.logs@).take(self.logs.len() as int) =~= texts_of(self.logs@));
        }
        text
    }

    /// Takes a message, changes the state and says what is to be done.
    ///
    /// A request for a download starts a job from the two inputs as they
    /// stand, unless a job runs already; the end of the job, in success or
    /// failure, makes room for the next.
    pub fn update(&mut self, message: Message) -> (effect: Effect)
        ensures
            final(self)@ == updated(old(self)@, message@).next,
            effect@ == updated(old(self)@, message@).effect,
    {
        match message {
            Message::DirectoryPathChanged(path) => {
                self.directory_path = path;
                Effect::Idle
            },
            Message::YoutubeUrlChanged(url) => {
                self.yt_url = url;
                Effect::Idle
            },
            Message::DownloadYt => {
                if self.busy {
                    Effect::Idle
                } else {
                    self.busy = true;
                    Effect::Run(submit_job(self.yt_url.as_str(), self.directory_path.as_str()))
                }
            },
            Message::Completed => {
                self.busy = false;
                Effect::Idle
            },
            Message::DownloadFailed(reason) => {
                self.busy = false;
                let mut line: String = String::from_str("Download failed: ");
                line.append(reason.as_str());
                self.logs.push(line);
                assert(self@.logs =~= old(self)@.logs.push(failure_prefix() + reason@));
                Effect::Idle
            },
            Message::CopyLogsPressed => Effect::Idle,
            Message::ClearLogsPressed => Effect::Idle,
            Message::LogUpdated(line) => {
                self.logs.push(line);
                assert(self@.logs =~= old(self)@.logs.push(line@));
                Effect::Idle
            },
        }
    }
}

/// The state that `state` is in after all of `messages`, in order.
pub open spec fn state_after(state: ApplicationView, messages: Seq<MessageView>) -> ApplicationView
    decreases messages.len(),
{
    if messages.len() == 0 {
        state
    } else {
        updated(state_after(state, messages.drop_last()), messages.last()).next
    }
}

/// Whether the message at `i` starts a job.
pub open spec fn starts_job(state: ApplicationView, messages: Seq<MessageView>, i: int) -> bool {
    0 <= i < messages.len() && updated(state_after(state, messages.take(i)), messages[i]).effect
        is Run
}

/// Whether the message tells of the end of a job.
pub open spec fn ends_job(message: MessageView) -> bool {
    message is Completed || message is DownloadFailed
}

/// While no job ends, a busy application stays busy.
pub proof fn lemma_busy_until_the_end(
    state: ApplicationView,
    messages: Seq<MessageView>,
    from: int,
    to: int,
)
    requires
        0 <= from <= to <= messages.len(),
        state_after(state, messages.take(from)).busy,
        forall|k: int| from <= k < to ==> !ends_job(#[trigger] messages[k]),
    ensures
        state_after(state, messages.take(to)).busy,
    decreases to - from,
{
    if from < to {
        lemma_busy_until_the_end(state, messages, from, to - 1);
        assert(messages.take(to).drop_last() =~= messages.take(to - 1));
        assert(messages.take(to).last() == messages[to - 1]);
        assert(!ends_job(messages[to - 1]));
    }
}

/// At most one job runs at a time: between any two messages that start a
/// job, one tells of the end of a job.
pub proof fn lemma_one_job_at_a_time(
    state: ApplicationView,
    messages: Seq<MessageView>,
    i: int,
    j: int,
)
    requires
        starts_job(state, messages, i),
        starts_job(state, messages, j),
        i < j,
    ensures
        exists|k: int| i < k < j && ends_job(#[trigger] messages[k]),
{
    if forall|k: int| i < k < j ==> !ends_job(#[trigger] messages[k]) {
        assert(messages.take(i + 1).drop_last() =~= messages.take(i));
        assert(messages.take(i + 1).last() == messages[i]);
        assert(state_after(state, messages.take(i + 1)).busy);
        lemma_busy_until_the_end(state, messages, i + 1, j);
        assert(false);
    }
}

} // verus!
