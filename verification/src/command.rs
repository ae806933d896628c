//! The command lines that a job runs.
//!
//! A command is a program path and a literal argument vector. Nothing here
//! passes through a shell, so a source address or a directory name is one
//! argument whatever characters it holds.

use vstd::prelude::*;
use crate::binary::BinaryKind;
use crate::lines::texts_of;
use crate::path::{join, joined};

verus! {

/// Which output of a child process is captured.
#[derive(Clone, Copy, Debug, PartialEq, Eq, Structural)]
pub enum Capture {
    /// Standard output only.
    Stdout,
    /// Standard error only.
    Stderr,
    /// Both streams.
    Both,
}

/// A child process to start.
#[derive(Clone, Debug, PartialEq, Eq)]
pub struct Command {
    /// The path of the executable.
    pub program: String,
    /// The arguments, one entry each, in order.
    pub args: Vec<String>,
    /// The directory to run in, if it is not the caller's own.
    pub working_directory: Option<String>,
    /// The output to capture.
    pub capture: Capture,
}

/// A [`Command`] as contracts see it.
pub struct CommandView {
    pub program: Seq<char>,
    pub args: Seq<Seq<char>>,
    pub working_directory: Option<Seq<char>>,
    pub capture: Capture,
}

impl View for Command {
    type V = CommandView;

    open spec fn view(&self) -> CommandView {
        CommandView {
            program: self.program@,
            args: texts_of(self.args@),
            working_directory: match self.working_directory {
                Some(directory) => Some(directory@),
                None => None,
            },
            capture: self.capture,
        }
    }
}

/// The file-name pattern that the downloader fills in for each download.
pub open spec fn output_pattern() -> Seq<char> {
    "%(title)s.%(ext)s"@
}

/// The command that asks the executable at `program` for its version. The
/// answer comes on standard error.
pub open spec fn version_probe_of(kind: BinaryKind, program: Seq<char>) -> CommandView {
    CommandView {
        program: program,
        args: seq![kind.version_flag()],
        working_directory: None,
        capture: Capture::Stderr,
    }
}

/// The arguments of a download into `directory` from `url`.
pub open spec fn download_args(directory: Seq<char>, url: Seq<char>) -> Seq<Seq<char>> {
    seq![
        "--extract-audio"@,
        "--format"@,
        "bestaudio/best"@,
        "--ignore-errors"@,
        "--no-playlist"@,
        "--continue"@,
        "--no-abort-on-error"@,
        "-o"@,
        joined(directory, output_pattern()),
        url,
    ]
}

/// The command that downloads the audio of `url` into `directory` with the
/// downloader at `program`. It runs inside `directory`, and its progress
/// comes on standard output.
pub open spec fn download_of(program: Seq<char>, directory: Seq<char>, url: Seq<char>) -> CommandView {
    CommandView {
        program: program,
        args: download_args(directory, url),
        working_directory: Some(directory),
        capture: Capture::Stdout,
    }
}

/// Builds the version probe of the executable at `program`.
pub fn version_probe(kind: BinaryKind, program: &str) -> (command: Command)
    ensures
        command@ == version_probe_of(kind, program@),
{
    let mut args: Vec<String> = Vec::new();
    args.push(String::from_str(kind.probe_flag()));
    let command = Command {
        program: String::from_str(program),
        args: args,
        working_directory: None,
        capture: Capture::Stderr,
    };
    assert(command@.args =~= seq![kind.version_flag()]);
    command
}

/// Builds the download of `url` into `directory` with the downloader at
/// `program`.
pub fn download_command(program: &str, directory: &str, url: &str) -> (command: Command)
    ensures
        command@ == download_of(program@, directory@, url@),
{
    let mut args: Vec<String> = Vec::new();
    args.push(String::from_str("--extract-audio"));
    args.push(String::from_str("--format"));
    args.push(String::from_str("bestaudio/best"));
    args.push(String::from_str("--ignore-errors"));
    args.push(String::from_str("--no-playlist"));
    args.push(String::from_str("--continue"));
    args.push(String::from_str("--no-abort-on-error"));
    args.push(String::from_str("-o"));
    args.push(join(directory, "%(title)s.%(ext)s"));
    args.push(String::from_str(url));
    let command = Command {
        program: String::from_str(program),
        args: args,
        working_directory: Some(String::from_str(directory)),
        capture: Capture::Stdout,
    };
    assert(command@.args =~= download_args(directory@, url@));
    command
}

/// A download command hands the source address over as its last argument,
/// whole and unchanged, and the output pattern right after `-o`.
pub proof fn lemma_download_args_shape(directory: Seq<char>, url: Seq<char>)
    ensures
        download_args(directory, url).len() == 10,
        download_args(directory, url).last() == url,
        download_args(directory, url)[7] == "-o"@,
        download_args(directory, url)[8] == joined(directory, output_pattern()),
{
}

} // verus!
