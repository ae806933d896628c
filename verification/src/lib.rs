//! Download orchestration core of a desktop audio fetcher.
//!
//! The crate decides; its caller performs. Every step that touches the file
//! system or a child process is handed out as a directive, and what came of it
//! is handed back as an event. The decisions in between are verified.
//!
//! * [`application`] keeps the state behind the window.
//! * [`binary`] names the two helper executables.
//! * [`command`] builds the command lines that a job runs.
//! * [`error`] lists what can fail, and how each failure reads.
//! * [`history`] states what a job does over any sequence of events.
//! * [`job`] is the download job itself.
//! * [`lines`] cuts captured process output into text lines.
//! * [`log`] holds log lines and job outcomes.
//! * [`path`] joins directory and file names.
//! * [`provision`] puts the helper executables on disk.

pub mod application;
pub mod binary;
pub mod command;
pub mod error;
pub mod history;
pub mod job;
pub mod lines;
pub mod log;
pub mod path;
pub mod provision;
