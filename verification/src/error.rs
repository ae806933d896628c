//! The ways in which a job and its parts can fail, and how each reads.

use vstd::prelude::*;
use crate::binary::BinaryKind;
use crate::log::Phase;

verus! {

/// Why a helper executable could not be put on disk.
#[derive(Clone, Copy, Debug, PartialEq, Eq, Structural)]
pub enum ProvisionError {
    /// The binaries directory is not there and cannot be made.
    DirectoryUnwritable,
    /// The executable could not be written into it.
    WriteFailed,
}

impl ProvisionError {
    /// The error in words.
    pub open spec fn detail(self) -> Seq<char> {
        match self {
            ProvisionError::DirectoryUnwritable => "the binaries directory is not writable"@,
            ProvisionError::WriteFailed => "the executable could not be written"@,
        }
    }

    /// The error in words.
    pub fn describe(&self) -> (text: &'static str)
        ensures
            text@ == self.detail(),
    {
        match self {
            ProvisionError::DirectoryUnwritable => "the binaries directory is not writable",
            ProvisionError::WriteFailed => "the executable could not be written",
        }
    }
}

/// Why a child process could not be started.
#[derive(Clone, Copy, Debug, PartialEq, Eq, Structural)]
pub enum SpawnError {
    /// There is no executable at the path.
    NotFound,
    /// The file at the path may not be executed.
    PermissionDenied,
    /// The platform refused for another reason.
    Other,
}

impl SpawnError {
    /// The error in words.
    pub open spec fn detail(self) -> Seq<char> {
        match self {
            SpawnError::NotFound => "the executable was not found"@,
            SpawnError::PermissionDenied => "the executable may not be run"@,
            SpawnError::Other => "the process could not be started"@,
        }
    }

    /// The error in words.
    pub fn describe(&self) -> (text: &'static str)
        ensures
            text@ == self.detail(),
    {
        match self {
            SpawnError::NotFound => "the executable was not found",
            SpawnError::PermissionDenied => "the executable may not be run",
            SpawnError::Other => "the process could not be started",
        }
    }
}

/// What can go wrong while a captured stream is read.
#[derive(Clone, Copy, Debug, PartialEq, Eq, Structural)]
pub enum StreamError {
    /// Malformed UTF-8 was replaced. The stream goes on; nothing is reported.
    DecodeFallback,
    /// Reading failed. The stream is over, and this is reported once.
    ReadFailed,
}

impl StreamError {
    /// Whether the stream is over after the error.
    pub open spec fn terminal(self) -> bool {
        self == StreamError::ReadFailed
    }

    /// The error in words.
    pub open spec fn detail(self) -> Seq<char> {
        match self {
            StreamError::DecodeFallback => "malformed text was replaced"@,
            StreamError::ReadFailed => "reading the process output failed"@,
        }
    }

    /// Whether the stream is over after the error.
    pub fn is_terminal(&self) -> (yes: bool)
        ensures
            yes == self.terminal(),
    {
        match self {
            StreamError::DecodeFallback => false,
            StreamError::ReadFailed => true,
        }
    }

    /// The error in words.
    pub fn describe(&self) -> (text: &'static str)
        ensures
            text@ == self.detail(),
    {
        match self {
            StreamError::DecodeFallback => "malformed text was replaced",
            StreamError::ReadFailed => "reading the process output failed",
        }
    }
}

/// Why the target directory of a download is not there.
#[derive(Clone, Copy, Debug, PartialEq, Eq, Structural)]
pub enum DirectoryFault {
    /// Something that is not a directory has the path.
    Occupied,
    /// The directory was missing and could not be made.
    CreateFailed,
}

impl DirectoryFault {
    /// The fault in words.
    pub open spec fn detail(self) -> Seq<char> {
        match self {
            DirectoryFault::Occupied => "the path is taken by something that is no directory"@,
            DirectoryFault::CreateFailed => "the directory could not be created"@,
        }
    }

    /// The fault in words.
    pub fn describe(&self) -> (text: &'static str)
        ensures
            text@ == self.detail(),
    {
        match self {
            DirectoryFault::Occupied => "the path is taken by something that is no directory",
            DirectoryFault::CreateFailed => "the directory could not be created",
        }
    }
}

/// Why a job was given up.
#[derive(Clone, Copy, Debug, PartialEq, Eq, Structural)]
pub enum JobError {
    /// A helper executable could not be put on disk.
    ProvisionFailed(BinaryKind, ProvisionError),
    /// The process of a phase could not be started.
    SpawnFailed(Phase, SpawnError),
    /// The target directory is not there and cannot be made.
    DirectoryCreateFailed(DirectoryFault),
}

impl JobError {
    /// The one line that tells the user why the job failed.
    pub open spec fn message(self) -> Seq<char> {
        match self {
            JobError::ProvisionFailed(kind, error) => "provisioning "@ + kind.name() + " failed: "@
                + error.detail(),
            JobError::SpawnFailed(phase, error) => "starting the process of "@ + phase.tag()
                + " failed: "@ + error.detail(),
            JobError::DirectoryCreateFailed(fault) => "creating the target directory failed: "@
                + fault.detail(),
        }
    }

    /// The one line that tells the user why the job failed.
    pub fn describe(&self) -> (text: String)
        ensures
            text@ == self.message(),
    {
        match self {
            JobError::ProvisionFailed(kind, error) => {
                let mut text: String = String::from_str("provisioning ");
                text.append(kind.label());
                text.append(" failed: ");
                text.append(error.describe());
                text
            },
            JobError::SpawnFailed(phase, error) => {
                let mut text: String = String::from_str("starting the process of ");
                text.append(phase.label());
                text.append(" failed: ");
                text.append(error.describe());
                text
            },
            JobError::DirectoryCreateFailed(fault) => {
                let mut text: String = String::from_str("creating the target directory failed: ");
                text.append(fault.describe());
                text
            },
        }
    }
}

} // verus!
