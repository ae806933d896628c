//! Putting the helper executables on disk.
//!
//! Provisioning makes sure that the binaries directory is there and writes
//! the executable into it, over whatever the file held before. The module
//! decides what to do next from what the file system answered; the caller
//! does it and reports back.

use vstd::prelude::*;
use crate::binary::BinaryKind;
use crate::error::ProvisionError;
use crate::path::{join, joined};

verus! {

/// What was found at a path.
#[derive(Clone, Copy, Debug, PartialEq, Eq, Structural)]
pub enum PathKind {
    /// Nothing is there.
    Missing,
    /// A directory is there.
    Directory,
    /// Something that is not a directory is there.
    Occupied,
}

/// What came of creating a directory.
#[derive(Clone, Copy, Debug, PartialEq, Eq, Structural)]
pub enum CreateOutcome {
    /// The directory was made.
    Created,
    /// The directory was there already.
    AlreadyExists,
    /// The directory could not be made.
    Failed,
}

/// What came of writing a file.
#[derive(Clone, Copy, Debug, PartialEq, Eq, Structural)]
pub enum WriteOutcome {
    /// All bytes are in the file.
    Written,
    /// The write did not complete.
    Failed,
}

/// An answer of the file system to a request.
#[derive(Clone, Copy, Debug, PartialEq, Eq, Structural)]
pub enum FileReply {
    /// A path was looked at.
    Probed(PathKind),
    /// A directory was asked for.
    Created(CreateOutcome),
    /// A file was written.
    Written(WriteOutcome),
}

/// How far a provisioning has come.
#[derive(Clone, Copy, Debug, PartialEq, Eq, Structural)]
pub enum ProvisionStage {
    /// The binaries directory is being looked at.
    ProbingDirectory,
    /// The binaries directory is being made.
    CreatingDirectory,
    /// The executable is being written.
    WritingBinary,
    /// The executable is on disk.
    Ready,
    /// Provisioning was given up.
    Failed(ProvisionError),
}

/// The stage that follows `stage` once the file system has answered `reply`.
/// An answer that the stage did not ask for changes nothing.
pub open spec fn stage_after(stage: ProvisionStage, reply: FileReply) -> ProvisionStage {
    match (stage, reply) {
        (ProvisionStage::ProbingDirectory, FileReply::Probed(PathKind::Directory)) =>
            ProvisionStage::WritingBinary,
        (ProvisionStage::ProbingDirectory, FileReply::Probed(PathKind::Missing)) =>
            ProvisionStage::CreatingDirectory,
        (ProvisionStage::ProbingDirectory, FileReply::Probed(PathKind::Occupied)) =>
            ProvisionStage::Failed(ProvisionError::DirectoryUnwritable),
        (ProvisionStage::CreatingDirectory, FileReply::Created(CreateOutcome::Created)) =>
            ProvisionStage::WritingBinary,
        (ProvisionStage::CreatingDirectory, FileReply::Created(CreateOutcome::AlreadyExists)) =>
            ProvisionStage::WritingBinary,
        (ProvisionStage::CreatingDirectory, FileReply::Created(CreateOutcome::Failed)) =>
            ProvisionStage::Failed(ProvisionError::DirectoryUnwritable),
        (ProvisionStage::WritingBinary, FileReply::Written(WriteOutcome::Written)) =>
            ProvisionStage::Ready,
        (ProvisionStage::WritingBinary, FileReply::Written(WriteOutcome::Failed)) =>
            ProvisionStage::Failed(ProvisionError::WriteFailed),
        _ => stage,
    }
}

/// Whether `reply` answers what `stage` asked for.
pub open spec fn awaited(stage: ProvisionStage, reply: FileReply) -> bool {
    match (stage, reply) {
        (ProvisionStage::ProbingDirectory, FileReply::Probed(_)) => true,
        (ProvisionStage::CreatingDirectory, FileReply::Created(_)) => true,
        (ProvisionStage::WritingBinary, FileReply::Written(_)) => true,
        _ => false,
    }
}

/// Whether `reply` answers what `stage` asked for.
pub fn awaits(stage: ProvisionStage, reply: FileReply) -> (yes: bool)
    ensures
        yes == awaited(stage, reply),
{
    match (stage, reply) {
        (ProvisionStage::ProbingDirectory, FileReply::Probed(_)) => true,
        (ProvisionStage::CreatingDirectory, FileReply::Created(_)) => true,
        (ProvisionStage::WritingBinary, FileReply::Written(_)) => true,
        _ => false,
    }
}

/// The stage reached from `stage` after all of `replies`, in order.
pub open spec fn stage_after_all(stage: ProvisionStage, replies: Seq<FileReply>) -> ProvisionStage
    decreases replies.len(),
{
    if replies.len() == 0 {
        stage
    } else {
        stage_after(stage_after_all(stage, replies.drop_last()), replies.last())
    }
}

/// The directory that receives the executables.
pub open spec fn binaries_directory() -> Seq<char> {
    "\\bin"@
}

/// The path at which the executable of `kind` is kept.
pub open spec fn binary_path(kind: BinaryKind) -> Seq<char> {
    joined(binaries_directory(), kind.file_name())
}

/// An executable and the path that it is kept at.
#[derive(Clone, Debug, PartialEq, Eq)]
pub struct ProvisionedBinary {
    /// Which executable it is.
    pub kind: BinaryKind,
    /// Where it is on disk.
    pub path: String,
}

/// A [`ProvisionedBinary`] as contracts see it.
pub struct ProvisionedBinaryView {
    pub kind: BinaryKind,
    pub path: Seq<char>,
}

impl View for ProvisionedBinary {
    type V = ProvisionedBinaryView;

    open spec fn view(&self) -> ProvisionedBinaryView {
        ProvisionedBinaryView { kind: self.kind, path: self.path@ }
    }
}

/// What a provisioning asks of its caller, or how it ended.
#[derive(Clone, Debug, PartialEq, Eq)]
pub enum ProvisionStep {
    /// Look at this path and answer with [`FileReply::Probed`].
    ProbeDirectory(String),
    /// Make this directory and answer with [`FileReply::Created`].
    CreateDirectory(String),
    /// Write the payload of this executable to its path, replacing what the
    /// file held, and answer with [`FileReply::Written`].
    WriteBinary(ProvisionedBinary),
    /// The executable is on disk.
    Ready(ProvisionedBinary),
    /// Provisioning was given up.
    Failed(ProvisionError),
}

/// A [`ProvisionStep`] as contracts see it.
pub enum ProvisionStepView {
    ProbeDirectory(Seq<char>),
    CreateDirectory(Seq<char>),
    WriteBinary(ProvisionedBinaryView),
    Ready(ProvisionedBinaryView),
    Failed(ProvisionError),
}

impl View for ProvisionStep {
    type V = ProvisionStepView;

    open spec fn view(&self) -> ProvisionStepView {
        match self {
            ProvisionStep::ProbeDirectory(path) => ProvisionStepView::ProbeDirectory(path@),
            ProvisionStep::CreateDirectory(path) => ProvisionStepView::CreateDirectory(path@),
            ProvisionStep::WriteBinary(binary) => ProvisionStepView::WriteBinary(binary@),
            ProvisionStep::Ready(binary) => ProvisionStepView::Ready(binary@),
            ProvisionStep::Failed(error) => ProvisionStepView::Failed(*error),
        }
    }
}

/// What provisioning the executable of `kind` asks for in `stage`.
pub open spec fn request_of(kind: BinaryKind, stage: ProvisionStage) -> ProvisionStepView {
    match stage {
        ProvisionStage::ProbingDirectory => ProvisionStepView::ProbeDirectory(binaries_directory()),
        ProvisionStage::CreatingDirectory => ProvisionStepView::CreateDirectory(
            binaries_directory(),
        ),
        ProvisionStage::WritingBinary => ProvisionStepView::WriteBinary(
            ProvisionedBinaryView { kind: kind, path: binary_path(kind) },
        ),
        ProvisionStage::Ready => ProvisionStepView::Ready(
            ProvisionedBinaryView { kind: kind, path: binary_path(kind) },
        ),
        ProvisionStage::Failed(error) => ProvisionStepView::Failed(error),
    }
}

/// The provisioning of one executable.
#[derive(Clone, Copy, Debug, PartialEq, Eq, Structural)]
pub struct Provisioning {
    /// The executable that is being put on disk.
    pub binary: BinaryKind,
    /// How far it has come.
    pub stage: ProvisionStage,
}

/// The directory that receives the executables.
pub fn binaries_dir() -> (path: &'static str)
    ensures
        path@ == binaries_directory(),
{
    "\\bin"
}

/// The path at which the executable of `kind` is kept.
pub fn path_of(kind: BinaryKind) -> (path: String)
    ensures
        path@ == binary_path(kind),
{
    join(binaries_dir(), kind.file())
}

impl Provisioning {
    /// Takes the answer of the file system and moves on.
    pub fn reply(&mut self, reply: FileReply)
        ensures
            final(self).binary == old(self).binary,
            final(self).stage == stage_after(old(self).stage, reply),
    {
        let next: ProvisionStage = match (self.stage, reply) {
            (ProvisionStage::ProbingDirectory, FileReply::Probed(found)) => match found {
                PathKind::Directory => ProvisionStage::WritingBinary,
                PathKind::Missing => ProvisionStage::CreatingDirectory,
                PathKind::Occupied => ProvisionStage::Failed(ProvisionError::DirectoryUnwritable),
            },
            (ProvisionStage::CreatingDirectory, FileReply::Created(outcome)) => match outcome {
                CreateOutcome::Created => ProvisionStage::WritingBinary,
                CreateOutcome::AlreadyExists => ProvisionStage::WritingBinary,
                CreateOutcome::Failed => ProvisionStage::Failed(
                    ProvisionError::DirectoryUnwritable,
                ),
            },
            (ProvisionStage::WritingBinary, FileReply::Written(outcome)) => match outcome {
                WriteOutcome::Written => ProvisionStage::Ready,
                WriteOutcome::Failed => ProvisionStage::Failed(ProvisionError::WriteFailed),
            },
            (stage, _) => stage,
        };
        self.stage = next;
    }

    /// What is to be done now, or how the provisioning ended.
    pub fn request(&self) -> (step: ProvisionStep)
        ensures
            step@ == request_of(self.binary, self.stage),
    {
        match self.stage {
            ProvisionStage::ProbingDirectory => ProvisionStep::ProbeDirectory(
                String::from_str(binaries_dir()),
            ),
            ProvisionStage::CreatingDirectory => ProvisionStep::CreateDirectory(
                String::from_str(binaries_dir()),
            ),
            ProvisionStage::WritingBinary => ProvisionStep::WriteBinary(
                ProvisionedBinary { kind: self.binary, path: path_of(self.binary) },
            ),
            ProvisionStage::Ready => ProvisionStep::Ready(
                ProvisionedBinary { kind: self.binary, path: path_of(self.binary) },
            ),
            ProvisionStage::Failed(error) => ProvisionStep::Failed(error),
        }
    }

    /// Whether the provisioning has ended, well or badly.
    pub fn is_over(&self) -> (over: bool)
        ensures
            over == (self.stage == ProvisionStage::Ready || self.stage is Failed),
    {
        match self.stage {
            ProvisionStage::Ready => true,
            ProvisionStage::Failed(_) => true,
            _ => false,
        }
    }
}

/// Starts putting the executable of `kind` on disk.
pub fn save_to_file(kind: BinaryKind) -> (task: Provisioning)
    ensures
        task == (Provisioning { binary: kind, stage: ProvisionStage::ProbingDirectory }),
{
    Provisioning { binary: kind, stage: ProvisionStage::ProbingDirectory }
}

/// Starts putting the downloader on disk.
pub fn save_ytdlp_to_file() -> (task: Provisioning)
    ensures
        task == (Provisioning {
            binary: BinaryKind::Downloader,
            stage: ProvisionStage::ProbingDirectory,
        }),
{
    save_to_file(BinaryKind::Downloader)
}

/// Starts putting the transcoder on disk.
pub fn save_ffmpeg_to_file() -> (task: Provisioning)
    ensures
        task == (Provisioning {
            binary: BinaryKind::Transcoder,
            stage: ProvisionStage::ProbingDirectory,
        }),
{
    save_to_file(BinaryKind::Transcoder)
}

/// Whether the run of `replies` from the first stage came to the point of
/// writing the executable and saw the write complete.
pub open spec fn wrote_binary(replies: Seq<FileReply>) -> bool {
    exists|i: int|
        0 <= i < replies.len() && #[trigger] stage_after_all(
            ProvisionStage::ProbingDirectory,
            replies.take(i),
        ) == ProvisionStage::WritingBinary && replies[i] == FileReply::Written(
            WriteOutcome::Written,
        )
}

/// A provisioning that has ended stays as it ended.
pub proof fn lemma_ended_stays(stage: ProvisionStage, reply: FileReply)
    requires
        stage == ProvisionStage::Ready || stage is Failed,
    ensures
        stage_after(stage, reply) == stage,
{
}

/// A provisioning is ready only after it wrote the executable: it never
/// takes a file that is already there for the payload.
pub proof fn lemma_ready_after_write(replies: Seq<FileReply>)
    requires
        stage_after_all(ProvisionStage::ProbingDirectory, replies) == ProvisionStage::Ready,
    ensures
        wrote_binary(replies),
    decreases replies.len(),
{
    let first = ProvisionStage::ProbingDirectory;
    if replies.len() > 0 {
        let earlier = replies.drop_last();
        if stage_after_all(first, earlier) == ProvisionStage::Ready {
            lemma_ready_after_write(earlier);
            let i = choose|i: int|
                0 <= i < earlier.len() && #[trigger] stage_after_all(first, earlier.take(i))
                    == ProvisionStage::WritingBinary && earlier[i] == FileReply::Written(
                    WriteOutcome::Written,
                );
            assert(replies.take(i) =~= earlier.take(i));
            assert(stage_after_all(first, replies.take(i)) == ProvisionStage::WritingBinary);
        } else {
            let i = replies.len() - 1;
            assert(replies.take(i) =~= earlier);
            assert(stage_after_all(first, replies.take(i)) == ProvisionStage::WritingBinary);
        }
    }
}

/// Provisioning one executable twice comes to the same end: both runs that
/// succeed wrote that executable's payload, and both hand out the same path.
pub proof fn lemma_provisioning_repeats(
    kind: BinaryKind,
    first: Seq<FileReply>,
    second: Seq<FileReply>,
)
    requires
        stage_after_all(ProvisionStage::ProbingDirectory, first) == ProvisionStage::Ready,
        stage_after_all(ProvisionStage::ProbingDirectory, second) == ProvisionStage::Ready,
    ensures
        wrote_binary(first),
        wrote_binary(second),
        request_of(kind, ProvisionStage::WritingBinary) == ProvisionStepView::WriteBinary(
            ProvisionedBinaryView { kind: kind, path: binary_path(kind) },
        ),
        request_of(kind, stage_after_all(ProvisionStage::ProbingDirectory, first)) == request_of(
            kind,
            stage_after_all(ProvisionStage::ProbingDirectory, second),
        ),
        request_of(kind, stage_after_all(ProvisionStage::ProbingDirectory, first))
            == ProvisionStepView::Ready(
            ProvisionedBinaryView { kind: kind, path: binary_path(kind) },
        ),
{
    lemma_ready_after_write(first);
    lemma_ready_after_write(second);
}

} // verus!
