//! The two helper executables and where their payloads come from.

use vstd::prelude::*;

verus! {

/// One of the helper executables that a download needs.
#[derive(Clone, Copy, Debug, PartialEq, Eq, Structural)]
pub enum BinaryKind {
    /// The tool that fetches a source and extracts its audio.
    Downloader,
    /// The tool that converts media; here only its presence is verified.
    Transcoder,
}

impl BinaryKind {
    /// The name by which messages speak of the executable.
    pub open spec fn name(self) -> Seq<char> {
        match self {
            BinaryKind::Downloader => "downloader"@,
            BinaryKind::Transcoder => "transcoder"@,
        }
    }

    /// The file that holds the executable inside the binaries directory.
    pub open spec fn file_name(self) -> Seq<char> {
        match self {
            BinaryKind::Downloader => "yt-dlp.exe"@,
            BinaryKind::Transcoder => "ffmpeg.exe"@,
        }
    }

    /// The one argument that makes the executable print its version.
    pub open spec fn version_flag(self) -> Seq<char> {
        match self {
            BinaryKind::Downloader => "--version"@,
            BinaryKind::Transcoder => "-version"@,
        }
    }

    /// The name by which messages speak of the executable.
    pub fn label(&self) -> (text: &'static str)
        ensures
            text@ == self.name(),
    {
        match self {
            BinaryKind::Downloader => "downloader",
            BinaryKind::Transcoder => "transcoder",
        }
    }

    /// The file that holds the executable inside the binaries directory.
    pub fn file(&self) -> (text: &'static str)
        ensures
            text@ == self.file_name(),
    {
        match self {
            BinaryKind::Downloader => "yt-dlp.exe",
            BinaryKind::Transcoder => "ffmpeg.exe",
        }
    }

    /// The one argument that makes the executable print its version.
    pub fn probe_flag(&self) -> (text: &'static str)
        ensures
            text@ == self.version_flag(),
    {
        match self {
            BinaryKind::Downloader => "--version",
            BinaryKind::Transcoder => "-version",
        }
    }
}

/// The payloads of both executables, as they were packaged with the program.
///
/// Whoever writes a binary to disk takes its bytes from here, so that the
/// same executable gets the same bytes every time.
pub struct EmbeddedBinaries {
    downloader: Vec<u8>,
    transcoder: Vec<u8>,
}

impl EmbeddedBinaries {
    /// The bytes packaged for `kind`.
    pub closed spec fn payload_of(&self, kind: BinaryKind) -> Seq<u8> {
        match kind {
            BinaryKind::Downloader => self.downloader@,
            BinaryKind::Transcoder => self.transcoder@,
        }
    }

    /// Takes the two payloads.
    pub fn new(downloader: Vec<u8>, transcoder: Vec<u8>) -> (bundle: Self)
        ensures
            bundle.payload_of(BinaryKind::Downloader) == downloader@,
            bundle.payload_of(BinaryKind::Transcoder) == transcoder@,
    {
        EmbeddedBinaries { downloader, transcoder }
    }

    /// The bytes to write for `kind`.
    pub fn payload(&self, kind: BinaryKind) -> (bytes: &[u8])
        ensures
            bytes@ == self.payload_of(kind),
    {
        match kind {
            BinaryKind::Downloader => self.downloader.as_slice(),
            BinaryKind::Transcoder => self.transcoder.as_slice(),
        }
    }
}

} // verus!
