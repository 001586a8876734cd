//! The failures of the pipeline.

use vstd::prelude::*;
use crate::data_retrieve::format::{ArchiveFormat, Signature};
use crate::data_retrieve::tar::TarFault;

verus! {

/// The stages of a pipeline run, in the order in which they are taken.
#[derive(Clone, Copy, Debug, PartialEq, Eq, Structural)]
pub enum Stage {
    /// The working directory is made ready.
    Directory,
    /// The dataset to fetch is resolved from the mode.
    Metadata,
    /// The dataset is fetched over the network.
    Fetch,
    /// The fetched content is persisted.
    Write,
    /// The persisted archive is unpacked.
    Decompress,
}

/// Why an operation on the file system failed, as far as the host can tell.
#[derive(Clone, Copy, Debug, PartialEq, Eq, Structural)]
pub enum IoFault {
    PermissionDenied,
    InvalidPath,
    StorageFull,
    /// Any other cause, or none reported.
    Other,
}

/// Why no response was received.
#[derive(Clone, Copy, Debug, PartialEq, Eq, Structural)]
pub enum NetworkFault {
    ConnectionRefused,
    /// The deadline of the request passed.
    Timeout,
    /// The host name could not be resolved.
    Dns,
    /// Any other cause, or none reported.
    Other,
}

/// Why an archive could not be unpacked.
#[derive(Clone, Copy, Debug, PartialEq, Eq)]
pub enum ExtractionFault {
    /// The content is no well-formed gzip stream.
    CorruptGzip,
    /// The content is no well-formed tar archive.
    CorruptTar(TarFault),
    /// An entry would be written outside the working directory, or has a
    /// name with two dots in a row.
    UnsafePath,
    /// Reading the archive or writing an entry failed.
    Io(IoFault),
}

/// The error taxonomy of the pipeline. Each stage raises the most specific
/// kind for its failure.
#[derive(Clone, Copy, Debug, PartialEq, Eq)]
pub enum PipelineError {
    /// The mode is not one of the known ones.
    ConfigError,
    /// An operation on the file system failed.
    IoError(IoFault),
    /// The transfer failed before a response arrived.
    NetworkError(NetworkFault),
    /// The server answered with a status outside 200..=299.
    RemoteError { status: u16 },
    /// The number of bytes written differs from the number fetched.
    IntegrityError { expected: u64, written: u64 },
    /// The file's extension and its content signature do not name one
    /// supported format.
    UnsupportedFormatError { claimed: Option<ArchiveFormat>, found: Signature },
    /// The archive is corrupt, unsafe to unpack, or could not be unpacked.
    ExtractionError(ExtractionFault),
}

/// The failure of a pipeline run: the error as it was raised and the stage that
/// raised it.
#[derive(Clone, Copy, Debug, PartialEq, Eq)]
pub struct PipelineFailure {
    pub stage: Stage,
    pub error: PipelineError,
}

} // verus!
