//! What is fetched, from where, and where it is kept.
//!
//! The mode of a run selects the dataset. Everything that follows from the
//! mode alone is resolved here without any I/O: the working directory, the
//! dataset's file name and expected size, and the address it is fetched from.
//! The module also judges what a fetch brought back.

use vstd::prelude::*;
use vstd::string::StringSliceAdditionalSpecFns;
use crate::data_retrieve::bytes::{join, occurs_at, same_bytes};
use crate::data_retrieve::error::{NetworkFault, PipelineError};
use crate::data_retrieve::format::{extension_claim, ArchiveFormat};
use crate::data_retrieve::names::{
    is_safe_entry_name,
    is_single_component,
    name_is_single_component,
    DOT,
};

verus! {

/// The mode of a pipeline run.
#[derive(Clone, Copy, Debug, PartialEq, Eq, Structural)]
pub enum Mode {
    /// A small dataset, for trying the pipeline out.
    Debug,
    /// The full dataset.
    Standard,
}

/// The dataset that a run fetches.
#[derive(Clone, Debug, PartialEq, Eq)]
pub struct DatasetDescriptor {
    /// The name of the archive, at the source and in the working directory.
    pub filename: Vec<u8>,
    /// The size that the archive is expected to have. Advisory: a fetch of
    /// another size is reported, not refused.
    pub expected_size_bytes: u64,
    /// The mode that selected the dataset.
    pub mode: Mode,
}

/// The mathematical value of a `DatasetDescriptor`.
pub struct DescriptorModel {
    pub filename: Seq<u8>,
    pub expected_size_bytes: u64,
    pub mode: Mode,
}

impl View for DatasetDescriptor {
    type V = DescriptorModel;

    open spec fn view(&self) -> DescriptorModel {
        DescriptorModel {
            filename: self.filename@,
            expected_size_bytes: self.expected_size_bytes,
            mode: self.mode,
        }
    }
}

impl DatasetDescriptor {
    /// The invariant of a descriptor: its file name is a single path
    /// component, so the archive is kept in the working directory itself.
    pub open spec fn wf(&self) -> bool {
        is_single_component(self.filename@)
    }

    /// Tells whether the descriptor keeps its invariant.
    pub fn is_well_formed(&self) -> (valid: bool)
        ensures
            valid == self.wf(),
    {
        name_is_single_component(self.filename.as_slice())
    }
}

/// The expected size of the debug dataset, in bytes.
pub const DEBUG_SIZE_BYTES: u64 = 67_108_864;

/// The expected size of the full dataset, in bytes.
pub const STANDARD_SIZE_BYTES: u64 = 4_294_967_296;

/// The mode that a name stands for: `debug` or `standard`.
pub open spec fn mode_named(name: Seq<u8>) -> Option<Mode> {
    if name == "debug".spec_bytes() {
        Some(Mode::Debug)
    } else if name == "standard".spec_bytes() {
        Some(Mode::Standard)
    } else {
        None
    }
}

/// The working directory of a run, relative to the directory the host runs
/// in.
pub open spec fn working_directory(mode: Mode) -> Seq<u8> {
    match mode {
        Mode::Debug => "data/debug".spec_bytes(),
        Mode::Standard => "data/standard".spec_bytes(),
    }
}

/// The file name of the dataset.
pub open spec fn dataset_filename(mode: Mode) -> Seq<u8> {
    match mode {
        Mode::Debug => "ode1.tar.gz".spec_bytes(),
        Mode::Standard => "prim_fwd.tar.gz".spec_bytes(),
    }
}

/// The expected size of the dataset.
pub open spec fn dataset_size(mode: Mode) -> u64 {
    match mode {
        Mode::Debug => DEBUG_SIZE_BYTES,
        Mode::Standard => STANDARD_SIZE_BYTES,
    }
}

/// The descriptor of the dataset.
pub open spec fn dataset(mode: Mode) -> DescriptorModel {
    DescriptorModel {
        filename: dataset_filename(mode),
        expected_size_bytes: dataset_size(mode),
        mode,
    }
}

/// The address that every dataset lies under.
pub open spec fn source_base() -> Seq<u8> {
    "https://dl.fbaipublicfiles.com/SymbolicMathematics/data/".spec_bytes()
}

/// The address that the dataset is fetched from.
pub open spec fn source_url(mode: Mode) -> Seq<u8> {
    source_base() + dataset_filename(mode)
}

impl Mode {
    /// The mode for the flag that the command line gives.
    pub fn from_flag(is_debug: bool) -> (mode: Mode)
        ensures
            mode == if is_debug {
                Mode::Debug
            } else {
                Mode::Standard
            },
    {
        if is_debug {
            Mode::Debug
        } else {
            Mode::Standard
        }
    }

    /// The mode with the given name; a `ConfigError` for any other name.
    pub fn from_name(name: &[u8]) -> (mode: Result<Mode, PipelineError>)
        ensures
            mode == match mode_named(name@) {
                Some(m) => Ok::<Mode, PipelineError>(m),
                None => Err::<Mode, PipelineError>(PipelineError::ConfigError),
            },
    {
        if same_bytes(name, "debug".as_bytes()) {
            Ok(Mode::Debug)
        } else if same_bytes(name, "standard".as_bytes()) {
            Ok(Mode::Standard)
        } else {
            Err(PipelineError::ConfigError)
        }
    }

    /// Tells whether this is the debug mode.
    pub fn is_debug(&self) -> (debug: bool)
        ensures
            debug == (*self == Mode::Debug),
    {
        match self {
            Mode::Debug => true,
            Mode::Standard => false,
        }
    }
}

/// The working directory of a run. The host creates it, with every missing
/// parent, before anything is fetched.
pub fn download_dir(mode: Mode) -> (dir: Vec<u8>)
    ensures
        dir@ == working_directory(mode),
        is_safe_entry_name(dir@),
        dir@.len() > 0,
{
    proof {
        lemma_working_directory(mode);
    }
    match mode {
        Mode::Debug => "data/debug".as_bytes_vec(),
        Mode::Standard => "data/standard".as_bytes_vec(),
    }
}

/// The file name of the dataset.
pub fn get_filename(mode: Mode) -> (filename: Vec<u8>)
    ensures
        filename@ == dataset_filename(mode),
        is_single_component(filename@),
{
    proof {
        lemma_dataset_filename(mode);
    }
    match mode {
        Mode::Debug => "ode1.tar.gz".as_bytes_vec(),
        Mode::Standard => "prim_fwd.tar.gz".as_bytes_vec(),
    }
}

/// The expected size of the dataset, in bytes.
pub fn get_filesize(mode: Mode) -> (size: u64)
    ensures
        size == dataset_size(mode),
{
    match mode {
        Mode::Debug => DEBUG_SIZE_BYTES,
        Mode::Standard => STANDARD_SIZE_BYTES,
    }
}

/// Resolves the dataset of a mode: a lookup, without side effect.
pub fn resolve_metadata(mode: Mode) -> (descriptor: DatasetDescriptor)
    ensures
        descriptor@ == dataset(mode),
        descriptor.wf(),
{
    DatasetDescriptor {
        filename: get_filename(mode),
        expected_size_bytes: get_filesize(mode),
        mode,
    }
}

/// Resolves the dataset of the mode with the given name; a `ConfigError`
/// where the name is not that of a mode.
pub fn resolve_metadata_by_name(name: &[u8]) -> (descriptor: Result<
    DatasetDescriptor,
    PipelineError,
>)
    ensures
        match mode_named(name@) {
            Some(mode) => (descriptor matches Ok(d) && d@ == dataset(mode) && d.wf()),
            None => descriptor == Err::<DatasetDescriptor, PipelineError>(
                PipelineError::ConfigError,
            ),
        },
{
    match Mode::from_name(name) {
        Ok(mode) => Ok(resolve_metadata(mode)),
        Err(error) => Err(error),
    }
}

/// The address that the dataset is fetched from.
pub fn get_source(mode: Mode) -> (url: Vec<u8>)
    ensures
        url@ == source_url(mode),
{
    let filename = get_filename(mode);
    join(
        "https://dl.fbaipublicfiles.com/SymbolicMathematics/data/".as_bytes(),
        filename.as_slice(),
    )
}

/// The working directories are relative and hold no two dots in a row.
pub proof fn lemma_working_directory(mode: Mode)
    ensures
        is_safe_entry_name(working_directory(mode)),
        working_directory(mode).len() > 0,
{
    reveal_strlit("data/debug");
    reveal_strlit("data/standard");
    vstd::string::is_ascii_spec_bytes("data/debug");
    vstd::string::is_ascii_spec_bytes("data/standard");
    let dir = working_directory(mode);
    assert forall|i: int| 0 <= i < dir.len() implies dir[i] != DOT by {}
}

/// The dataset's file name is a single path component, and its extension
/// claims a compressed archive.
pub proof fn lemma_dataset_filename(mode: Mode)
    ensures
        is_single_component(dataset_filename(mode)),
        extension_claim(dataset_filename(mode)) == Some(ArchiveFormat::TarGz),
{
    reveal_strlit("ode1.tar.gz");
    reveal_strlit("prim_fwd.tar.gz");
    reveal_strlit(".tar.gz");
    vstd::string::is_ascii_spec_bytes("ode1.tar.gz");
    vstd::string::is_ascii_spec_bytes("prim_fwd.tar.gz");
    vstd::string::is_ascii_spec_bytes(".tar.gz");
    let name = dataset_filename(mode);
    let suffix = ".tar.gz".spec_bytes();
    assert(name.subrange(name.len() - 7, name.len() as int) =~= suffix);
    assert(occurs_at(name, name.len() - 7, suffix));
}

// ---------------------------------------------------------------------------
// What a fetch brought back
// ---------------------------------------------------------------------------

/// The content of a successful fetch. Its length is the length observed on
/// the wire. A value exists only for a response that `accept_response` took,
/// and is consumed by the one write that persists it.
#[derive(Debug, PartialEq, Eq)]
pub struct FetchedContent {
    bytes: Vec<u8>,
}

impl View for FetchedContent {
    type V = Seq<u8>;

    closed spec fn view(&self) -> Seq<u8> {
        self.bytes@
    }
}

impl FetchedContent {
    /// The number of bytes fetched.
    pub fn len(&self) -> (n: usize)
        ensures
            n == self@.len(),
    {
        self.bytes.len()
    }

    /// The bytes fetched.
    pub fn as_bytes(&self) -> (bytes: &[u8])
        ensures
            bytes@ == self@,
    {
        self.bytes.as_slice()
    }

    /// Hands the bytes over, consuming the content.
    pub fn into_bytes(self) -> (bytes: Vec<u8>)
        ensures
            bytes@ == self@,
    {
        self.bytes
    }
}

/// What the host reports of one attempt to fetch.
#[derive(Debug, PartialEq, Eq)]
pub enum FetchOutcome {
    /// A response arrived, with this status and body.
    Response { status: u16, body: Vec<u8> },
    /// No response arrived.
    Failed(NetworkFault),
}

/// A status that stands for success: 200 to 299.
pub open spec fn is_success(status: u16) -> bool {
    200 <= status <= 299
}

/// What a response yields: its body if the status stands for success, else a
/// `RemoteError` with the status.
pub open spec fn response_result(status: u16, body: Seq<u8>) -> Result<Seq<u8>, PipelineError> {
    if is_success(status) {
        Ok(body)
    } else {
        Err(PipelineError::RemoteError { status })
    }
}

/// What an attempt to fetch yields: what its response yields, or a
/// `NetworkError` where none arrived.
pub open spec fn outcome_result(outcome: FetchOutcome) -> Result<Seq<u8>, PipelineError> {
    match outcome {
        FetchOutcome::Response { status, body } => response_result(status, body@),
        FetchOutcome::Failed(fault) => Err(PipelineError::NetworkError(fault)),
    }
}

/// The value of a fetch result.
pub open spec fn content_view(content: Result<FetchedContent, PipelineError>) -> Result<
    Seq<u8>,
    PipelineError,
> {
    match content {
        Ok(c) => Ok(c@),
        Err(error) => Err(error),
    }
}

/// Judges a response: its body is the content if the status stands for
/// success; any other status is a `RemoteError` and the body is dropped.
pub fn accept_response(status: u16, body: Vec<u8>) -> (content: Result<
    FetchedContent,
    PipelineError,
>)
    ensures
        content_view(content) == response_result(status, body@),
{
    if 200 <= status && status <= 299 {
        Ok(FetchedContent { bytes: body })
    } else {
        Err(PipelineError::RemoteError { status })
    }
}

/// Judges the outcome of an attempt to fetch. Content comes out of a
/// response with a success status only.
pub fn get_data(outcome: FetchOutcome) -> (content: Result<FetchedContent, PipelineError>)
    ensures
        content_view(content) == outcome_result(outcome),
{
    match outcome {
        FetchOutcome::Response { status, body } => accept_response(status, body),
        FetchOutcome::Failed(fault) => Err(PipelineError::NetworkError(fault)),
    }
}

/// Tells whether the content has the size that the descriptor expects.
pub fn size_as_expected(descriptor: &DatasetDescriptor, content: &FetchedContent) -> (same: bool)
    ensures
        same == (content@.len() == descriptor.expected_size_bytes),
{
    content.len() as u64 == descriptor.expected_size_bytes
}

} // verus!
