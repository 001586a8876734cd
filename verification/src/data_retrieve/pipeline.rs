//! The orchestrator: the stages of a run, in order, as a state machine.
//!
//! The pipeline does no I/O. It hands the host an `Action` to perform and
//! takes the `Event` that reports the outcome; `Pipeline::step` then decides
//! what comes next. A run starts with `Pipeline::start` and ends with the
//! action `Finish`, which carries the summary of the run or its failure. The
//! host performs each action, hands back one event, and emits the log events
//! that come with every step.
//!
//! An event that is no outcome of the pending action counts as the failure of
//! that action, of unreported cause.

use vstd::prelude::*;
use crate::data_retrieve::download::{
    dataset_filename,
    dataset_size,
    download_dir,
    get_data,
    get_filename,
    get_source,
    resolve_metadata,
    response_result,
    size_as_expected,
    source_url,
    working_directory,
    FetchOutcome,
    FetchedContent,
    Mode,
};
use crate::data_retrieve::error::{
    ExtractionFault,
    IoFault,
    NetworkFault,
    PipelineError,
    PipelineFailure,
    Stage,
};
use crate::data_retrieve::retry::FetchPolicy;
use crate::data_retrieve::tar::{entries_view, ArchiveEntry, EntryModel};
use crate::data_retrieve::unarchive::{decompress, extraction_plan};
use crate::data_retrieve::writer::{check_written, temp_file_name, temp_name, written_check};

verus! {

/// What a successful run did.
#[derive(Clone, Copy, Debug, PartialEq, Eq, Structural)]
pub struct RunSummary {
    /// The size of the persisted archive, in bytes.
    pub persisted_bytes: u64,
    /// The number of entries unpacked.
    pub entries: u64,
}

/// Where a run stands: the operation whose outcome it waits for.
#[derive(Clone, Copy, Debug, PartialEq, Eq)]
pub enum Phase {
    /// The working directory is being created.
    Directory,
    /// The dataset is being fetched, for the `attempt`-th time.
    Fetch { attempt: u32 },
    /// Content of `length` bytes is being written to the temporary file.
    WriteTemp { length: u64 },
    /// The temporary file is being renamed to the target.
    Rename { length: u64 },
    /// The temporary file is being removed, after the write failed with
    /// `error`.
    Cleanup { error: PipelineError },
    /// The persisted archive is being read.
    Load { length: u64 },
    /// The entries of the archive are being written.
    Unpack { length: u64, entries: u64 },
    /// The run is over.
    Finished(Result<RunSummary, PipelineFailure>),
}

/// A pipeline run.
#[derive(Clone, Copy, Debug, PartialEq, Eq)]
pub struct Pipeline {
    pub mode: Mode,
    pub policy: FetchPolicy,
    pub phase: Phase,
}

/// What the host is asked to do. Every name is relative to the directory the
/// host runs in (`dir`) or to `dir` (the others).
#[derive(Debug, PartialEq, Eq)]
pub enum Action {
    /// Create the directory `dir` with every missing parent. A directory
    /// that exists already is a success.
    CreateDir { dir: Vec<u8> },
    /// Wait `delay_ms` milliseconds, then request `url` with GET and no
    /// body, giving up after `deadline_ms` milliseconds.
    Fetch { url: Vec<u8>, delay_ms: u64, deadline_ms: u64 },
    /// Write `content` to the file `name` in `dir` and report the number of
    /// bytes written. The content changes hands here, once.
    WriteTemp { dir: Vec<u8>, name: Vec<u8>, content: FetchedContent },
    /// Rename the file `from` in `dir` to `to`, replacing `to` atomically.
    Rename { dir: Vec<u8>, from: Vec<u8>, to: Vec<u8> },
    /// Remove the file `name` in `dir`.
    RemoveTemp { dir: Vec<u8>, name: Vec<u8> },
    /// Read the file `name` in `dir` and report its bytes.
    Load { dir: Vec<u8>, name: Vec<u8> },
    /// Create every entry below `dir`, in order.
    Unpack { dir: Vec<u8>, entries: Vec<ArchiveEntry> },
    /// Nothing more: the run is over, with this result.
    Finish(Result<RunSummary, PipelineFailure>),
}

/// What the host reports of the action it was asked to perform.
#[derive(Debug, PartialEq, Eq)]
pub enum Event {
    /// The operation succeeded and has nothing to report.
    Done,
    /// The request was answered, with this status and body.
    Response { status: u16, body: Vec<u8> },
    /// The write ended after `count` bytes.
    Written { count: u64 },
    /// The file was read and holds these bytes.
    Loaded { bytes: Vec<u8> },
    /// The operation on the file system failed.
    IoFailed(IoFault),
    /// The request was not answered.
    NetworkFailed(NetworkFault),
}

/// What the host is asked to log with a step.
#[derive(Clone, Copy, Debug, PartialEq, Eq)]
pub enum LogEvent {
    StageStarted(Stage),
    StageFinished(Stage),
    /// The content fetched has another size than the descriptor expects.
    SizeDiffers { expected: u64, fetched: u64 },
    /// The fetch failed with `error` for the `failed`-th time and is tried
    /// again after `delay_ms` milliseconds.
    Retrying { failed: u32, delay_ms: u64, error: PipelineError },
    /// The run failed.
    Failed(PipelineFailure),
}

/// The outcome of a step: where the run stands now, what the host is to do,
/// and what it is to log, in order.
#[derive(Debug, PartialEq, Eq)]
pub struct Step {
    pub next: Pipeline,
    pub action: Action,
    pub log: Vec<LogEvent>,
}

/// The mathematical value of an `Action`.
pub enum ActionModel {
    CreateDir { dir: Seq<u8> },
    Fetch { url: Seq<u8>, delay_ms: u64, deadline_ms: u64 },
    WriteTemp { dir: Seq<u8>, name: Seq<u8>, content: Seq<u8> },
    Rename { dir: Seq<u8>, from: Seq<u8>, to: Seq<u8> },
    RemoveTemp { dir: Seq<u8>, name: Seq<u8> },
    Load { dir: Seq<u8>, name: Seq<u8> },
    Unpack { dir: Seq<u8>, entries: Seq<EntryModel> },
    Finish(Result<RunSummary, PipelineFailure>),
}

/// The mathematical value of an `Event`.
pub enum EventModel {
    Done,
    Response { status: u16, body: Seq<u8> },
    Written { count: u64 },
    Loaded { bytes: Seq<u8> },
    IoFailed(IoFault),
    NetworkFailed(NetworkFault),
}

/// The mathematical value of a `Step`.
pub struct StepModel {
    pub next: Pipeline,
    pub action: ActionModel,
    pub log: Seq<LogEvent>,
}

impl View for Action {
    type V = ActionModel;

    open spec fn view(&self) -> ActionModel {
        match *self {
            Action::CreateDir { dir } => ActionModel::CreateDir { dir: dir@ },
            Action::Fetch { url, delay_ms, deadline_ms } => ActionModel::Fetch {
                url: url@,
                delay_ms,
                deadline_ms,
            },
            Action::WriteTemp { dir, name, content } => ActionModel::WriteTemp {
                dir: dir@,
                name: name@,
                content: content@,
            },
            Action::Rename { dir, from, to } => ActionModel::Rename {
                dir: dir@,
                from: from@,
                to: to@,
            },
            Action::RemoveTemp { dir, name } => ActionModel::RemoveTemp { dir: dir@, name: name@ },
            Action::Load { dir, name } => ActionModel::Load { dir: dir@, name: name@ },
            Action::Unpack { dir, entries } => ActionModel::Unpack {
                dir: dir@,
                entries: entries_view(entries@),
            },
            Action::Finish(result) => ActionModel::Finish(result),
        }
    }
}

impl View for Event {
    type V = EventModel;

    open spec fn view(&self) -> EventModel {
        match *self {
            Event::Done => EventModel::Done,
            Event::Response { status, body } => EventModel::Response { status, body: body@ },
            Event::Written { count } => EventModel::Written { count },
            Event::Loaded { bytes } => EventModel::Loaded { bytes: bytes@ },
            Event::IoFailed(fault) => EventModel::IoFailed(fault),
            Event::NetworkFailed(fault) => EventModel::NetworkFailed(fault),
        }
    }
}

impl View for Step {
    type V = StepModel;

    open spec fn view(&self) -> StepModel {
        StepModel { next: self.next, action: self.action@, log: self.log@ }
    }
}

// ---------------------------------------------------------------------------
// The transitions
// ---------------------------------------------------------------------------

/// The cause of a failed operation on the file system, as the event gives it.
pub open spec fn io_fault_of(event: EventModel) -> IoFault {
    match event {
        EventModel::IoFailed(fault) => fault,
        _ => IoFault::Other,
    }
}

/// What an attempt to fetch yields, as the event gives it: the body of a
/// response with a success status, a `RemoteError` for any other response,
/// a `NetworkError` where none arrived.
pub open spec fn fetched_of(event: EventModel) -> Result<Seq<u8>, PipelineError> {
    match event {
        EventModel::Response { status, body } => response_result(status, body),
        EventModel::NetworkFailed(fault) => Err(PipelineError::NetworkError(fault)),
        _ => Err(PipelineError::NetworkError(NetworkFault::Other)),
    }
}

impl Pipeline {
    /// The same run in another phase.
    pub open spec fn at(self, phase: Phase) -> Pipeline {
        Pipeline { mode: self.mode, policy: self.policy, phase }
    }

    /// The run is over.
    pub open spec fn is_finished(self) -> bool {
        self.phase is Finished
    }

    /// The stage that the run is in. A finished run is in none.
    pub open spec fn stage(self) -> Option<Stage> {
        match self.phase {
            Phase::Directory => Some(Stage::Directory),
            Phase::Fetch { .. } => Some(Stage::Fetch),
            Phase::WriteTemp { .. } | Phase::Rename { .. } | Phase::Cleanup { .. } => Some(
                Stage::Write,
            ),
            Phase::Load { .. } | Phase::Unpack { .. } => Some(Stage::Decompress),
            Phase::Finished(_) => None,
        }
    }

    /// The run ends with a failure: the error is logged and surfaced with
    /// the stage that raised it.
    pub open spec fn fails(self, stage: Stage, error: PipelineError) -> StepModel {
        let failure = PipelineFailure { stage, error };
        StepModel {
            next: self.at(Phase::Finished(Err(failure))),
            action: ActionModel::Finish(Err(failure)),
            log: seq![LogEvent::Failed(failure)],
        }
    }

    /// The write failed: the temporary file is removed before the error is
    /// surfaced.
    pub open spec fn cleans_up(self, error: PipelineError) -> StepModel {
        StepModel {
            next: self.at(Phase::Cleanup { error }),
            action: ActionModel::RemoveTemp {
                dir: working_directory(self.mode),
                name: temp_name(dataset_filename(self.mode)),
            },
            log: Seq::empty(),
        }
    }

    /// The first step of a run: the working directory is created.
    pub open spec fn start_model(mode: Mode, policy: FetchPolicy) -> StepModel {
        StepModel {
            next: Pipeline { mode, policy, phase: Phase::Directory },
            action: ActionModel::CreateDir { dir: working_directory(mode) },
            log: seq![LogEvent::StageStarted(Stage::Directory)],
        }
    }

    /// After the working directory: the dataset is resolved and fetched.
    pub open spec fn after_directory(self, event: EventModel) -> StepModel {
        match event {
            EventModel::Done => StepModel {
                next: self.at(Phase::Fetch { attempt: 1 }),
                action: ActionModel::Fetch {
                    url: source_url(self.mode),
                    delay_ms: 0,
                    deadline_ms: self.policy.deadline_ms,
                },
                log: seq![
                    LogEvent::StageFinished(Stage::Directory),
                    LogEvent::StageStarted(Stage::Metadata),
                    LogEvent::StageFinished(Stage::Metadata),
                    LogEvent::StageStarted(Stage::Fetch),
                ],
            },
            _ => self.fails(Stage::Directory, PipelineError::IoError(io_fault_of(event))),
        }
    }

    /// After an attempt to fetch: the content fetched is written to the
    /// temporary file, with a note if its size is not the expected one; after
    /// an attempt that brought none the fetch is tried again while the policy
    /// allows it, and fails the run when it does not.
    pub open spec fn after_fetch(self, attempt: u32, event: EventModel) -> StepModel {
        match fetched_of(event) {
            Ok(body) => StepModel {
                next: self.at(Phase::WriteTemp { length: body.len() as u64 }),
                action: ActionModel::WriteTemp {
                    dir: working_directory(self.mode),
                    name: temp_name(dataset_filename(self.mode)),
                    content: body,
                },
                log: if body.len() == dataset_size(self.mode) {
                    seq![LogEvent::StageFinished(Stage::Fetch), LogEvent::StageStarted(Stage::Write)]
                } else {
                    seq![
                        LogEvent::SizeDiffers {
                            expected: dataset_size(self.mode),
                            fetched: body.len() as u64,
                        },
                        LogEvent::StageFinished(Stage::Fetch),
                        LogEvent::StageStarted(Stage::Write),
                    ]
                },
            },
            Err(error) => if self.policy.retries_after(attempt as nat) {
                StepModel {
                    next: self.at(Phase::Fetch { attempt: (attempt + 1) as u32 }),
                    action: ActionModel::Fetch {
                        url: source_url(self.mode),
                        delay_ms: self.policy.wait_after(attempt as nat) as u64,
                        deadline_ms: self.policy.deadline_ms,
                    },
                    log: seq![
                        LogEvent::Retrying {
                            failed: attempt,
                            delay_ms: self.policy.wait_after(attempt as nat) as u64,
                            error,
                        },
                    ],
                }
            } else {
                self.fails(Stage::Fetch, error)
            },
        }
    }

    /// After the write to the temporary file: it is renamed to the target
    /// if as many bytes were written as were fetched; it is removed if the
    /// count differs (an `IntegrityError`) or the write failed (an
    /// `IoError`).
    pub open spec fn after_write(self, length: u64, event: EventModel) -> StepModel {
        match event {
            EventModel::Written { count } => match written_check(length, count) {
                Ok(()) => StepModel {
                    next: self.at(Phase::Rename { length }),
                    action: ActionModel::Rename {
                        dir: working_directory(self.mode),
                        from: temp_name(dataset_filename(self.mode)),
                        to: dataset_filename(self.mode),
                    },
                    log: Seq::empty(),
                },
                Err(error) => self.cleans_up(error),
            },
            _ => self.cleans_up(PipelineError::IoError(io_fault_of(event))),
        }
    }

    /// After the rename: the persisted archive is read for unpacking; the
    /// temporary file is removed if the rename failed.
    pub open spec fn after_rename(self, length: u64, event: EventModel) -> StepModel {
        match event {
            EventModel::Done => StepModel {
                next: self.at(Phase::Load { length }),
                action: ActionModel::Load {
                    dir: working_directory(self.mode),
                    name: dataset_filename(self.mode),
                },
                log: seq![
                    LogEvent::StageFinished(Stage::Write),
                    LogEvent::StageStarted(Stage::Decompress),
                ],
            },
            _ => self.cleans_up(PipelineError::IoError(io_fault_of(event))),
        }
    }

    /// After the archive was read: its entries are planned and handed out
    /// for writing, or the run fails with what forbids it.
    pub open spec fn after_load(self, length: u64, event: EventModel) -> StepModel {
        match event {
            EventModel::Loaded { bytes } => match extraction_plan(
                dataset_filename(self.mode),
                bytes,
            ) {
                Ok(entries) => StepModel {
                    next: self.at(Phase::Unpack { length, entries: entries.len() as u64 }),
                    action: ActionModel::Unpack { dir: working_directory(self.mode), entries },
                    log: Seq::empty(),
                },
                Err(error) => self.fails(Stage::Decompress, error),
            },
            _ => self.fails(
                Stage::Decompress,
                PipelineError::ExtractionError(ExtractionFault::Io(io_fault_of(event))),
            ),
        }
    }

    /// After the entries were written: the run is over.
    pub open spec fn after_unpack(self, length: u64, entries: u64, event: EventModel) -> StepModel {
        match event {
            EventModel::Done => {
                let summary = RunSummary { persisted_bytes: length, entries };
                StepModel {
                    next: self.at(Phase::Finished(Ok(summary))),
                    action: ActionModel::Finish(Ok(summary)),
                    log: seq![LogEvent::StageFinished(Stage::Decompress)],
                }
            },
            _ => self.fails(
                Stage::Decompress,
                PipelineError::ExtractionError(ExtractionFault::Io(io_fault_of(event))),
            ),
        }
    }

    /// What follows the event in the run's phase.
    pub open spec fn step_model(self, event: EventModel) -> StepModel {
        match self.phase {
            Phase::Directory => self.after_directory(event),
            Phase::Fetch { attempt } => self.after_fetch(attempt, event),
            Phase::WriteTemp { length } => self.after_write(length, event),
            Phase::Rename { length } => self.after_rename(length, event),
            Phase::Cleanup { error } => self.fails(Stage::Write, error),
            Phase::Load { length } => self.after_load(length, event),
            Phase::Unpack { length, entries } => self.after_unpack(length, entries, event),
            Phase::Finished(result) => StepModel {
                next: self,
                action: ActionModel::Finish(result),
                log: Seq::empty(),
            },
        }
    }

    /// Starts a run in the given mode.
    pub fn start(mode: Mode, policy: FetchPolicy) -> (step: Step)
        ensures
            step@ == Pipeline::start_model(mode, policy),
    {
        let mut log: Vec<LogEvent> = Vec::new();
        log.push(LogEvent::StageStarted(Stage::Directory));
        let step = Step {
            next: Pipeline { mode, policy, phase: Phase::Directory },
            action: Action::CreateDir { dir: download_dir(mode) },
            log,
        };
        assert(step.log@ =~= seq![LogEvent::StageStarted(Stage::Directory)]);
        step
    }

    /// Takes the event that reports the outcome of the pending action and
    /// decides what follows.
    pub fn step(self, event: Event) -> (step: Step)
        ensures
            step@ == self.step_model(event@),
    {
        match self.phase {
            Phase::Directory => self.directory_done(event),
            Phase::Fetch { attempt } => self.fetch_done(attempt, event),
            Phase::WriteTemp { length } => self.write_done(length, event),
            Phase::Rename { length } => self.rename_done(length, event),
            Phase::Cleanup { error } => self.fail(Stage::Write, error),
            Phase::Load { length } => self.load_done(length, event),
            Phase::Unpack { length, entries } => self.unpack_done(length, entries, event),
            Phase::Finished(result) => Step {
                next: self,
                action: Action::Finish(result),
                log: Vec::new(),
            },
        }
    }

    /// Tells whether the run is over.
    pub fn finished(&self) -> (over: bool)
        ensures
            over == self.is_finished(),
    {
        match self.phase {
            Phase::Finished(_) => true,
            _ => false,
        }
    }

    fn moved(self, phase: Phase) -> (next: Pipeline)
        ensures
            next == self.at(phase),
    {
        Pipeline { mode: self.mode, policy: self.policy, phase }
    }

    fn fail(self, stage: Stage, error: PipelineError) -> (step: Step)
        ensures
            step@ == self.fails(stage, error),
    {
        let failure = PipelineFailure { stage, error };
        let mut log: Vec<LogEvent> = Vec::new();
        log.push(LogEvent::Failed(failure));
        let step = Step {
            next: self.moved(Phase::Finished(Err(failure))),
            action: Action::Finish(Err(failure)),
            log,
        };
        assert(step.log@ =~= seq![LogEvent::Failed(failure)]);
        step
    }

    fn clean_up(self, error: PipelineError) -> (step: Step)
        ensures
            step@ == self.cleans_up(error),
    {
        let filename = get_filename(self.mode);
        Step {
            next: self.moved(Phase::Cleanup { error }),
            action: Action::RemoveTemp {
                dir: download_dir(self.mode),
                name: temp_file_name(filename.as_slice()),
            },
            log: Vec::new(),
        }
    }

    fn directory_done(self, event: Event) -> (step: Step)
        ensures
            step@ == self.after_directory(event@),
    {
        match event {
            Event::Done => {
                let mut log: Vec<LogEvent> = Vec::new();
                log.push(LogEvent::StageFinished(Stage::Directory));
                log.push(LogEvent::StageStarted(Stage::Metadata));
                log.push(LogEvent::StageFinished(Stage::Metadata));
                log.push(LogEvent::StageStarted(Stage::Fetch));
                let step = Step {
                    next: self.moved(Phase::Fetch { attempt: 1 }),
                    action: Action::Fetch {
                        url: get_source(self.mode),
                        delay_ms: 0,
                        deadline_ms: self.policy.deadline_ms,
                    },
                    log,
                };
                assert(step.log@ =~= seq![
                    LogEvent::StageFinished(Stage::Directory),
                    LogEvent::StageStarted(Stage::Metadata),
                    LogEvent::StageFinished(Stage::Metadata),
                    LogEvent::StageStarted(Stage::Fetch),
                ]);
                step
            },
            Event::IoFailed(fault) => self.fail(Stage::Directory, PipelineError::IoError(fault)),
            _ => self.fail(Stage::Directory, PipelineError::IoError(IoFault::Other)),
        }
    }

    fn fetch_done(self, attempt: u32, event: Event) -> (step: Step)
        ensures
            step@ == self.after_fetch(attempt, event@),
    {
        let outcome = match event {
            Event::Response { status, body } => FetchOutcome::Response { status, body },
            Event::NetworkFailed(fault) => FetchOutcome::Failed(fault),
            _ => FetchOutcome::Failed(NetworkFault::Other),
        };
        let error = match get_data(outcome) {
            Ok(content) => {
                return self.fetched(content);
            },
            Err(error) => error,
        };
        if self.policy.allows_retry(attempt) {
            let delay_ms = self.policy.delay_after(attempt);
            let mut log: Vec<LogEvent> = Vec::new();
            log.push(LogEvent::Retrying { failed: attempt, delay_ms, error });
            let step = Step {
                next: self.moved(Phase::Fetch { attempt: attempt + 1 }),
                action: Action::Fetch {
                    url: get_source(self.mode),
                    delay_ms,
                    deadline_ms: self.policy.deadline_ms,
                },
                log,
            };
            assert(step.log@ =~= seq![LogEvent::Retrying { failed: attempt, delay_ms, error }]);
            step
        } else {
            self.fail(Stage::Fetch, error)
        }
    }

    fn fetched(self, content: FetchedContent) -> (step: Step)
        ensures
            step@ == (StepModel {
                next: self.at(Phase::WriteTemp { length: content@.len() as u64 }),
                action: ActionModel::WriteTemp {
                    dir: working_directory(self.mode),
                    name: temp_name(dataset_filename(self.mode)),
                    content: content@,
                },
                log: if content@.len() == dataset_size(self.mode) {
                    seq![LogEvent::StageFinished(Stage::Fetch), LogEvent::StageStarted(Stage::Write)]
                } else {
                    seq![
                        LogEvent::SizeDiffers {
                            expected: dataset_size(self.mode),
                            fetched: content@.len() as u64,
                        },
                        LogEvent::StageFinished(Stage::Fetch),
                        LogEvent::StageStarted(Stage::Write),
                    ]
                },
            }),
    {
        let length = content.len() as u64;
        let descriptor = resolve_metadata(self.mode);
        let expected = descriptor.expected_size_bytes;
        let same = size_as_expected(&descriptor, &content);
        let mut log: Vec<LogEvent> = Vec::new();
        if !same {
            log.push(LogEvent::SizeDiffers { expected, fetched: length });
        }
        log.push(LogEvent::StageFinished(Stage::Fetch));
        log.push(LogEvent::StageStarted(Stage::Write));
        proof {
            if same {
                assert(log@ =~= seq![
                    LogEvent::StageFinished(Stage::Fetch),
                    LogEvent::StageStarted(Stage::Write),
                ]);
            } else {
                assert(log@ =~= seq![
                    LogEvent::SizeDiffers { expected, fetched: length },
                    LogEvent::StageFinished(Stage::Fetch),
                    LogEvent::StageStarted(Stage::Write),
                ]);
            }
        }
        Step {
            next: self.moved(Phase::WriteTemp { length }),
            action: Action::WriteTemp {
                dir: download_dir(self.mode),
                name: temp_file_name(descriptor.filename.as_slice()),
                content,
            },
            log,
        }
    }

    fn write_done(self, length: u64, event: Event) -> (step: Step)
        ensures
            step@ == self.after_write(length, event@),
    {
        match event {
            Event::Written { count } => match check_written(length, count) {
                Ok(()) => {
                    let filename = get_filename(self.mode);
                    Step {
                        next: self.moved(Phase::Rename { length }),
                        action: Action::Rename {
                            dir: download_dir(self.mode),
                            from: temp_file_name(filename.as_slice()),
                            to: filename,
                        },
                        log: Vec::new(),
                    }
                },
                Err(error) => self.clean_up(error),
            },
            Event::IoFailed(fault) => self.clean_up(PipelineError::IoError(fault)),
            _ => self.clean_up(PipelineError::IoError(IoFault::Other)),
        }
    }

    fn rename_done(self, length: u64, event: Event) -> (step: Step)
        ensures
            step@ == self.after_rename(length, event@),
    {
        match event {
            Event::Done => {
                let mut log: Vec<LogEvent> = Vec::new();
                log.push(LogEvent::StageFinished(Stage::Write));
                log.push(LogEvent::StageStarted(Stage::Decompress));
                let step = Step {
                    next: self.moved(Phase::Load { length }),
                    action: Action::Load {
                        dir: download_dir(self.mode),
                        name: get_filename(self.mode),
                    },
                    log,
                };
                assert(step.log@ =~= seq![
                    LogEvent::StageFinished(Stage::Write),
                    LogEvent::StageStarted(Stage::Decompress),
                ]);
                step
            },
            Event::IoFailed(fault) => self.clean_up(PipelineError::IoError(fault)),
            _ => self.clean_up(PipelineError::IoError(IoFault::Other)),
        }
    }

    fn load_done(self, length: u64, event: Event) -> (step: Step)
        ensures
            step@ == self.after_load(length, event@),
    {
        match event {
            Event::Loaded { bytes } => {
                let filename = get_filename(self.mode);
                match decompress(filename.as_slice(), bytes.as_slice()) {
                    Ok(entries) => {
                        let count = entries.len() as u64;
                        assert(entries_view(entries@).len() == entries@.len());
                        Step {
                            next: self.moved(Phase::Unpack { length, entries: count }),
                            action: Action::Unpack { dir: download_dir(self.mode), entries },
                            log: Vec::new(),
                        }
                    },
                    Err(error) => self.fail(Stage::Decompress, error),
                }
            },
            Event::IoFailed(fault) => self.fail(
                Stage::Decompress,
                PipelineError::ExtractionError(ExtractionFault::Io(fault)),
            ),
            _ => self.fail(
                Stage::Decompress,
                PipelineError::ExtractionError(ExtractionFault::Io(IoFault::Other)),
            ),
        }
    }

    fn unpack_done(self, length: u64, entries: u64, event: Event) -> (step: Step)
        ensures
            step@ == self.after_unpack(length, entries, event@),
    {
        match event {
            Event::Done => {
                let summary = RunSummary { persisted_bytes: length, entries };
                let mut log: Vec<LogEvent> = Vec::new();
                log.push(LogEvent::StageFinished(Stage::Decompress));
                let step = Step {
                    next: self.moved(Phase::Finished(Ok(summary))),
                    action: Action::Finish(Ok(summary)),
                    log,
                };
                assert(step.log@ =~= seq![LogEvent::StageFinished(Stage::Decompress)]);
                step
            },
            Event::IoFailed(fault) => self.fail(
                Stage::Decompress,
                PipelineError::ExtractionError(ExtractionFault::Io(fault)),
            ),
            _ => self.fail(
                Stage::Decompress,
                PipelineError::ExtractionError(ExtractionFault::Io(IoFault::Other)),
            ),
        }
    }
}

} // verus!
