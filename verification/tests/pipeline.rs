use std::collections::{BTreeMap, BTreeSet};
use std::io::Write;

use deepmath::data_retrieve::download::{accept_response, Mode};
use deepmath::data_retrieve::error::{
    ExtractionFault, IoFault, NetworkFault, PipelineError, PipelineFailure, Stage,
};
use deepmath::data_retrieve::pipeline::{Action, Event, LogEvent, Phase, Pipeline, RunSummary, Step};
use deepmath::data_retrieve::retry::FetchPolicy;
use deepmath::data_retrieve::tar::{ArchiveEntry, EntryKind};

fn gzipped(bytes: &[u8]) -> Vec<u8> {
    let mut encoder = flate2::write::GzEncoder::new(Vec::new(), flate2::Compression::default());
    encoder.write_all(bytes).unwrap();
    encoder.finish().unwrap()
}

fn archive_of(files: &[(&str, &[u8])]) -> Vec<u8> {
    let mut builder = tar::Builder::new(Vec::new());
    for (name, data) in files {
        let mut header = tar::Header::new_gnu();
        header.set_size(data.len() as u64);
        header.set_mode(0o644);
        header.set_entry_type(tar::EntryType::Regular);
        let field = &mut header.as_old_mut().name;
        field[..name.len()].copy_from_slice(name.as_bytes());
        header.set_cksum();
        builder.append(&header, *data).unwrap();
    }
    builder.into_inner().unwrap()
}

/// A host that keeps its file system in memory and fails where told to.
struct Host {
    dirs: BTreeSet<Vec<u8>>,
    files: BTreeMap<(Vec<u8>, Vec<u8>), Vec<u8>>,
    status: u16,
    body: Vec<u8>,
    unanswered_fetches: u32,
    dir_fault: Option<IoFault>,
    write_fault: Option<IoFault>,
    written_at_most: Option<usize>,
    rename_fault: Option<IoFault>,
    unpack_fault: Option<IoFault>,
    fetches: u32,
    delays: Vec<u64>,
    loaded: Vec<Vec<u8>>,
    log: Vec<LogEvent>,
}

impl Host {
    fn answering(status: u16, body: Vec<u8>) -> Host {
        Host {
            dirs: BTreeSet::new(),
            files: BTreeMap::new(),
            status,
            body,
            unanswered_fetches: 0,
            dir_fault: None,
            write_fault: None,
            written_at_most: None,
            rename_fault: None,
            unpack_fault: None,
            fetches: 0,
            delays: Vec::new(),
            loaded: Vec::new(),
            log: Vec::new(),
        }
    }

    fn perform(&mut self, action: Action) -> Result<Event, Result<RunSummary, PipelineFailure>> {
        Ok(match action {
            Action::CreateDir { dir } => match self.dir_fault {
                Some(fault) if !self.dirs.contains(&dir) => Event::IoFailed(fault),
                _ => {
                    self.dirs.insert(dir);
                    Event::Done
                }
            },
            Action::Fetch { delay_ms, .. } => {
                self.fetches += 1;
                self.delays.push(delay_ms);
                if self.fetches <= self.unanswered_fetches {
                    Event::NetworkFailed(NetworkFault::Timeout)
                } else {
                    Event::Response { status: self.status, body: self.body.clone() }
                }
            }
            Action::WriteTemp { dir, name, content } => {
                let content = content.into_bytes();
                let kept = self.written_at_most.unwrap_or(content.len()).min(content.len());
                self.files.insert((dir, name), content[..kept].to_vec());
                match self.write_fault {
                    Some(fault) => Event::IoFailed(fault),
                    None => Event::Written { count: kept as u64 },
                }
            }
            Action::Rename { dir, from, to } => match self.rename_fault {
                Some(fault) => Event::IoFailed(fault),
                None => {
                    let content = self.files.remove(&(dir.clone(), from)).unwrap();
                    self.files.insert((dir, to), content);
                    Event::Done
                }
            },
            Action::RemoveTemp { dir, name } => {
                self.files.remove(&(dir, name));
                Event::Done
            }
            Action::Load { dir, name } => match self.files.get(&(dir, name)) {
                Some(bytes) => {
                    self.loaded.push(bytes.clone());
                    Event::Loaded { bytes: bytes.clone() }
                }
                None => Event::IoFailed(IoFault::Other),
            },
            Action::Unpack { dir, entries } => match self.unpack_fault {
                Some(fault) => Event::IoFailed(fault),
                None => {
                    for entry in entries {
                        if entry.kind == EntryKind::File {
                            self.files.insert((dir.clone(), entry.name), entry.data);
                        }
                    }
                    Event::Done
                }
            },
            Action::Finish(result) => return Err(result),
        })
    }

    fn run(&mut self, mode: Mode, policy: FetchPolicy) -> Result<RunSummary, PipelineFailure> {
        let mut step = Pipeline::start(mode, policy);
        loop {
            self.log.extend(step.log.iter().copied());
            match self.perform(step.action) {
                Ok(event) => step = step.next.step(event),
                Err(result) => {
                    assert!(step.next.finished());
                    return result;
                }
            }
        }
    }

    fn file(&self, dir: &str, name: &str) -> Option<&Vec<u8>> {
        self.files.get(&(dir.as_bytes().to_vec(), name.as_bytes().to_vec()))
    }
}

fn once() -> FetchPolicy {
    FetchPolicy::single_attempt(30_000)
}

#[test]
fn debug_run_persists_and_unpacks_the_dataset() {
    let content = b"f,F\ncos(x),sin(x)\n";
    let body = gzipped(&archive_of(&[("equations.csv", content)]));
    let size = body.len() as u64;
    let mut host = Host::answering(200, body.clone());
    let result = host.run(Mode::Debug, once());
    assert_eq!(result, Ok(RunSummary { persisted_bytes: size, entries: 1 }));
    assert_eq!(host.file("data/debug", "equations.csv"), Some(&content.to_vec()));
    assert_eq!(host.file("data/debug", "ode1.tar.gz"), Some(&body));
    assert_eq!(host.file("data/debug", "ode1.tar.gz.part"), None);
    assert!(host.dirs.contains(&b"data/debug".to_vec()));
    assert_eq!(host.fetches, 1);
}

#[test]
fn persisted_archive_reads_back_byte_for_byte() {
    let body = gzipped(&archive_of(&[("equations.csv", b"x\n"), ("more.csv", &[0u8, 255, 7])]));
    let mut host = Host::answering(200, body.clone());
    let summary = host.run(Mode::Standard, once()).unwrap();
    assert_eq!(host.loaded, vec![body.clone()]);
    assert_eq!(summary.persisted_bytes, body.len() as u64);
    assert_eq!(host.file("data/standard", "prim_fwd.tar.gz"), Some(&body));
}

#[test]
fn earlier_archive_survives_a_failed_write() {
    let mut host = Host::answering(200, gzipped(&archive_of(&[("equations.csv", b"new")])));
    let earlier = b"the archive of an earlier run".to_vec();
    host.files.insert((b"data/debug".to_vec(), b"ode1.tar.gz".to_vec()), earlier.clone());
    host.written_at_most = Some(3);
    assert!(host.run(Mode::Debug, once()).is_err());
    assert_eq!(host.files.len(), 1);
    assert_eq!(host.file("data/debug", "ode1.tar.gz"), Some(&earlier));
}

#[test]
fn successful_run_logs_every_stage_transition() {
    let body = gzipped(&archive_of(&[("equations.csv", b"1")]));
    let size = body.len() as u64;
    let mut host = Host::answering(200, body);
    host.run(Mode::Debug, once()).unwrap();
    assert_eq!(
        host.log,
        vec![
            LogEvent::StageStarted(Stage::Directory),
            LogEvent::StageFinished(Stage::Directory),
            LogEvent::StageStarted(Stage::Metadata),
            LogEvent::StageFinished(Stage::Metadata),
            LogEvent::StageStarted(Stage::Fetch),
            LogEvent::SizeDiffers { expected: 67_108_864, fetched: size },
            LogEvent::StageFinished(Stage::Fetch),
            LogEvent::StageStarted(Stage::Write),
            LogEvent::StageFinished(Stage::Write),
            LogEvent::StageStarted(Stage::Decompress),
            LogEvent::StageFinished(Stage::Decompress),
        ]
    );
}

#[test]
fn service_unavailable_fails_the_run_with_a_remote_error() {
    let mut host = Host::answering(503, b"try later".to_vec());
    let result = host.run(Mode::Standard, once());
    let failure =
        PipelineFailure { stage: Stage::Fetch, error: PipelineError::RemoteError { status: 503 } };
    assert_eq!(result, Err(failure));
    assert!(host.files.is_empty());
    assert_eq!(host.log.last(), Some(&LogEvent::Failed(failure)));
    assert_eq!(host.fetches, 1);
}

#[test]
fn full_disk_during_the_write_leaves_no_file_behind() {
    let body = gzipped(&archive_of(&[("equations.csv", b"1,2,3")]));
    let mut host = Host::answering(200, body);
    host.write_fault = Some(IoFault::StorageFull);
    host.written_at_most = Some(7);
    let result = host.run(Mode::Debug, once());
    assert_eq!(
        result,
        Err(PipelineFailure {
            stage: Stage::Write,
            error: PipelineError::IoError(IoFault::StorageFull),
        })
    );
    assert!(host.files.is_empty());
}

#[test]
fn short_write_is_an_integrity_error() {
    let body = gzipped(&archive_of(&[("equations.csv", b"1,2,3")]));
    let size = body.len() as u64;
    let mut host = Host::answering(200, body);
    host.written_at_most = Some(10);
    let result = host.run(Mode::Debug, once());
    assert_eq!(
        result,
        Err(PipelineFailure {
            stage: Stage::Write,
            error: PipelineError::IntegrityError { expected: size, written: 10 },
        })
    );
    assert!(host.files.is_empty());
}

#[test]
fn failed_rename_removes_the_temporary_file() {
    let body = gzipped(&archive_of(&[("equations.csv", b"1,2,3")]));
    let mut host = Host::answering(200, body);
    host.rename_fault = Some(IoFault::PermissionDenied);
    let result = host.run(Mode::Debug, once());
    assert_eq!(
        result,
        Err(PipelineFailure {
            stage: Stage::Write,
            error: PipelineError::IoError(IoFault::PermissionDenied),
        })
    );
    assert!(host.files.is_empty());
}

#[test]
fn traversal_entry_fails_the_run_and_writes_nothing_of_the_archive() {
    let body = gzipped(&archive_of(&[("fine.csv", b"1"), ("../../etc/passwd", b"root::0:0")]));
    let mut host = Host::answering(200, body.clone());
    let result = host.run(Mode::Debug, once());
    assert_eq!(
        result,
        Err(PipelineFailure {
            stage: Stage::Decompress,
            error: PipelineError::ExtractionError(ExtractionFault::UnsafePath),
        })
    );
    assert_eq!(host.files.len(), 1);
    assert_eq!(host.file("data/debug", "ode1.tar.gz"), Some(&body));
}

#[test]
fn directory_that_cannot_be_created_fails_the_run_before_any_fetch() {
    let mut host = Host::answering(200, Vec::new());
    host.dir_fault = Some(IoFault::PermissionDenied);
    let result = host.run(Mode::Standard, once());
    assert_eq!(
        result,
        Err(PipelineFailure {
            stage: Stage::Directory,
            error: PipelineError::IoError(IoFault::PermissionDenied),
        })
    );
    assert_eq!(host.fetches, 0);
}

#[test]
fn second_run_finds_the_directory_and_succeeds() {
    let body = gzipped(&archive_of(&[("equations.csv", b"1")]));
    let mut host = Host::answering(200, body);
    host.run(Mode::Debug, once()).unwrap();
    // From now on creating a missing directory would fail.
    host.dir_fault = Some(IoFault::PermissionDenied);
    let dirs = host.dirs.clone();
    assert!(host.run(Mode::Debug, once()).is_ok());
    assert_eq!(host.dirs, dirs);
}

#[test]
fn both_runs_ask_for_the_same_directory() {
    let first = Pipeline::start(Mode::Standard, once());
    let second = Pipeline::start(Mode::Standard, FetchPolicy::single_attempt(5));
    assert_eq!(first.action, Action::CreateDir { dir: b"data/standard".to_vec() });
    assert_eq!(first.action, second.action);
}

#[test]
fn fetch_is_retried_with_growing_delays_until_it_is_answered() {
    let body = gzipped(&archive_of(&[("equations.csv", b"1")]));
    let mut host = Host::answering(200, body);
    host.unanswered_fetches = 3;
    let policy =
        FetchPolicy { max_attempts: 5, base_delay_ms: 100, max_delay_ms: 250, deadline_ms: 1_000 };
    assert!(host.run(Mode::Debug, policy).is_ok());
    assert_eq!(host.fetches, 4);
    assert_eq!(host.delays, vec![0, 100, 200, 250]);
    assert!(host.log.contains(&LogEvent::Retrying {
        failed: 2,
        delay_ms: 200,
        error: PipelineError::NetworkError(NetworkFault::Timeout),
    }));
}

#[test]
fn fetch_gives_up_after_the_attempts_of_the_policy() {
    let mut host = Host::answering(200, Vec::new());
    host.unanswered_fetches = 10;
    let policy =
        FetchPolicy { max_attempts: 3, base_delay_ms: 10, max_delay_ms: 1_000, deadline_ms: 50 };
    let result = host.run(Mode::Debug, policy);
    assert_eq!(
        result,
        Err(PipelineFailure {
            stage: Stage::Fetch,
            error: PipelineError::NetworkError(NetworkFault::Timeout),
        })
    );
    assert_eq!(host.fetches, 3);
    assert!(host.files.is_empty());
}

#[test]
fn fetch_request_carries_the_source_and_the_deadline() {
    let step = Pipeline::start(Mode::Standard, FetchPolicy::single_attempt(1_500));
    let step = step.next.step(Event::Done);
    assert_eq!(
        step.action,
        Action::Fetch {
            url: b"https://dl.fbaipublicfiles.com/SymbolicMathematics/data/prim_fwd.tar.gz"
                .to_vec(),
            delay_ms: 0,
            deadline_ms: 1_500,
        }
    );
    assert_eq!(step.next.phase, Phase::Fetch { attempt: 1 });
}

#[test]
fn body_of_a_failed_response_is_never_written() {
    let run = Pipeline { mode: Mode::Debug, policy: once(), phase: Phase::Fetch { attempt: 1 } };
    let step = run.step(Event::Response { status: 404, body: b"not found".to_vec() });
    let failure =
        PipelineFailure { stage: Stage::Fetch, error: PipelineError::RemoteError { status: 404 } };
    assert_eq!(
        step,
        Step {
            next: Pipeline { mode: Mode::Debug, policy: once(), phase: Phase::Finished(Err(failure)) },
            action: Action::Finish(Err(failure)),
            log: vec![LogEvent::Failed(failure)],
        }
    );
}

#[test]
fn content_is_written_to_the_temporary_file_first() {
    let run = Pipeline { mode: Mode::Debug, policy: once(), phase: Phase::Fetch { attempt: 1 } };
    let step = run.step(Event::Response { status: 200, body: b"abc".to_vec() });
    assert_eq!(
        step.action,
        Action::WriteTemp {
            dir: b"data/debug".to_vec(),
            name: b"ode1.tar.gz.part".to_vec(),
            content: accept_response(200, b"abc".to_vec()).unwrap(),
        }
    );
    assert_eq!(step.next.phase, Phase::WriteTemp { length: 3 });
    let step = step.next.step(Event::Written { count: 3 });
    assert_eq!(
        step.action,
        Action::Rename {
            dir: b"data/debug".to_vec(),
            from: b"ode1.tar.gz.part".to_vec(),
            to: b"ode1.tar.gz".to_vec(),
        }
    );
}

#[test]
fn event_that_answers_nothing_counts_as_a_failure() {
    let run = Pipeline { mode: Mode::Debug, policy: once(), phase: Phase::Directory };
    let step = run.step(Event::Written { count: 1 });
    assert_eq!(
        step.action,
        Action::Finish(Err(PipelineFailure {
            stage: Stage::Directory,
            error: PipelineError::IoError(IoFault::Other),
        }))
    );
    let run = Pipeline { mode: Mode::Debug, policy: once(), phase: Phase::Fetch { attempt: 1 } };
    let step = run.step(Event::Done);
    assert_eq!(
        step.action,
        Action::Finish(Err(PipelineFailure {
            stage: Stage::Fetch,
            error: PipelineError::NetworkError(NetworkFault::Other),
        }))
    );
}

#[test]
fn finished_run_keeps_its_result() {
    let result = Ok(RunSummary { persisted_bytes: 9, entries: 2 });
    let run = Pipeline { mode: Mode::Debug, policy: once(), phase: Phase::Finished(result) };
    let step = run.step(Event::IoFailed(IoFault::Other));
    assert_eq!(step, Step { next: run, action: Action::Finish(result), log: Vec::new() });
}

#[test]
fn unreadable_archive_is_an_extraction_error() {
    let run = Pipeline { mode: Mode::Debug, policy: once(), phase: Phase::Load { length: 4 } };
    let step = run.step(Event::IoFailed(IoFault::PermissionDenied));
    assert_eq!(
        step.action,
        Action::Finish(Err(PipelineFailure {
            stage: Stage::Decompress,
            error: PipelineError::ExtractionError(ExtractionFault::Io(IoFault::PermissionDenied)),
        }))
    );
}

#[test]
fn failed_unpacking_is_reported() {
    let body = gzipped(&archive_of(&[("equations.csv", b"1")]));
    let mut host = Host::answering(200, body);
    host.unpack_fault = Some(IoFault::StorageFull);
    let result = host.run(Mode::Debug, once());
    assert_eq!(
        result,
        Err(PipelineFailure {
            stage: Stage::Decompress,
            error: PipelineError::ExtractionError(ExtractionFault::Io(IoFault::StorageFull)),
        })
    );
}

#[test]
fn archive_is_handed_out_entry_by_entry() {
    let body = gzipped(&archive_of(&[("a.csv", b"1"), ("b.csv", b"22")]));
    let run = Pipeline { mode: Mode::Debug, policy: once(), phase: Phase::Load { length: 7 } };
    let step = run.step(Event::Loaded { bytes: body });
    assert_eq!(
        step.action,
        Action::Unpack {
            dir: b"data/debug".to_vec(),
            entries: vec![
                ArchiveEntry { name: b"a.csv".to_vec(), kind: EntryKind::File, data: b"1".to_vec() },
                ArchiveEntry {
                    name: b"b.csv".to_vec(),
                    kind: EntryKind::File,
                    data: b"22".to_vec(),
                },
            ],
        }
    );
    assert_eq!(step.next.phase, Phase::Unpack { length: 7, entries: 2 });
}
