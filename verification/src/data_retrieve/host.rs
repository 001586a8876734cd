//! What the pipeline expects of its host, and what follows from it.
//!
//! The host performs the actions of a run on a file system that the pipeline
//! never sees. `host_performs` states what each file operation may do to the
//! working directory and which events may report it. Under that reading the
//! laws below hold of every run: they are proved from the transitions of
//! `Pipeline::step_model`, which `Pipeline::step` computes.

use vstd::prelude::*;
use crate::data_retrieve::download::{
    dataset_filename,
    is_success,
    lemma_dataset_filename,
    working_directory,
    Mode,
};
use crate::data_retrieve::error::{PipelineError, PipelineFailure, Stage};
use crate::data_retrieve::pipeline::{
    ActionModel,
    EventModel,
    LogEvent,
    Phase,
    Pipeline,
};
use crate::data_retrieve::retry::FetchPolicy;
use crate::data_retrieve::writer::{lemma_temp_name_is_beside, temp_name};

verus! {

/// The part of the file system that a run touches.
pub struct World {
    /// The directories that exist, by path.
    pub dirs: Set<Seq<u8>>,
    /// The files of the working directory, by name, with their content.
    pub files: Map<Seq<u8>, Seq<u8>>,
}

/// The host performs `action` in the world `before`, reports `event` and
/// leaves the world `after`.
///
/// - Creating a directory that exists succeeds and changes nothing.
/// - A write creates or replaces the file with the bytes written so far,
///   and touches no other file, whether it ends early, fails or completes.
/// - A rename moves the content to the new name in one step, or does
///   nothing.
/// - A removal deletes the file, or does nothing.
/// - A read reports the content of the file and changes nothing.
///
/// Of the other actions nothing is assumed.
pub open spec fn host_performs(
    before: World,
    action: ActionModel,
    event: EventModel,
    after: World,
) -> bool {
    match action {
        ActionModel::CreateDir { dir } => match event {
            EventModel::Done => after.dirs == before.dirs.insert(dir) && after.files
                == before.files,
            EventModel::IoFailed(_) => !before.dirs.contains(dir) && after == before,
            _ => false,
        },
        ActionModel::WriteTemp { dir, name, content } => after.dirs == before.dirs && match event {
            EventModel::Written { count } => count <= content.len() && after.files
                == before.files.insert(name, content.take(count as int)),
            EventModel::IoFailed(_) => after.files.remove(name) == before.files.remove(name),
            _ => false,
        },
        ActionModel::Rename { dir, from, to } => match event {
            EventModel::Done => before.files.contains_key(from) && after.dirs == before.dirs
                && after.files == before.files.remove(from).insert(to, before.files[from]),
            EventModel::IoFailed(_) => after == before,
            _ => false,
        },
        ActionModel::RemoveTemp { dir, name } => match event {
            EventModel::Done => after.dirs == before.dirs && after.files == before.files.remove(
                name,
            ),
            EventModel::IoFailed(_) => after == before,
            _ => false,
        },
        ActionModel::Load { dir, name } => after == before && match event {
            EventModel::Loaded { bytes } => before.files.contains_key(name) && bytes
                == before.files[name],
            EventModel::IoFailed(_) => true,
            _ => false,
        },
        _ => true,
    }
}

// ---------------------------------------------------------------------------
// The directory initialiser
// ---------------------------------------------------------------------------

/// The directory initialiser is idempotent. Two runs in one mode ask for
/// the same directory, whatever their policies. Once the first has created
/// it, the second finds it, changes nothing and goes on to fetch.
pub proof fn lemma_directory_initialiser_is_idempotent(
    mode: Mode,
    first: FetchPolicy,
    second: FetchPolicy,
    world: World,
    created: World,
    event: EventModel,
    again: World,
)
    requires
        host_performs(world, Pipeline::start_model(mode, first).action, EventModel::Done, created),
        host_performs(created, Pipeline::start_model(mode, second).action, event, again),
    ensures
        Pipeline::start_model(mode, first).action == Pipeline::start_model(mode, second).action,
        Pipeline::start_model(mode, second).action == (ActionModel::CreateDir {
            dir: working_directory(mode),
        }),
        event == EventModel::Done,
        again.dirs == created.dirs,
        again.files == created.files,
        Pipeline::start_model(mode, second).next.step_model(event).action is Fetch,
{
    assert(created.dirs.contains(working_directory(mode)));
    assert(created.dirs.insert(working_directory(mode)) =~= created.dirs);
}

// ---------------------------------------------------------------------------
// The content writer
// ---------------------------------------------------------------------------

/// The name of the persisted archive.
pub open spec fn target_of(run: Pipeline) -> Seq<u8> {
    dataset_filename(run.mode)
}

/// The name of the temporary file that the archive is written to.
pub open spec fn temp_of(run: Pipeline) -> Seq<u8> {
    temp_name(dataset_filename(run.mode))
}

/// What holds while `content` is being persisted by `run`, which waits for
/// the outcome of `pending` in `world`; `initial` is the world in which the
/// write began.
///
/// Until the rename no file but the temporary one differs from the initial
/// world; the rename is asked for only when the temporary file holds the
/// whole content; after it the target holds the whole content and the
/// temporary file is gone.
pub open spec fn write_invariant(
    run: Pipeline,
    pending: ActionModel,
    world: World,
    initial: World,
    content: Seq<u8>,
) -> bool {
    let dir = working_directory(run.mode);
    let target = target_of(run);
    let temp = temp_of(run);
    match run.phase {
        Phase::WriteTemp { length } => {
            &&& pending == ActionModel::WriteTemp { dir, name: temp, content }
            &&& length == content.len()
            &&& world.files.remove(temp) == initial.files.remove(temp)
        },
        Phase::Rename { length } => {
            &&& pending == ActionModel::Rename { dir, from: temp, to: target }
            &&& length == content.len()
            &&& world.files.remove(temp) == initial.files.remove(temp)
            &&& world.files.contains_key(temp)
            &&& world.files[temp] == content
        },
        Phase::Cleanup { error } => {
            &&& pending == ActionModel::RemoveTemp { dir, name: temp }
            &&& world.files.remove(temp) == initial.files.remove(temp)
        },
        Phase::Load { length } => {
            &&& pending == ActionModel::Load { dir, name: target }
            &&& length == content.len()
            &&& world.files == initial.files.remove(temp).insert(target, content)
        },
        Phase::Finished(Err(failure)) => failure.stage == Stage::Write ==> world.files.remove(temp)
            == initial.files.remove(temp),
        _ => true,
    }
}

/// The write begins with the invariant: the step that takes a response with
/// a success status hands out exactly its body, for the temporary file.
pub proof fn lemma_write_begins(
    run: Pipeline,
    attempt: u32,
    status: u16,
    body: Seq<u8>,
    world: World,
)
    requires
        run.phase == (Phase::Fetch { attempt }),
        is_success(status),
        body.len() <= u64::MAX,
    ensures
        ({
            let step = run.step_model(EventModel::Response { status, body });
            write_invariant(step.next, step.action, world, world, body)
        }),
{
}

/// The write keeps the invariant, whatever the host reports.
pub proof fn lemma_write_keeps_invariant(
    run: Pipeline,
    pending: ActionModel,
    world: World,
    initial: World,
    content: Seq<u8>,
    event: EventModel,
    after: World,
)
    requires
        run.stage() == Some(Stage::Write),
        write_invariant(run, pending, world, initial, content),
        host_performs(world, pending, event, after),
    ensures
        ({
            let step = run.step_model(event);
            write_invariant(step.next, step.action, after, initial, content)
        }),
{
    let target = target_of(run);
    let temp = temp_of(run);
    lemma_dataset_filename(run.mode);
    lemma_temp_name_is_beside(target);
    let step = run.step_model(event);
    match run.phase {
        Phase::WriteTemp { length } => {
            match event {
                EventModel::Written { count } => {
                    assert(after.files.remove(temp) =~= world.files.remove(temp));
                    if count == length {
                        assert(content.take(count as int) =~= content);
                    }
                },
                _ => {},
            }
        },
        Phase::Rename { length } => {
            match event {
                EventModel::Done => {
                    assert(after.files =~= initial.files.remove(temp).insert(target, content)) by {
                        assert(world.files.remove(temp).insert(target, content)
                            =~= initial.files.remove(temp).insert(target, content));
                    }
                },
                _ => {},
            }
        },
        Phase::Cleanup { error } => {
            match event {
                EventModel::Done => {
                    assert(after.files.remove(temp) =~= world.files.remove(temp));
                },
                _ => {},
            }
        },
        _ => {},
    }
}

/// As many bytes are written as were fetched, or the write fails: a count
/// that differs from the length of the content is an `IntegrityError` of the
/// write stage, which the run surfaces once the temporary file has been dealt
/// with, whatever the outcome of the removal.
pub proof fn lemma_count_mismatch_is_integrity_error(
    run: Pipeline,
    length: u64,
    count: u64,
    removal: EventModel,
)
    requires
        run.phase == (Phase::WriteTemp { length }),
        count != length,
    ensures
        ({
            let written = run.step_model(EventModel::Written { count });
            let error = PipelineError::IntegrityError { expected: length, written: count };
            &&& written.action == ActionModel::RemoveTemp {
                dir: working_directory(run.mode),
                name: temp_of(run),
            }
            &&& written.next.step_model(removal).action == ActionModel::Finish(
                Err(PipelineFailure { stage: Stage::Write, error }),
            )
        }),
{
}

/// The rename is asked for only after a write of the whole content: from
/// the write of `length` bytes the run goes on to rename exactly when the
/// host reports `length` bytes written.
pub proof fn lemma_rename_needs_full_count(run: Pipeline, length: u64, event: EventModel)
    requires
        run.phase == (Phase::WriteTemp { length }),
    ensures
        run.step_model(event).action is Rename <==> event == (EventModel::Written {
            count: length,
        }),
{
}

/// A failed write leaves no trace: when the run has failed in the write
/// stage, every file but the temporary one is as it was before the write
/// began, so no partial file stands at the target; and where the removal of
/// the temporary file succeeded, that file is gone too.
pub proof fn lemma_failed_write_leaves_no_trace(
    run: Pipeline,
    pending: ActionModel,
    world: World,
    initial: World,
    content: Seq<u8>,
    event: EventModel,
    after: World,
)
    requires
        run.phase is Cleanup,
        write_invariant(run, pending, world, initial, content),
        host_performs(world, pending, event, after),
    ensures
        run.step_model(event).action == ActionModel::Finish(
            Err(PipelineFailure { stage: Stage::Write, error: run.phase->Cleanup_error }),
        ),
        after.files.contains_key(target_of(run)) == initial.files.contains_key(target_of(run)),
        after.files.contains_key(target_of(run)) ==> after.files[target_of(run)]
            == initial.files[target_of(run)],
        after.files.remove(temp_of(run)) == initial.files.remove(temp_of(run)),
        event == EventModel::Done ==> !after.files.contains_key(temp_of(run)),
{
    let target = target_of(run);
    let temp = temp_of(run);
    lemma_dataset_filename(run.mode);
    lemma_temp_name_is_beside(target);
    lemma_write_keeps_invariant(run, pending, world, initial, content, event, after);
    assert(after.files.remove(temp).contains_key(target) == after.files.contains_key(target));
    assert(initial.files.remove(temp).contains_key(target) == initial.files.contains_key(
        target,
    ));
    if after.files.contains_key(target) {
        assert(after.files.remove(temp)[target] == after.files[target]);
        assert(initial.files.remove(temp)[target] == initial.files[target]);
    }
}

/// Round trip: once the write stage is over and the run reads the persisted
/// archive, the bytes that the host reports are, byte for byte, the content
/// that was fetched; the temporary file is gone.
pub proof fn lemma_persisted_content_reads_back(
    run: Pipeline,
    pending: ActionModel,
    world: World,
    initial: World,
    content: Seq<u8>,
    bytes: Seq<u8>,
    after: World,
)
    requires
        run.phase is Load,
        write_invariant(run, pending, world, initial, content),
        host_performs(world, pending, EventModel::Loaded { bytes }, after),
    ensures
        bytes == content,
        world.files[target_of(run)] == content,
        run.phase->Load_length == content.len(),
        !world.files.contains_key(temp_of(run)),
{
    lemma_dataset_filename(run.mode);
    lemma_temp_name_is_beside(target_of(run));
}

// ---------------------------------------------------------------------------
// The run as a whole
// ---------------------------------------------------------------------------

/// The place of a stage in the order of a run.
pub open spec fn stage_order(stage: Option<Stage>) -> nat {
    match stage {
        Some(Stage::Directory) => 0,
        Some(Stage::Metadata) => 1,
        Some(Stage::Fetch) => 2,
        Some(Stage::Write) => 3,
        Some(Stage::Decompress) => 4,
        None => 5,
    }
}

/// A bound on the number of steps that a run has left.
pub open spec fn steps_left(run: Pipeline) -> nat {
    match run.phase {
        Phase::Directory => 6 + run.policy.attempts(),
        Phase::Fetch { attempt } => if attempt <= run.policy.attempts() {
            (5 + run.policy.attempts() - attempt) as nat
        } else {
            5
        },
        Phase::WriteTemp { .. } => 4,
        Phase::Rename { .. } => 3,
        Phase::Load { .. } => 2,
        Phase::Cleanup { .. } => 1,
        Phase::Unpack { .. } => 1,
        Phase::Finished(_) => 0,
    }
}

/// Every run ends, and the stages are taken in order: with each step the
/// bound on the steps left goes down, and the run stays in its stage or
/// moves to a later one. A fetch is attempted again only while the policy
/// allows it, so the attempts of a run are bounded by the policy.
pub proof fn lemma_run_advances(run: Pipeline, event: EventModel)
    requires
        !run.is_finished(),
    ensures
        steps_left(run.step_model(event).next) < steps_left(run),
        stage_order(run.step_model(event).next.stage()) >= stage_order(run.stage()),
        run.step_model(event).next.mode == run.mode,
        run.step_model(event).next.policy == run.policy,
        run.phase matches Phase::Fetch { attempt } ==> (run.step_model(event).next.phase
            matches Phase::Fetch { attempt: next } ==> next == attempt + 1 && next
            <= run.policy.attempts()),
{
}

/// A finished run stays finished and keeps its result.
pub proof fn lemma_finished_run_stays(run: Pipeline, event: EventModel)
    requires
        run.is_finished(),
    ensures
        run.step_model(event).next == run,
        run.step_model(event).action == ActionModel::Finish(run.phase->Finished_0),
{
}

/// No failure is swallowed: whenever a step ends the run with a failure, the
/// failure names the stage the run was in, carries the error, is kept as the
/// result of the run, and is logged with that step.
pub proof fn lemma_failure_is_surfaced(run: Pipeline, event: EventModel, failure: PipelineFailure)
    requires
        !run.is_finished(),
        run.step_model(event).action == ActionModel::Finish(Err(failure)),
    ensures
        Some(failure.stage) == run.stage(),
        run.step_model(event).next.phase == Phase::Finished(Err(failure)),
        run.step_model(event).log == seq![LogEvent::Failed(failure)],
{
}

/// An outcome that is not the success of the pending operation never lets
/// the run go on as if it were: the run ends with a failure, removes the
/// temporary file first, or, for a fetch, tries again.
pub proof fn lemma_failed_operation_stops_the_run(run: Pipeline, event: EventModel)
    requires
        !run.is_finished(),
        event is IoFailed || event is NetworkFailed,
    ensures
        ({
            let step = run.step_model(event);
            ||| step.action matches ActionModel::Finish(Err(_))
            ||| step.action is RemoveTemp && step.next.phase is Cleanup
            ||| run.phase is Fetch && step.next.phase is Fetch && step.log.len() == 1
                && step.log[0] is Retrying
        }),
{
}

/// Every stage transition is logged: a step that takes the run out of a
/// stage logs that the stage finished, or the failure that ended it; a step
/// that takes the run into a stage logs that the stage started.
pub proof fn lemma_stage_transitions_are_logged(run: Pipeline, event: EventModel)
    requires
        !run.is_finished(),
    ensures
        ({
            let step = run.step_model(event);
            &&& step.next.stage() != run.stage() ==> {
                ||| step.log.contains(LogEvent::StageFinished(run.stage()->Some_0))
                ||| step.next.phase matches Phase::Finished(Err(failure)) && step.log.contains(
                    LogEvent::Failed(failure),
                )
            }
            &&& step.next.stage() != run.stage() && step.next.stage() is Some ==> step.log.contains(
                LogEvent::StageStarted(step.next.stage()->Some_0),
            )
        }),
{
    let step = run.step_model(event);
    let last = step.log.len() - 1;
    if step.next.stage() != run.stage() {
        match step.next.phase {
            Phase::Finished(Err(failure)) => {
                assert(step.log[0] == LogEvent::Failed(failure));
            },
            Phase::Finished(Ok(_)) => {
                assert(step.log[0] == LogEvent::StageFinished(Stage::Decompress));
            },
            Phase::Fetch { .. } => {
                assert(step.log[0] == LogEvent::StageFinished(Stage::Directory));
                assert(step.log[last] == LogEvent::StageStarted(Stage::Fetch));
            },
            Phase::WriteTemp { .. } => {
                assert(step.log[last - 1] == LogEvent::StageFinished(Stage::Fetch));
                assert(step.log[last] == LogEvent::StageStarted(Stage::Write));
            },
            _ => {
                assert(step.log[0] == LogEvent::StageFinished(Stage::Write));
                assert(step.log[last] == LogEvent::StageStarted(Stage::Decompress));
            },
        }
    }
}

/// Nothing is fetched before the working directory is ready: a step asks
/// for a fetch only when the directory has just been created or an earlier
/// attempt of the same run has failed.
pub proof fn lemma_fetch_follows_directory(run: Pipeline, event: EventModel)
    requires
        run.step_model(event).action is Fetch,
    ensures
        (run.phase is Directory && event == EventModel::Done) || run.phase is Fetch,
{
}

/// Nothing but a complete response is written: a step asks for the write
/// only on a response with a success status, and then hands out its body
/// unchanged.
pub proof fn lemma_only_fetched_content_is_written(run: Pipeline, event: EventModel)
    requires
        run.step_model(event).action is WriteTemp,
    ensures
        run.phase is Fetch,
        event matches EventModel::Response { status, body } && is_success(status)
            && run.step_model(event).action->WriteTemp_content == body,
{
}

} // verus!
