//! What holds of every run, whatever the disk holds and whatever the outside
//! reports.

use crate::database::sql_client_call;
use crate::delegate::delegate_call;
use crate::environment::credentials_of;
use crate::keys::{declared_keys, Key, Variant};
use crate::laws::{position, scripts_differ};
use crate::outcome::{FatalView, Notice, OutcomeView, Program};
use crate::paths::{Location, Script};
use crate::protocol::{ActionView, EventView, StepView};
use crate::state::{DatabaseStage, EnvironmentStage, StageView};
use crate::template::template;
use crate::world::{exit_ends_the_run, fresh, in_step, play, turn, Disk, World};
use vstd::prelude::*;

verus! {

/// Whether all that has been done is work on the disk.
pub open spec fn only_disk_work(w: World) -> bool {
    forall|i: int| 0 <= i < w.done.len() ==> Disk::serves(#[trigger] w.done[i])
}

/// Whether no program has been started.
pub open spec fn started_nothing(w: World) -> bool {
    forall|i: int| 0 <= i < w.done.len() ==> !(#[trigger] w.done[i] is Spawn)
}

/// A first run: where the configuration directory is missing, the run
/// creates it, writes the environment file with every declared variable in
/// declared order and its placeholder, and halts. It does nothing else: it
/// does not load the environment and starts no program.
pub proof fn first_run_generates_and_halts(variant: Variant, disk: Disk, replies: Seq<EventView>)
    requires
        disk.consistent(),
        !disk.config_dir,
        replies.len() >= 4,
    ensures
        ({
            let end = play(fresh(variant, disk), replies);
            let text = template(declared_keys(variant));
            &&& end.disk == Disk { config_dir: true, env_file: Some(text), data_dir: disk.data_dir }
            &&& end.pipeline.stage == StageView::Finished(OutcomeView::Halted)
            &&& end.pending == StepView { notice: None, action: ActionView::Exit(OutcomeView::Halted) }
            &&& end.done == seq![
                ActionView::Probe(Location::ConfigDir),
                ActionView::CreateDir(Location::ConfigDir),
                ActionView::Probe(Location::EnvFile),
                ActionView::WriteFile(Location::EnvFile, text),
            ]
        }),
{
    let w0 = fresh(variant, disk);
    let r0 = replies;
    let w1 = turn(w0, r0[0]);
    let r1 = r0.drop_first();
    let w2 = turn(w1, r1[0]);
    let r2 = r1.drop_first();
    let w3 = turn(w2, r2[0]);
    let r3 = r2.drop_first();
    let w4 = turn(w3, r3[0]);
    let r4 = r3.drop_first();
    assert(play(w0, r0) == play(w1, r1));
    assert(play(w1, r1) == play(w2, r2));
    assert(play(w2, r2) == play(w3, r3));
    assert(play(w3, r3) == play(w4, r4));
    exit_ends_the_run(w4, r4);
    let text = template(declared_keys(variant));
    assert(w4.done =~= seq![
        ActionView::Probe(Location::ConfigDir),
        ActionView::CreateDir(Location::ConfigDir),
        ActionView::Probe(Location::EnvFile),
        ActionView::WriteFile(Location::EnvFile, text),
    ]);
}

/// Whether a world is on its way to a halt, or has halted, as it should: the
/// configuration directory exists before the file is written, what is
/// written is the variant's template, and nothing but disk work is done.
spec fn halts_in_order(w: World) -> bool {
    let stage = w.pipeline.stage;
    let text = template(declared_keys(w.pipeline.variant));
    &&& in_step(w)
    &&& position(stage) <= 3 ==> only_disk_work(w)
    &&& position(stage) == 2 || position(stage) == 3 ==> w.disk.config_dir
    &&& position(stage) == 3 ==> w.pending.action == ActionView::WriteFile(Location::EnvFile, text)
    &&& stage == StageView::Finished(OutcomeView::Halted) ==> {
        &&& w.disk.config_dir
        &&& w.disk.env_file == Some(text)
        &&& only_disk_work(w)
    }
}

/// Turns keep a run on its way to a halt in order.
proof fn turns_halt_in_order(w: World, replies: Seq<EventView>)
    requires
        halts_in_order(w),
    ensures
        halts_in_order(play(w, replies)),
        play(w, replies).pipeline.variant == w.pipeline.variant,
    decreases replies.len(),
{
    if replies.len() > 0 {
        let next = turn(w, replies[0]);
        turns_halt_in_order(next, replies.drop_first());
    }
}

/// Every run that halts has generated the environment file: the
/// configuration directory and the file exist, the file holds the variant's
/// template, and the run has done nothing but work on the disk.
pub proof fn halted_run_generated_the_file(variant: Variant, disk: Disk, replies: Seq<EventView>)
    ensures
        ({
            let end = play(fresh(variant, disk), replies);
            end.pipeline.stage == StageView::Finished(OutcomeView::Halted) ==> {
                &&& end.disk.config_dir
                &&& end.disk.env_file == Some(template(declared_keys(variant)))
                &&& only_disk_work(end)
            }
        }),
{
    turns_halt_in_order(fresh(variant, disk), replies);
}

/// Whether a world is past the point at which the provisioner could still
/// write: the sequence is neither creating the configuration directory nor
/// writing the environment file.
spec fn writes_nothing(w: World) -> bool {
    &&& in_step(w)
    &&& w.pipeline.stage != StageView::Environment(EnvironmentStage::CreatingDir)
    &&& w.pipeline.stage != StageView::Environment(EnvironmentStage::WritingFile)
}

/// Where the environment file exists, no turn changes it or the
/// configuration directory.
proof fn turns_leave_file_alone(w: World, text: Seq<char>, replies: Seq<EventView>)
    requires
        writes_nothing(w),
        w.disk.config_dir,
        w.disk.env_file == Some(text),
    ensures
        writes_nothing(play(w, replies)),
        play(w, replies).disk.config_dir,
        play(w, replies).disk.env_file == Some(text),
    decreases replies.len(),
{
    if replies.len() > 0 {
        let next = turn(w, replies[0]);
        turns_leave_file_alone(next, text, replies.drop_first());
    }
}

/// Where the environment file exists, the provisioner is a no-op: at no
/// point of the run does the file hold anything but what it held before, and
/// after the two probes the run goes on to load it.
pub proof fn present_file_is_left_alone(
    variant: Variant,
    disk: Disk,
    text: Seq<char>,
    replies: Seq<EventView>,
)
    requires
        disk.consistent(),
        disk.env_file == Some(text),
    ensures
        play(fresh(variant, disk), replies).disk.env_file == Some(text),
        replies.len() == 2 ==> ({
            let then = play(fresh(variant, disk), replies);
            &&& then.disk == disk
            &&& then.pipeline.stage == StageView::Loading
            &&& then.pending == StepView {
                notice: None,
                action: ActionView::LoadEnv(Location::EnvFile),
            }
            &&& then.done == seq![
                ActionView::Probe(Location::ConfigDir),
                ActionView::Probe(Location::EnvFile),
            ]
        }),
{
    let w0 = fresh(variant, disk);
    turns_leave_file_alone(w0, text, replies);
    if replies.len() == 2 {
        let w1 = turn(w0, replies[0]);
        let r1 = replies.drop_first();
        let w2 = turn(w1, r1[0]);
        let r2 = r1.drop_first();
        assert(play(w0, replies) == play(w1, r1));
        assert(play(w1, r1) == play(w2, r2));
        assert(w2.done =~= seq![
            ActionView::Probe(Location::ConfigDir),
            ActionView::Probe(Location::EnvFile),
        ]);
    }
}

/// Provisioning is idempotent: of two runs in a row on a disk that holds the
/// environment file, each leaves the file exactly as it found it.
pub proof fn provisioning_is_idempotent(
    variant: Variant,
    disk: Disk,
    first: Seq<EventView>,
    second: Seq<EventView>,
)
    requires
        disk.consistent(),
        disk.env_file is Some,
    ensures
        ({
            let once = play(fresh(variant, disk), first);
            let twice = play(fresh(variant, once.disk), second);
            &&& once.disk.env_file == disk.env_file
            &&& twice.disk.env_file == disk.env_file
        }),
{
    let text = disk.env_file->0;
    let w0 = fresh(variant, disk);
    turns_leave_file_alone(w0, text, first);
    let once = play(w0, first);
    turns_leave_file_alone(fresh(variant, once.disk), text, second);
}

/// Whether the directories that the pending work relies on exist: the
/// configuration directory where the environment file is probed or written,
/// the data directory where the SQL client is at work.
spec fn directories_in_place(w: World) -> bool {
    &&& in_step(w)
    &&& w.pipeline.stage matches StageView::Environment(at) ==> (at
        == EnvironmentStage::ProbingFile || at == EnvironmentStage::WritingFile)
        ==> w.disk.config_dir
    &&& w.pipeline.stage matches StageView::Database(at, _) ==> (at == DatabaseStage::RunningInit
        || at == DatabaseStage::RunningSeed) ==> w.disk.data_dir
}

/// Turns keep the directories in place.
proof fn turns_keep_directories(w: World, replies: Seq<EventView>)
    requires
        directories_in_place(w),
    ensures
        directories_in_place(play(w, replies)),
    decreases replies.len(),
{
    if replies.len() > 0 {
        let next = turn(w, replies[0]);
        turns_keep_directories(next, replies.drop_first());
    }
}

/// At every point of every run: where the environment file is about to be
/// written, the configuration directory exists, and where the SQL client is
/// about to be started, the data directory exists.
pub proof fn directories_come_first(variant: Variant, disk: Disk, replies: Seq<EventView>)
    ensures
        ({
            let now = play(fresh(variant, disk), replies);
            &&& now.pending.action is WriteFile ==> now.disk.config_dir
            &&& (now.pending.action matches ActionView::Spawn(call) && call.program
                == Program::Psql) ==> now.disk.data_dir
        }),
{
    let start = fresh(variant, disk);
    turns_keep_directories(start, replies);
}

/// Whether the environment leaves a database variable undefined that has no
/// fallback.
pub open spec fn lacks_credential(env: Map<Seq<char>, Seq<char>>) -> bool {
    ||| !env.contains_key(Key::DbUser.spec_name())
    ||| !env.contains_key(Key::DbPassword.spec_name())
    ||| !env.contains_key(Key::DbName.spec_name())
}

/// In the database variant, an environment file that is there but leaves a
/// required database variable undefined fails the run at loading: the run
/// ends with the name of that variable, and no program is ever started.
pub proof fn missing_credential_starts_nothing(
    disk: Disk,
    env: Map<Seq<char>, Seq<char>>,
    replies: Seq<EventView>,
)
    requires
        disk.consistent(),
        disk.env_file is Some,
        replies.len() >= 3,
        replies[2] == EventView::Loaded(env),
        lacks_credential(env),
    ensures
        ({
            let end = play(fresh(Variant::Database, disk), replies);
            &&& credentials_of(env) matches Err(FatalView::MissingKey(key))
            &&& !env.contains_key(key.spec_name())
            &&& end.pipeline.stage == StageView::Finished(
                OutcomeView::Failed(FatalView::MissingKey(key)),
            )
            &&& end.pending.action == ActionView::Exit(
                OutcomeView::Failed(FatalView::MissingKey(key)),
            )
            &&& end.disk == disk
            &&& end.done == seq![
                ActionView::Probe(Location::ConfigDir),
                ActionView::Probe(Location::EnvFile),
                ActionView::LoadEnv(Location::EnvFile),
            ]
        }),
{
    let w0 = fresh(Variant::Database, disk);
    let r0 = replies;
    let w1 = turn(w0, r0[0]);
    let r1 = r0.drop_first();
    let w2 = turn(w1, r1[0]);
    let r2 = r1.drop_first();
    let w3 = turn(w2, r2[0]);
    let r3 = r2.drop_first();
    assert(play(w0, r0) == play(w1, r1));
    assert(play(w1, r1) == play(w2, r2));
    assert(play(w2, r2) == play(w3, r3));
    assert(r2[0] == replies[2]);
    exit_ends_the_run(w3, r3);
    assert(w3.done =~= seq![
        ActionView::Probe(Location::ConfigDir),
        ActionView::Probe(Location::EnvFile),
        ActionView::LoadEnv(Location::EnvFile),
    ]);
}

/// Whether an outcome is one that a run can only reach before it starts its
/// first program: the intended halt, a file or directory that the operating
/// system refused, an environment file that did not load, a variable that is
/// missing.
pub open spec fn ends_early(outcome: OutcomeView) -> bool {
    match outcome {
        OutcomeView::Halted => true,
        OutcomeView::Failed(FatalView::Io(_)) => true,
        OutcomeView::Failed(FatalView::EnvLoad(_)) => true,
        OutcomeView::Failed(FatalView::MissingKey(_)) => true,
        _ => false,
    }
}

/// Whether a world that is not yet past the first program, or has ended
/// early, has started nothing.
spec fn starts_nothing_early(w: World) -> bool {
    &&& in_step(w)
    &&& (position(w.pipeline.stage) <= 7 || (w.pipeline.stage matches StageView::Finished(outcome)
        && ends_early(outcome))) ==> started_nothing(w)
}

/// Turns keep to it that nothing is started early.
proof fn turns_start_nothing_early(w: World, replies: Seq<EventView>)
    requires
        starts_nothing_early(w),
    ensures
        starts_nothing_early(play(w, replies)),
    decreases replies.len(),
{
    if replies.len() > 0 {
        let next = turn(w, replies[0]);
        turns_start_nothing_early(next, replies.drop_first());
    }
}

/// A run that ends early has started no program: neither the SQL client nor
/// the delegate script runs after a halt, after a refusal by the operating
/// system, after a failed load or without a credential.
pub proof fn early_end_starts_nothing(variant: Variant, disk: Disk, replies: Seq<EventView>)
    ensures
        ({
            let end = play(fresh(variant, disk), replies);
            (end.pipeline.stage matches StageView::Finished(outcome) && ends_early(outcome))
                ==> started_nothing(end)
        }),
{
    turns_start_nothing_early(fresh(variant, disk), replies);
}

/// Where the schema script does not succeed, the run ends there and names
/// the script: the seed script is never attempted, nor the delegate script.
pub proof fn failed_schema_leaves_seed_out(w: World, replies: Seq<EventView>)
    requires
        w.pipeline.stage is Database,
        w.pipeline.stage->Database_0 == DatabaseStage::RunningInit,
        in_step(w),
        replies.len() >= 1,
        replies[0] == EventView::Exited(false),
    ensures
        ({
            let end = play(w, replies);
            let outcome = OutcomeView::Failed(FatalView::SqlFailed(Script::Init));
            &&& end.pipeline.stage == StageView::Finished(outcome)
            &&& end.pending == StepView { notice: None, action: ActionView::Exit(outcome) }
            &&& end.done == w.done.push(
                ActionView::Spawn(sql_client_call(w.pipeline.stage->Database_1, Script::Init)),
            )
        }),
{
    let next = turn(w, replies[0]);
    assert(play(w, replies) == play(next, replies.drop_first()));
    exit_ends_the_run(next, replies.drop_first());
}

/// Whether the SQL client on the schema script is the only program started.
pub open spec fn started_schema_only(w: World) -> bool {
    forall|i: int|
        0 <= i < w.done.len() ==> ((#[trigger] w.done[i]) matches ActionView::Spawn(call)
            ==> call.program == Program::Psql && call.args[9] == Script::Init.spec_path())
}

/// Whether a world in which the schema script has failed has started nothing
/// but the schema script.
spec fn schema_failure_is_last(w: World) -> bool {
    &&& starts_nothing_early(w)
    &&& w.pipeline.stage == StageView::Finished(
        OutcomeView::Failed(FatalView::SqlFailed(Script::Init)),
    ) ==> started_schema_only(w)
}

/// Turns keep to it that a failed schema script is the last program started.
proof fn turns_keep_schema_failure_last(w: World, replies: Seq<EventView>)
    requires
        schema_failure_is_last(w),
    ensures
        schema_failure_is_last(play(w, replies)),
    decreases replies.len(),
{
    if replies.len() > 0 {
        let next = turn(w, replies[0]);
        turns_keep_schema_failure_last(next, replies.drop_first());
    }
}

/// Every run that ends on a failed schema script has started the SQL client
/// on that script and nothing else: neither the seed script nor the delegate
/// script was attempted.
pub proof fn failed_schema_run_started_nothing_else(
    variant: Variant,
    disk: Disk,
    replies: Seq<EventView>,
)
    ensures
        ({
            let end = play(fresh(variant, disk), replies);
            end.pipeline.stage == StageView::Finished(
                OutcomeView::Failed(FatalView::SqlFailed(Script::Init)),
            ) ==> started_schema_only(end)
        }),
        Script::Init.spec_path() != Script::Seed.spec_path(),
{
    turns_keep_schema_failure_last(fresh(variant, disk), replies);
    scripts_differ();
}

/// Whether a world has stayed clear of the database: the run is not in the
/// database stage and the SQL client has not been started.
spec fn clear_of_database(w: World) -> bool {
    &&& in_step(w)
    &&& w.pipeline.variant == Variant::Minimal
    &&& !(w.pipeline.stage is Database)
    &&& forall|i: int|
        0 <= i < w.done.len() ==> !(#[trigger] w.done[i] matches ActionView::Spawn(call)
            && call.program == Program::Psql)
}

/// Turns of a minimal run stay clear of the database.
proof fn turns_stay_clear_of_database(w: World, replies: Seq<EventView>)
    requires
        clear_of_database(w),
    ensures
        clear_of_database(play(w, replies)),
    decreases replies.len(),
{
    if replies.len() > 0 {
        let next = turn(w, replies[0]);
        turns_stay_clear_of_database(next, replies.drop_first());
    }
}

/// The minimal variant never starts the SQL client.
pub proof fn minimal_run_starts_no_sql_client(disk: Disk, replies: Seq<EventView>)
    ensures
        ({
            let now = play(fresh(Variant::Minimal, disk), replies);
            forall|i: int|
                0 <= i < now.done.len() ==> !(#[trigger] now.done[i] matches ActionView::Spawn(
                    call,
                ) && call.program == Program::Psql)
        }),
{
    turns_stay_clear_of_database(fresh(Variant::Minimal, disk), replies);
}

/// Where the delegate script exits without success, the run still
/// completes: it says that the script failed, then prints the message of a
/// completed run and exits with status zero.
pub proof fn delegate_failure_still_completes(w: World, replies: Seq<EventView>)
    requires
        w.pipeline.stage is Delegate,
        in_step(w),
        replies.len() >= 1,
        replies[0] == EventView::Exited(false),
    ensures
        ({
            let end = play(w, replies);
            &&& end.pipeline.stage == StageView::Finished(OutcomeView::Completed)
            &&& end.pending == StepView {
                notice: Some(Notice::DelegateFailed),
                action: ActionView::Exit(OutcomeView::Completed),
            }
            &&& end.done == w.done.push(ActionView::Spawn(delegate_call()))
        }),
        OutcomeView::Completed.exit_code() == 0,
        OutcomeView::Completed.message() == "All setup steps completed successfully."@,
{
    let next = turn(w, replies[0]);
    assert(play(w, replies) == play(next, replies.drop_first()));
    exit_ends_the_run(next, replies.drop_first());
}

} // verus!
