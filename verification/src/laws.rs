//! What holds of every transition of the sequence, whatever the stage and
//! whatever the event.

use crate::database::sql_client_call;
use crate::delegate::delegate_call;
use crate::environment::{credentials_of, CredentialsView};
use crate::keys::{declared_keys, Variant};
use crate::outcome::{FatalView, OutcomeView, Program};
use crate::paths::{Location, Script};
use crate::pipeline::step;
use crate::protocol::{ActionView, EventView};
use crate::state::{DatabaseStage, EnvironmentStage, PipelineView, StageView};
use crate::template::template;
use vstd::prelude::*;

verus! {

/// How far a stage is along the sequence.
pub open spec fn position(stage: StageView) -> nat {
    match stage {
        StageView::Environment(EnvironmentStage::ProbingDir) => 0,
        StageView::Environment(EnvironmentStage::CreatingDir) => 1,
        StageView::Environment(EnvironmentStage::ProbingFile) => 2,
        StageView::Environment(EnvironmentStage::WritingFile) => 3,
        StageView::Loading => 4,
        StageView::Database(DatabaseStage::ProbingDataDir, _) => 5,
        StageView::Database(DatabaseStage::CreatingDataDir, _) => 6,
        StageView::Database(DatabaseStage::RunningInit, _) => 7,
        StageView::Database(DatabaseStage::RunningSeed, _) => 8,
        StageView::Delegate => 9,
        StageView::Finished(_) => 10,
    }
}

/// Whether an action is the one whose answer a stage waits for.
pub open spec fn awaited(stage: StageView, action: ActionView) -> bool {
    match stage {
        StageView::Environment(EnvironmentStage::ProbingDir) => action == ActionView::Probe(
            Location::ConfigDir,
        ),
        StageView::Environment(EnvironmentStage::CreatingDir) => action == ActionView::CreateDir(
            Location::ConfigDir,
        ),
        StageView::Environment(EnvironmentStage::ProbingFile) => action == ActionView::Probe(
            Location::EnvFile,
        ),
        StageView::Environment(EnvironmentStage::WritingFile) => action matches ActionView::WriteFile(
            Location::EnvFile,
            _,
        ),
        StageView::Loading => action == ActionView::LoadEnv(Location::EnvFile),
        StageView::Database(DatabaseStage::ProbingDataDir, _) => action == ActionView::Probe(
            Location::DataDir,
        ),
        StageView::Database(DatabaseStage::CreatingDataDir, _) => action == ActionView::CreateDir(
            Location::DataDir,
        ),
        StageView::Database(DatabaseStage::RunningInit, credentials) => action
            == ActionView::Spawn(sql_client_call(credentials, Script::Init)),
        StageView::Database(DatabaseStage::RunningSeed, credentials) => action
            == ActionView::Spawn(sql_client_call(credentials, Script::Seed)),
        StageView::Delegate => action == ActionView::Spawn(delegate_call()),
        StageView::Finished(outcome) => action == ActionView::Exit(outcome),
    }
}

/// Every answer of the sequence asks for the action that its new stage waits
/// for, and the variant of a run never changes.
pub proof fn answer_fits_stage(p: PipelineView, event: EventView)
    ensures
        awaited(step(p, event).0.stage, step(p, event).1.action),
        step(p, event).0.variant == p.variant,
{
}

/// Every event takes a run that is not over to a later stage: there is no
/// cycle, no retry and no way back. A run that is over stays as it is.
pub proof fn sequence_moves_forward(p: PipelineView, event: EventView)
    ensures
        !(p.stage is Finished) ==> position(step(p, event).0.stage) > position(p.stage),
        p.stage is Finished ==> step(p, event).0 == p,
{
}

/// The minimal variant never enters the database stage.
pub proof fn minimal_variant_skips_database(p: PipelineView, event: EventView)
    requires
        p.variant == Variant::Minimal,
        !(p.stage is Database),
    ensures
        !(step(p, event).0.stage is Database),
{
}

/// The two SQL scripts are different files.
pub proof fn scripts_differ()
    ensures
        Script::Init.spec_path() != Script::Seed.spec_path(),
{
    reveal_strlit("migrations/init.sql");
    reveal_strlit("migrations/seed.sql");
    assert(Script::Init.spec_path()[11] == 'i');
    assert(Script::Seed.spec_path()[11] == 's');
}

/// The environment file is written only in answer to the news that it is
/// missing, and what is written is the template of the run's variant.
pub proof fn writes_only_a_missing_file(p: PipelineView, event: EventView)
    requires
        step(p, event).1.action is WriteFile,
    ensures
        p.stage == StageView::Environment(EnvironmentStage::ProbingFile),
        event == EventView::Present(false),
        step(p, event).1.action == ActionView::WriteFile(
            Location::EnvFile,
            template(declared_keys(p.variant)),
        ),
{
}

/// The run halts only once the environment file has been written.
pub proof fn halts_only_after_writing(p: PipelineView, event: EventView)
    requires
        !(p.stage is Finished),
        step(p, event).1.action == ActionView::Exit(OutcomeView::Halted),
    ensures
        p.stage == StageView::Environment(EnvironmentStage::WritingFile),
        event == EventView::Done,
{
}

/// The environment is loaded only in answer to the news that the environment
/// file exists.
pub proof fn loads_only_a_present_file(p: PipelineView, event: EventView)
    requires
        step(p, event).1.action is LoadEnv,
    ensures
        p.stage == StageView::Environment(EnvironmentStage::ProbingFile),
        event == EventView::Present(true),
{
}

/// The database stage is entered only from the loader, in the database
/// variant, with the credentials that the loaded environment gives.
pub proof fn database_stage_needs_credentials(p: PipelineView, event: EventView)
    requires
        !(p.stage is Database),
        step(p, event).0.stage is Database,
    ensures
        p.variant == Variant::Database,
        p.stage == StageView::Loading,
        event matches EventView::Loaded(env) && credentials_of(env) == Ok::<
            CredentialsView,
            FatalView,
        >(step(p, event).0.stage->Database_1),
{
}

/// The credentials of a run never change: what the database stage holds is
/// what the loaded environment gave.
pub proof fn credentials_never_change(p: PipelineView, event: EventView)
    requires
        p.stage is Database,
        step(p, event).0.stage is Database,
    ensures
        step(p, event).0.stage->Database_1 == p.stage->Database_1,
{
}

/// The SQL client is started only from within the database stage, on one of
/// the two scripts, with the credentials that the stage holds.
pub proof fn sql_client_runs_in_database_stage(p: PipelineView, event: EventView)
    requires
        step(p, event).1.action matches ActionView::Spawn(call) && call.program == Program::Psql,
    ensures
        p.stage matches StageView::Database(_, credentials) && (step(p, event).1.action
            == ActionView::Spawn(sql_client_call(credentials, Script::Init)) || step(
            p,
            event,
        ).1.action == ActionView::Spawn(sql_client_call(credentials, Script::Seed))),
{
}

/// The seed script is run only in answer to the success of the schema
/// script, and with the same credentials.
pub proof fn seed_only_after_schema(
    p: PipelineView,
    event: EventView,
    credentials: CredentialsView,
)
    requires
        step(p, event).1.action == ActionView::Spawn(sql_client_call(credentials, Script::Seed)),
    ensures
        p.stage == StageView::Database(DatabaseStage::RunningInit, credentials),
        event == EventView::Exited(true),
{
    scripts_differ();
    let call = sql_client_call(credentials, Script::Seed);
    if p.stage is Database {
        let made = step(p, event).1.action->Spawn_0;
        assert(made.args[9] == call.args[9]);
        assert(made.args[1] == call.args[1] && made.args[3] == call.args[3]);
        assert(made.args[5] == call.args[5] && made.args[7] == call.args[7]);
        assert(made.env[0] == call.env[0]);
    }
}

/// A run completes only in answer to the exit of the delegate script.
pub proof fn completes_only_after_delegate(p: PipelineView, event: EventView)
    requires
        !(p.stage is Finished),
        step(p, event).1.action == ActionView::Exit(OutcomeView::Completed),
    ensures
        p.stage is Delegate,
        event is Exited,
{
}

} // verus!
