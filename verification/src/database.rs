//! The database provisioner: creates the schema and seeds it, by running the
//! SQL client on two scripts, one after the other.
//!
//! The seed script runs only after the schema script has succeeded. Nothing
//! is retried and nothing is rolled back.

use crate::command::{Invocation, InvocationView};
use crate::delegate::{run_delegate, to_delegate};
use crate::environment::{CredentialsView, DatabaseCredentials};
use crate::keys::Variant;
use crate::outcome::{Fatal, FatalView, Notice, Outcome, OutcomeView, Program};
use crate::paths::{Location, Script};
use crate::protocol::{Action, ActionView, Event, EventView, Step, StepView};
use crate::state::{
    end, finish, go, proceed, DatabaseStage, Pipeline, PipelineView, Stage, StageView,
};
use vstd::prelude::*;
use vstd::string::StringExecFns;

verus! {

/// The name of the variable through which the SQL client takes the password.
pub open spec fn spec_password_variable() -> Seq<char> {
    "PGPASSWORD"@
}

/// The call of the SQL client on one script: user, host, port and database
/// as arguments, each behind its flag, then the script; the password in a
/// variable of the client's environment.
pub open spec fn sql_client_call(credentials: CredentialsView, script: Script) -> InvocationView {
    InvocationView {
        program: Program::Psql,
        args: seq![
            "-U"@,
            credentials.user,
            "-h"@,
            credentials.host,
            "-p"@,
            credentials.port,
            "-d"@,
            credentials.name,
            "-f"@,
            script.spec_path(),
        ],
        env: seq![(spec_password_variable(), credentials.password)],
    }
}

/// The argument list of the SQL client is the same whatever the password is:
/// the password travels in the environment alone.
pub proof fn password_is_no_argument(a: CredentialsView, b: CredentialsView, script: Script)
    requires
        a.user == b.user,
        a.host == b.host,
        a.port == b.port,
        a.name == b.name,
    ensures
        sql_client_call(a, script).args == sql_client_call(b, script).args,
        sql_client_call(a, script).env == seq![(spec_password_variable(), a.password)],
{
}

/// Builds the call of the SQL client on one script.
pub fn psql_command(credentials: &DatabaseCredentials, script: Script) -> (call: Invocation)
    ensures
        call@ == sql_client_call(credentials@, script),
{
    let mut args: Vec<String> = Vec::new();
    args.push(String::from_str("-U"));
    args.push(credentials.user.clone());
    args.push(String::from_str("-h"));
    args.push(credentials.host.clone());
    args.push(String::from_str("-p"));
    args.push(credentials.port.clone());
    args.push(String::from_str("-d"));
    args.push(credentials.name.clone());
    args.push(String::from_str("-f"));
    args.push(String::from_str(script.path()));
    let mut env: Vec<(String, String)> = Vec::new();
    env.push((String::from_str("PGPASSWORD"), credentials.password.clone()));
    let call = Invocation { program: Program::Psql, args, env };
    proof {
        let want = sql_client_call(credentials@, script);
        assert(call@.args =~= want.args);
        assert(call@.env =~= want.env);
    }
    call
}

/// The credentials are known: ask whether the data directory exists.
pub open spec fn to_database(variant: Variant, credentials: CredentialsView) -> (
    PipelineView,
    StepView,
) {
    proceed(
        variant,
        StageView::Database(DatabaseStage::ProbingDataDir, credentials),
        None,
        ActionView::Probe(Location::DataDir),
    )
}

/// Asks whether the data directory exists.
pub fn enter_database(variant: Variant, credentials: DatabaseCredentials) -> (next: (
    Pipeline,
    Step,
))
    ensures
        (next.0@, next.1@) == to_database(variant, credentials@),
{
    go(
        variant,
        Stage::Database(DatabaseStage::ProbingDataDir, credentials),
        None,
        Action::Probe(Location::DataDir),
    )
}

/// The data directory is there: run the schema script.
pub open spec fn to_init(variant: Variant, credentials: CredentialsView) -> (
    PipelineView,
    StepView,
) {
    proceed(
        variant,
        StageView::Database(DatabaseStage::RunningInit, credentials),
        Some(Notice::ConnectingToDatabase),
        ActionView::Spawn(sql_client_call(credentials, Script::Init)),
    )
}

/// What the provisioner makes of an event.
///
/// - The data directory is missing: create it. Then, or if it was there, run
///   the schema script.
/// - The schema script succeeded: run the seed script.
/// - The seed script succeeded: go on to the delegate script.
/// - A script did not succeed: fail, naming the script.
/// - The operating system refused to create the directory or to start the
///   client: fail with its words.
/// - Anything else does not answer what was asked.
pub open spec fn database_step(
    variant: Variant,
    at: DatabaseStage,
    credentials: CredentialsView,
    event: EventView,
) -> (PipelineView, StepView) {
    match (at, event) {
        (DatabaseStage::ProbingDataDir, EventView::Failed(reason)) => finish(
            variant,
            None,
            OutcomeView::Failed(FatalView::Io(reason)),
        ),
        (DatabaseStage::CreatingDataDir, EventView::Failed(reason)) => finish(
            variant,
            None,
            OutcomeView::Failed(FatalView::Io(reason)),
        ),
        (_, EventView::Failed(reason)) => finish(
            variant,
            None,
            OutcomeView::Failed(FatalView::Launch(Program::Psql, reason)),
        ),
        (DatabaseStage::ProbingDataDir, EventView::Present(true)) => to_init(variant, credentials),
        (DatabaseStage::ProbingDataDir, EventView::Present(false)) => proceed(
            variant,
            StageView::Database(DatabaseStage::CreatingDataDir, credentials),
            Some(Notice::CreatingDataDir),
            ActionView::CreateDir(Location::DataDir),
        ),
        (DatabaseStage::CreatingDataDir, EventView::Done) => to_init(variant, credentials),
        (DatabaseStage::RunningInit, EventView::Exited(true)) => proceed(
            variant,
            StageView::Database(DatabaseStage::RunningSeed, credentials),
            Some(Notice::SchemaCreated),
            ActionView::Spawn(sql_client_call(credentials, Script::Seed)),
        ),
        (DatabaseStage::RunningInit, EventView::Exited(false)) => finish(
            variant,
            None,
            OutcomeView::Failed(FatalView::SqlFailed(Script::Init)),
        ),
        (DatabaseStage::RunningSeed, EventView::Exited(true)) => to_delegate(
            variant,
            Some(Notice::DatabaseSeeded),
        ),
        (DatabaseStage::RunningSeed, EventView::Exited(false)) => finish(
            variant,
            None,
            OutcomeView::Failed(FatalView::SqlFailed(Script::Seed)),
        ),
        _ => finish(variant, None, OutcomeView::Failed(FatalView::OutOfSequence)),
    }
}

fn run_init(variant: Variant, credentials: DatabaseCredentials) -> (next: (Pipeline, Step))
    ensures
        (next.0@, next.1@) == to_init(variant, credentials@),
{
    let call = psql_command(&credentials, Script::Init);
    go(
        variant,
        Stage::Database(DatabaseStage::RunningInit, credentials),
        Some(Notice::ConnectingToDatabase),
        Action::Spawn(call),
    )
}

/// Takes the provisioner one event further, as [`database_step`] says.
pub fn provision_database(
    variant: Variant,
    at: DatabaseStage,
    credentials: DatabaseCredentials,
    event: Event,
) -> (next: (Pipeline, Step))
    ensures
        (next.0@, next.1@) == database_step(variant, at, credentials@, event@),
{
    match event {
        Event::Failed(reason) => match at {
            DatabaseStage::ProbingDataDir | DatabaseStage::CreatingDataDir => end(
                variant,
                None,
                Outcome::Failed(Fatal::Io(reason)),
            ),
            _ => end(variant, None, Outcome::Failed(Fatal::Launch(Program::Psql, reason))),
        },
        Event::Present(found) => match at {
            DatabaseStage::ProbingDataDir => {
                if found {
                    run_init(variant, credentials)
                } else {
                    go(
                        variant,
                        Stage::Database(DatabaseStage::CreatingDataDir, credentials),
                        Some(Notice::CreatingDataDir),
                        Action::CreateDir(Location::DataDir),
                    )
                }
            },
            _ => end(variant, None, Outcome::Failed(Fatal::OutOfSequence)),
        },
        Event::Done => match at {
            DatabaseStage::CreatingDataDir => run_init(variant, credentials),
            _ => end(variant, None, Outcome::Failed(Fatal::OutOfSequence)),
        },
        Event::Exited(success) => match at {
            DatabaseStage::RunningInit => {
                if success {
                    let call = psql_command(&credentials, Script::Seed);
                    go(
                        variant,
                        Stage::Database(DatabaseStage::RunningSeed, credentials),
                        Some(Notice::SchemaCreated),
                        Action::Spawn(call),
                    )
                } else {
                    end(variant, None, Outcome::Failed(Fatal::SqlFailed(Script::Init)))
                }
            },
            DatabaseStage::RunningSeed => {
                if success {
                    run_delegate(variant, Some(Notice::DatabaseSeeded))
                } else {
                    end(variant, None, Outcome::Failed(Fatal::SqlFailed(Script::Seed)))
                }
            },
            _ => end(variant, None, Outcome::Failed(Fatal::OutOfSequence)),
        },
        _ => end(variant, None, Outcome::Failed(Fatal::OutOfSequence)),
    }
}

} // verus!
