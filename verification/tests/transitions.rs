use bootstrap::database::provision_database;
use bootstrap::delegate::invoke_script;
use bootstrap::environment::{DatabaseCredentials, EnvironmentMap};
use bootstrap::keys::{Key, Variant};
use bootstrap::loader::{continue_with, load_environment};
use bootstrap::outcome::{Fatal, Notice, Outcome, Program};
use bootstrap::paths::{Location, Script};
use bootstrap::protocol::{Action, Event, Step};
use bootstrap::provisioner::ensure_environment_file;
use bootstrap::state::{end, go, DatabaseStage, EnvironmentStage, Pipeline, Stage};

fn local_credentials() -> DatabaseCredentials {
    DatabaseCredentials {
        user: "alice".to_string(),
        password: "s3cret".to_string(),
        name: "shots".to_string(),
        host: "localhost".to_string(),
        port: "5432".to_string(),
    }
}

fn exit(outcome: Outcome) -> Step {
    Step { notice: None, action: Action::Exit(outcome) }
}

fn failed(fatal: Fatal) -> (Stage, Step) {
    (Stage::Finished(Outcome::Failed(fatal.clone())), exit(Outcome::Failed(fatal)))
}

fn every_event() -> Vec<Event> {
    vec![
        Event::Present(true),
        Event::Present(false),
        Event::Done,
        Event::Loaded(EnvironmentMap::new()),
        Event::Exited(true),
        Event::Exited(false),
        Event::Failed("boom".to_string()),
    ]
}

#[test]
fn go_and_end_build_the_pair() {
    let (run, step) = go(
        Variant::Minimal,
        Stage::Loading,
        Some(Notice::SchemaCreated),
        Action::LoadEnv(Location::EnvFile),
    );
    assert_eq!(run, Pipeline { variant: Variant::Minimal, stage: Stage::Loading });
    assert_eq!(
        step,
        Step { notice: Some(Notice::SchemaCreated), action: Action::LoadEnv(Location::EnvFile) }
    );
    let (run, step) = end(Variant::Database, Some(Notice::DelegateFailed), Outcome::Halted);
    assert_eq!(run, Pipeline { variant: Variant::Database, stage: Stage::Finished(Outcome::Halted) });
    assert_eq!(
        step,
        Step { notice: Some(Notice::DelegateFailed), action: Action::Exit(Outcome::Halted) }
    );
}

#[test]
fn provisioner_creates_a_missing_directory_first() {
    let (run, step) =
        ensure_environment_file(Variant::Minimal, EnvironmentStage::ProbingDir, Event::Present(false));
    assert_eq!(run.stage, Stage::Environment(EnvironmentStage::CreatingDir));
    assert_eq!(step.notice, Some(Notice::CreatingConfigDir));
    assert_eq!(step.action, Action::CreateDir(Location::ConfigDir));

    let (run, step) =
        ensure_environment_file(Variant::Minimal, EnvironmentStage::CreatingDir, Event::Done);
    assert_eq!(run.stage, Stage::Environment(EnvironmentStage::ProbingFile));
    assert_eq!(step, Step { notice: None, action: Action::Probe(Location::EnvFile) });
}

#[test]
fn provisioner_skips_creation_of_an_existing_directory() {
    let (run, step) =
        ensure_environment_file(Variant::Database, EnvironmentStage::ProbingDir, Event::Present(true));
    assert_eq!(run.variant, Variant::Database);
    assert_eq!(run.stage, Stage::Environment(EnvironmentStage::ProbingFile));
    assert_eq!(step, Step { notice: None, action: Action::Probe(Location::EnvFile) });
}

#[test]
fn provisioner_writes_the_variant_s_template() {
    let (run, step) = ensure_environment_file(
        Variant::Database,
        EnvironmentStage::ProbingFile,
        Event::Present(false),
    );
    assert_eq!(run.stage, Stage::Environment(EnvironmentStage::WritingFile));
    assert_eq!(step.notice, Some(Notice::GeneratingEnvFile));
    match step.action {
        Action::WriteFile(Location::EnvFile, text) => {
            assert!(text.starts_with("TOKEN=null\n"));
            assert!(text.ends_with("DB_HOST=localhost\nDB_PORT=5432\n"));
        }
        other => panic!("expected a write, got {:?}", other),
    }
    let (run, step) =
        ensure_environment_file(Variant::Database, EnvironmentStage::WritingFile, Event::Done);
    assert_eq!(run.stage, Stage::Finished(Outcome::Halted));
    assert_eq!(step, exit(Outcome::Halted));
}

#[test]
fn provisioner_hands_an_existing_file_to_the_loader() {
    let (run, step) = ensure_environment_file(
        Variant::Minimal,
        EnvironmentStage::ProbingFile,
        Event::Present(true),
    );
    assert_eq!(run.stage, Stage::Loading);
    assert_eq!(step, Step { notice: None, action: Action::LoadEnv(Location::EnvFile) });
}

#[test]
fn provisioner_fails_with_the_system_s_words() {
    for at in [
        EnvironmentStage::ProbingDir,
        EnvironmentStage::CreatingDir,
        EnvironmentStage::ProbingFile,
        EnvironmentStage::WritingFile,
    ] {
        let (run, step) =
            ensure_environment_file(Variant::Minimal, at, Event::Failed("read-only".to_string()));
        assert_eq!((run.stage, step), failed(Fatal::Io("read-only".to_string())));
    }
}

#[test]
fn provisioner_refuses_answers_it_did_not_ask_for() {
    let asked = [
        (EnvironmentStage::ProbingDir, vec![0, 1, 6]),
        (EnvironmentStage::CreatingDir, vec![2, 6]),
        (EnvironmentStage::ProbingFile, vec![0, 1, 6]),
        (EnvironmentStage::WritingFile, vec![2, 6]),
    ];
    for (at, fitting) in asked {
        for (index, event) in every_event().into_iter().enumerate() {
            let (run, step) = ensure_environment_file(Variant::Minimal, at, event);
            let refused = (run.stage, step) == failed(Fatal::OutOfSequence);
            assert_eq!(refused, !fitting.contains(&index));
        }
    }
}

#[test]
fn loader_fails_on_a_file_that_cannot_be_loaded() {
    let (run, step) =
        load_environment(Variant::Database, Event::Failed("LineParse(\"=\", 0)".to_string()));
    assert_eq!(
        (run.stage, step),
        failed(Fatal::EnvLoad("LineParse(\"=\", 0)".to_string()))
    );
}

#[test]
fn loader_sends_the_minimal_variant_to_the_delegate() {
    let (run, step) = load_environment(Variant::Minimal, Event::Loaded(EnvironmentMap::new()));
    assert_eq!(run.stage, Stage::Delegate);
    assert_eq!(step.notice, None);
    match step.action {
        Action::Spawn(call) => assert_eq!(call.program, Program::Python),
        other => panic!("expected the delegate, got {:?}", other),
    }
}

#[test]
fn loader_sends_the_database_variant_to_the_data_directory() {
    let mut env = EnvironmentMap::new();
    env.define("DB_USER".to_string(), "alice".to_string());
    env.define("DB_PASSWORD".to_string(), "s3cret".to_string());
    env.define("DB_NAME".to_string(), "shots".to_string());
    let (run, step) = continue_with(Variant::Database, &env);
    assert_eq!(run.stage, Stage::Database(DatabaseStage::ProbingDataDir, local_credentials()));
    assert_eq!(step, Step { notice: None, action: Action::Probe(Location::DataDir) });
}

#[test]
fn loader_names_the_missing_key() {
    let (run, step) = load_environment(Variant::Database, Event::Loaded(EnvironmentMap::new()));
    assert_eq!((run.stage, step), failed(Fatal::MissingKey(Key::DbUser)));
}

#[test]
fn loader_refuses_answers_it_did_not_ask_for() {
    for (index, event) in every_event().into_iter().enumerate() {
        let (run, step) = load_environment(Variant::Minimal, event);
        let refused = (run.stage, step) == failed(Fatal::OutOfSequence);
        assert_eq!(refused, index != 3 && index != 6);
    }
}

#[test]
fn database_creates_a_missing_data_directory() {
    let (run, step) = provision_database(
        Variant::Database,
        DatabaseStage::ProbingDataDir,
        local_credentials(),
        Event::Present(false),
    );
    assert_eq!(run.stage, Stage::Database(DatabaseStage::CreatingDataDir, local_credentials()));
    assert_eq!(step.notice, Some(Notice::CreatingDataDir));
    assert_eq!(step.action, Action::CreateDir(Location::DataDir));
}

#[test]
fn database_runs_the_schema_script_once_the_directory_is_there() {
    for (at, event) in [
        (DatabaseStage::ProbingDataDir, Event::Present(true)),
        (DatabaseStage::CreatingDataDir, Event::Done),
    ] {
        let (run, step) = provision_database(Variant::Database, at, local_credentials(), event);
        assert_eq!(run.stage, Stage::Database(DatabaseStage::RunningInit, local_credentials()));
        assert_eq!(step.notice, Some(Notice::ConnectingToDatabase));
        match step.action {
            Action::Spawn(call) => {
                assert_eq!(call.program, Program::Psql);
                assert_eq!(call.args[9], "migrations/init.sql");
            }
            other => panic!("expected the schema script, got {:?}", other),
        }
    }
}

#[test]
fn database_seeds_after_the_schema() {
    let (run, step) = provision_database(
        Variant::Database,
        DatabaseStage::RunningInit,
        local_credentials(),
        Event::Exited(true),
    );
    assert_eq!(run.stage, Stage::Database(DatabaseStage::RunningSeed, local_credentials()));
    assert_eq!(step.notice, Some(Notice::SchemaCreated));
    match step.action {
        Action::Spawn(call) => assert_eq!(call.args[9], "migrations/seed.sql"),
        other => panic!("expected the seed script, got {:?}", other),
    }
}

#[test]
fn database_hands_over_to_the_delegate_after_the_seed() {
    let (run, step) = provision_database(
        Variant::Database,
        DatabaseStage::RunningSeed,
        local_credentials(),
        Event::Exited(true),
    );
    assert_eq!(run.stage, Stage::Delegate);
    assert_eq!(step.notice, Some(Notice::DatabaseSeeded));
    match step.action {
        Action::Spawn(call) => {
            assert_eq!(call.program, Program::Python);
            assert_eq!(call.args, vec!["scripts/main.py"]);
        }
        other => panic!("expected the delegate, got {:?}", other),
    }
}

#[test]
fn database_names_the_script_that_failed() {
    let (run, step) = provision_database(
        Variant::Database,
        DatabaseStage::RunningInit,
        local_credentials(),
        Event::Exited(false),
    );
    assert_eq!((run.stage, step), failed(Fatal::SqlFailed(Script::Init)));
    let (run, step) = provision_database(
        Variant::Database,
        DatabaseStage::RunningSeed,
        local_credentials(),
        Event::Exited(false),
    );
    assert_eq!((run.stage, step), failed(Fatal::SqlFailed(Script::Seed)));
}

#[test]
fn database_tells_a_refused_directory_from_a_client_that_did_not_start() {
    for at in [DatabaseStage::ProbingDataDir, DatabaseStage::CreatingDataDir] {
        let (run, step) = provision_database(
            Variant::Database,
            at,
            local_credentials(),
            Event::Failed("no space".to_string()),
        );
        assert_eq!((run.stage, step), failed(Fatal::Io("no space".to_string())));
    }
    for at in [DatabaseStage::RunningInit, DatabaseStage::RunningSeed] {
        let (run, step) = provision_database(
            Variant::Database,
            at,
            local_credentials(),
            Event::Failed("No such file or directory".to_string()),
        );
        assert_eq!(
            (run.stage, step),
            failed(Fatal::Launch(Program::Psql, "No such file or directory".to_string()))
        );
    }
}

#[test]
fn database_refuses_answers_it_did_not_ask_for() {
    let asked = [
        (DatabaseStage::ProbingDataDir, vec![0, 1, 6]),
        (DatabaseStage::CreatingDataDir, vec![2, 6]),
        (DatabaseStage::RunningInit, vec![4, 5, 6]),
        (DatabaseStage::RunningSeed, vec![4, 5, 6]),
    ];
    for (at, fitting) in asked {
        for (index, event) in every_event().into_iter().enumerate() {
            let (run, step) = provision_database(Variant::Database, at, local_credentials(), event);
            let refused = (run.stage, step) == failed(Fatal::OutOfSequence);
            assert_eq!(refused, !fitting.contains(&index));
        }
    }
}

#[test]
fn delegate_reports_success_and_failure_and_completes_either_way() {
    let (run, step) = invoke_script(Variant::Minimal, Event::Exited(true));
    assert_eq!(run.stage, Stage::Finished(Outcome::Completed));
    assert_eq!(
        step,
        Step { notice: Some(Notice::DelegateSucceeded), action: Action::Exit(Outcome::Completed) }
    );
    let (run, step) = invoke_script(Variant::Minimal, Event::Exited(false));
    assert_eq!(run.stage, Stage::Finished(Outcome::Completed));
    assert_eq!(
        step,
        Step { notice: Some(Notice::DelegateFailed), action: Action::Exit(Outcome::Completed) }
    );
}

#[test]
fn delegate_that_cannot_be_started_is_fatal() {
    let (run, step) = invoke_script(Variant::Database, Event::Failed("not found".to_string()));
    let fatal = Fatal::Launch(Program::Python, "not found".to_string());
    assert_eq!(fatal.message(), "Failed to execute Python script: not found");
    assert_eq!((run.stage, step), failed(fatal));
}

#[test]
fn delegate_refuses_answers_it_did_not_ask_for() {
    for (index, event) in every_event().into_iter().enumerate() {
        let (run, step) = invoke_script(Variant::Minimal, event);
        let refused = (run.stage, step) == failed(Fatal::OutOfSequence);
        assert_eq!(refused, ![4, 5, 6].contains(&index));
    }
}

#[test]
fn a_finished_run_answers_every_event_with_its_exit() {
    for outcome in [
        Outcome::Completed,
        Outcome::Halted,
        Outcome::Failed(Fatal::SqlFailed(Script::Seed)),
    ] {
        for event in every_event() {
            let run = Pipeline { variant: Variant::Database, stage: Stage::Finished(outcome.clone()) };
            let (next, step) = run.advance(event);
            assert_eq!(next.stage, Stage::Finished(outcome.clone()));
            assert_eq!(next.variant, Variant::Database);
            assert_eq!(step, exit(outcome.clone()));
            assert_eq!(next.outcome(), Some(outcome.clone()));
        }
    }
}

#[test]
fn advance_leaves_each_stage_to_its_component() {
    let (run, _) = Pipeline::start(Variant::Database);
    let (run, step) = run.advance(Event::Present(true));
    assert_eq!(step.action, Action::Probe(Location::EnvFile));
    let (run, step) = run.advance(Event::Present(true));
    assert_eq!(step.action, Action::LoadEnv(Location::EnvFile));
    let mut env = EnvironmentMap::new();
    env.define("DB_USER".to_string(), "alice".to_string());
    env.define("DB_PASSWORD".to_string(), "s3cret".to_string());
    env.define("DB_NAME".to_string(), "shots".to_string());
    let (run, step) = run.advance(Event::Loaded(env));
    assert_eq!(step.action, Action::Probe(Location::DataDir));
    let (run, step) = run.advance(Event::Present(true));
    assert!(matches!(step.action, Action::Spawn(_)));
    let (run, step) = run.advance(Event::Exited(true));
    assert!(matches!(step.action, Action::Spawn(_)));
    let (run, step) = run.advance(Event::Exited(true));
    assert!(matches!(step.action, Action::Spawn(_)));
    assert_eq!(run.stage, Stage::Delegate);
    let (run, step) = run.advance(Event::Exited(true));
    assert_eq!(step.action, Action::Exit(Outcome::Completed));
    assert!(run.is_finished());
}
