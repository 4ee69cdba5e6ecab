use bootstrap::keys::Key;
use bootstrap::outcome::{Fatal, Notice, Outcome, Program};
use bootstrap::paths::{delegate_script, Location, Script};

#[test]
fn fixed_paths() {
    assert_eq!(Location::ConfigDir.path(), "config");
    assert_eq!(Location::EnvFile.path(), "config/.env");
    assert_eq!(Location::DataDir.path(), "data");
    assert_eq!(Script::Init.path(), "migrations/init.sql");
    assert_eq!(Script::Seed.path(), "migrations/seed.sql");
    assert_eq!(delegate_script(), "scripts/main.py");
}

#[test]
fn program_names() {
    assert_eq!(Program::Psql.name(), "psql");
    assert_eq!(Program::Python.name(), "python3");
}

#[test]
fn notice_texts() {
    assert_eq!(Notice::CreatingConfigDir.text(), "Creating config directory...");
    assert_eq!(Notice::GeneratingEnvFile.text(), ".env not found, generating new .env...");
    assert_eq!(Notice::CreatingDataDir.text(), "Creating data directory...");
    assert_eq!(Notice::ConnectingToDatabase.text(), "Connecting to PostgreSQL database...");
    assert_eq!(Notice::SchemaCreated.text(), "Schema created successfully.");
    assert_eq!(Notice::DatabaseSeeded.text(), "Database seeded successfully.");
    assert_eq!(Notice::DelegateSucceeded.text(), "Python script executed successfully.");
    assert_eq!(Notice::DelegateFailed.text(), "Python script execution failed.");
}

#[test]
fn completed_run_exits_zero() {
    assert_eq!(Outcome::Completed.exit_code(), 0);
    assert_eq!(Outcome::Completed.message(), "All setup steps completed successfully.");
}

#[test]
fn halt_tells_the_operator_what_to_do() {
    assert_eq!(
        Outcome::Halted.message(),
        ".env file created at 'config/.env'. Please fill in the values and re-run the program."
    );
    assert_eq!(Outcome::Halted.exit_code(), 101);
}

#[test]
fn fatal_messages() {
    assert_eq!(Fatal::MissingKey(Key::DbUser).message(), "DB_USER not set in .env");
    assert_eq!(Fatal::MissingKey(Key::DbPassword).message(), "DB_PASSWORD not set in .env");
    assert_eq!(Fatal::MissingKey(Key::DbName).message(), "DB_NAME not set in .env");
    assert_eq!(
        Fatal::EnvLoad("LineParse(\"x\", 0)".to_string()).message(),
        "Failed to load .env file from config/: LineParse(\"x\", 0)"
    );
    assert_eq!(Fatal::Io("permission denied".to_string()).message(), "Error: permission denied");
    assert_eq!(
        Fatal::Launch(Program::Psql, "not found".to_string()).message(),
        "Error: not found"
    );
    assert_eq!(
        Fatal::Launch(Program::Python, "not found".to_string()).message(),
        "Failed to execute Python script: not found"
    );
    assert_eq!(
        Fatal::SqlFailed(Script::Init).message(),
        "Failed to execute SQL file: migrations/init.sql"
    );
    assert_eq!(
        Fatal::SqlFailed(Script::Seed).message(),
        "Failed to execute SQL file: migrations/seed.sql"
    );
    assert_eq!(Fatal::OutOfSequence.message(), "Received an answer that was not asked for");
}

#[test]
fn fatal_exit_codes_are_never_zero() {
    let all = [
        (Fatal::MissingKey(Key::DbName), 101),
        (Fatal::EnvLoad(String::new()), 101),
        (Fatal::Io(String::new()), 1),
        (Fatal::Launch(Program::Psql, String::new()), 1),
        (Fatal::Launch(Program::Python, String::new()), 101),
        (Fatal::SqlFailed(Script::Init), 101),
        (Fatal::SqlFailed(Script::Seed), 101),
        (Fatal::OutOfSequence, 101),
    ];
    for (fatal, code) in all {
        assert_eq!(fatal.exit_code(), code);
        assert_ne!(fatal.exit_code(), 0);
        let message = fatal.message();
        let outcome = Outcome::Failed(fatal);
        assert_eq!(outcome.exit_code(), code);
        assert_eq!(outcome.message(), message);
    }
}

#[test]
fn clones_are_equal() {
    let fatal = Fatal::Launch(Program::Python, "no such file".to_string());
    assert_eq!(fatal.clone(), fatal);
    let outcome = Outcome::Failed(Fatal::EnvLoad("broken".to_string()));
    assert_eq!(outcome.clone(), outcome);
    assert_eq!(Outcome::Halted.clone(), Outcome::Halted);
    assert_eq!(Outcome::Completed.clone(), Outcome::Completed);
}
