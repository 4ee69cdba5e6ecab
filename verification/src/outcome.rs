//! How a run ends, and what it says along the way.

use crate::keys::Key;
use crate::paths::{Location, Script};
use vstd::prelude::*;
use vstd::string::StringExecFns;

verus! {

/// An outside program that the sequence starts.
#[derive(Clone, Copy, Debug, PartialEq, Eq, Structural)]
pub enum Program {
    /// The PostgreSQL command-line client.
    Psql,
    /// The interpreter of the delegate script.
    Python,
}

impl Program {
    /// The name under which the program is looked up.
    pub open spec fn spec_name(self) -> Seq<char> {
        match self {
            Program::Psql => "psql"@,
            Program::Python => "python3"@,
        }
    }

    /// The name under which the program is looked up.
    pub fn name(self) -> (s: &'static str)
        ensures
            s@ == self.spec_name(),
    {
        match self {
            Program::Psql => "psql",
            Program::Python => "python3",
        }
    }
}

/// A progress message that goes to standard output before an action is
/// carried out.
#[derive(Clone, Copy, Debug, PartialEq, Eq, Structural)]
pub enum Notice {
    CreatingConfigDir,
    GeneratingEnvFile,
    CreatingDataDir,
    ConnectingToDatabase,
    SchemaCreated,
    DatabaseSeeded,
    DelegateSucceeded,
    DelegateFailed,
}

impl Notice {
    /// The line to print.
    pub open spec fn spec_text(self) -> Seq<char> {
        match self {
            Notice::CreatingConfigDir => "Creating config directory..."@,
            Notice::GeneratingEnvFile => ".env not found, generating new .env..."@,
            Notice::CreatingDataDir => "Creating data directory..."@,
            Notice::ConnectingToDatabase => "Connecting to PostgreSQL database..."@,
            Notice::SchemaCreated => "Schema created successfully."@,
            Notice::DatabaseSeeded => "Database seeded successfully."@,
            Notice::DelegateSucceeded => "Python script executed successfully."@,
            Notice::DelegateFailed => "Python script execution failed."@,
        }
    }

    /// The line to print.
    pub fn text(self) -> (s: &'static str)
        ensures
            s@ == self.spec_text(),
    {
        match self {
            Notice::CreatingConfigDir => "Creating config directory...",
            Notice::GeneratingEnvFile => ".env not found, generating new .env...",
            Notice::CreatingDataDir => "Creating data directory...",
            Notice::ConnectingToDatabase => "Connecting to PostgreSQL database...",
            Notice::SchemaCreated => "Schema created successfully.",
            Notice::DatabaseSeeded => "Database seeded successfully.",
            Notice::DelegateSucceeded => "Python script executed successfully.",
            Notice::DelegateFailed => "Python script execution failed.",
        }
    }
}

/// A condition that aborts the run. None of them is retried or recovered
/// from: the operator mends the cause and starts over.
#[derive(Debug, PartialEq, Eq)]
pub enum Fatal {
    /// The loaded environment does not define a variable that has no fallback.
    MissingKey(Key),
    /// The environment file could not be loaded; the text says why.
    EnvLoad(String),
    /// A directory or file could not be probed, created or written; the text
    /// is the operating system's.
    Io(String),
    /// A program could not be started; the text is the operating system's.
    Launch(Program, String),
    /// The SQL client ran the script and did not report success.
    SqlFailed(Script),
    /// An event arrived that does not answer the action that was pending.
    OutOfSequence,
}

/// What a [`Fatal`] is to the verifier: the same, with texts as sequences of
/// characters.
pub enum FatalView {
    MissingKey(Key),
    EnvLoad(Seq<char>),
    Io(Seq<char>),
    Launch(Program, Seq<char>),
    SqlFailed(Script),
    OutOfSequence,
}

impl View for Fatal {
    type V = FatalView;

    open spec fn view(&self) -> FatalView {
        match self {
            Fatal::MissingKey(key) => FatalView::MissingKey(*key),
            Fatal::EnvLoad(reason) => FatalView::EnvLoad(reason@),
            Fatal::Io(reason) => FatalView::Io(reason@),
            Fatal::Launch(program, reason) => FatalView::Launch(*program, reason@),
            Fatal::SqlFailed(script) => FatalView::SqlFailed(*script),
            Fatal::OutOfSequence => FatalView::OutOfSequence,
        }
    }
}

impl FatalView {
    /// The message that tells the operator what went wrong.
    pub open spec fn message(self) -> Seq<char> {
        match self {
            FatalView::MissingKey(key) => key.spec_name() + " not set in .env"@,
            FatalView::EnvLoad(reason) => "Failed to load .env file from config/: "@ + reason,
            FatalView::Io(reason) => "Error: "@ + reason,
            FatalView::Launch(Program::Psql, reason) => "Error: "@ + reason,
            FatalView::Launch(Program::Python, reason) => "Failed to execute Python script: "@
                + reason,
            FatalView::SqlFailed(script) => "Failed to execute SQL file: "@ + script.spec_path(),
            FatalView::OutOfSequence => "Received an answer that was not asked for"@,
        }
    }

    /// The status with which the process ends: 1 where the operating system
    /// refused a file operation or the start of the SQL client, 101 where an
    /// expectation of the sequence itself was not met.
    pub open spec fn exit_code(self) -> int {
        match self {
            FatalView::Io(_) => 1,
            FatalView::Launch(Program::Psql, _) => 1,
            _ => 101,
        }
    }
}

impl Fatal {
    /// The message that tells the operator what went wrong.
    pub fn message(&self) -> (text: String)
        ensures
            text@ == self@.message(),
    {
        match self {
            Fatal::MissingKey(key) => {
                let mut text = String::from_str(key.name());
                text.append(" not set in .env");
                text
            },
            Fatal::EnvLoad(reason) => {
                let mut text = String::from_str("Failed to load .env file from config/: ");
                text.append(reason.as_str());
                text
            },
            Fatal::Io(reason) => {
                let mut text = String::from_str("Error: ");
                text.append(reason.as_str());
                text
            },
            Fatal::Launch(Program::Psql, reason) => {
                let mut text = String::from_str("Error: ");
                text.append(reason.as_str());
                text
            },
            Fatal::Launch(Program::Python, reason) => {
                let mut text = String::from_str("Failed to execute Python script: ");
                text.append(reason.as_str());
                text
            },
            Fatal::SqlFailed(script) => {
                let mut text = String::from_str("Failed to execute SQL file: ");
                text.append(script.path());
                text
            },
            Fatal::OutOfSequence => String::from_str("Received an answer that was not asked for"),
        }
    }

    /// The status with which the process ends. It is never zero.
    pub fn exit_code(&self) -> (code: i32)
        ensures
            code == self@.exit_code(),
            code != 0,
    {
        match self {
            Fatal::Io(_) => 1,
            Fatal::Launch(Program::Psql, _) => 1,
            _ => 101,
        }
    }
}

impl Clone for Fatal {
    fn clone(&self) -> (copy: Fatal)
        ensures
            copy@ == self@,
    {
        match self {
            Fatal::MissingKey(key) => Fatal::MissingKey(*key),
            Fatal::EnvLoad(reason) => Fatal::EnvLoad(reason.clone()),
            Fatal::Io(reason) => Fatal::Io(reason.clone()),
            Fatal::Launch(program, reason) => Fatal::Launch(*program, reason.clone()),
            Fatal::SqlFailed(script) => Fatal::SqlFailed(*script),
            Fatal::OutOfSequence => Fatal::OutOfSequence,
        }
    }
}

/// How a run ended.
#[derive(Debug, PartialEq, Eq)]
pub enum Outcome {
    /// Every stage was gone through. The delegate script may still have
    /// failed: that is reported and changes nothing here.
    Completed,
    /// The environment file did not exist and was generated. The run stops on
    /// purpose, so that nothing ever works with placeholder values.
    Halted,
    /// The run was aborted.
    Failed(Fatal),
}

/// What an [`Outcome`] is to the verifier.
pub enum OutcomeView {
    Completed,
    Halted,
    Failed(FatalView),
}

impl View for Outcome {
    type V = OutcomeView;

    open spec fn view(&self) -> OutcomeView {
        match self {
            Outcome::Completed => OutcomeView::Completed,
            Outcome::Halted => OutcomeView::Halted,
            Outcome::Failed(fatal) => OutcomeView::Failed(fatal@),
        }
    }
}

impl OutcomeView {
    /// The last message of the run.
    pub open spec fn message(self) -> Seq<char> {
        match self {
            OutcomeView::Completed => "All setup steps completed successfully."@,
            OutcomeView::Halted => ".env file created at '"@ + Location::EnvFile.spec_path()
                + "'. Please fill in the values and re-run the program."@,
            OutcomeView::Failed(fatal) => fatal.message(),
        }
    }

    /// The status with which the process ends: zero after a completed run and
    /// only then.
    pub open spec fn exit_code(self) -> int {
        match self {
            OutcomeView::Completed => 0,
            OutcomeView::Halted => 101,
            OutcomeView::Failed(fatal) => fatal.exit_code(),
        }
    }
}

impl Outcome {
    /// The last message of the run: to standard output after a completed run,
    /// to standard error otherwise.
    pub fn message(&self) -> (text: String)
        ensures
            text@ == self@.message(),
    {
        match self {
            Outcome::Completed => String::from_str("All setup steps completed successfully."),
            Outcome::Halted => {
                let mut text = String::from_str(".env file created at '");
                text.append(Location::EnvFile.path());
                text.append("'. Please fill in the values and re-run the program.");
                text
            },
            Outcome::Failed(fatal) => fatal.message(),
        }
    }

    /// The status with which the process ends: zero after a completed run and
    /// only then.
    pub fn exit_code(&self) -> (code: i32)
        ensures
            code == self@.exit_code(),
            code == 0 <==> self@ is Completed,
    {
        match self {
            Outcome::Completed => 0,
            Outcome::Halted => 101,
            Outcome::Failed(fatal) => fatal.exit_code(),
        }
    }
}

impl Clone for Outcome {
    fn clone(&self) -> (copy: Outcome)
        ensures
            copy@ == self@,
    {
        match self {
            Outcome::Completed => Outcome::Completed,
            Outcome::Halted => Outcome::Halted,
            Outcome::Failed(fatal) => Outcome::Failed(fatal.clone()),
        }
    }
}

} // verus!
