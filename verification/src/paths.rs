//! The fixed places, relative to the working directory, that the sequence
//! looks at, creates or hands to another program.

use vstd::prelude::*;

verus! {

/// A directory or file that the sequence itself probes, creates or reads.
#[derive(Clone, Copy, Debug, PartialEq, Eq, Structural)]
pub enum Location {
    /// The configuration directory.
    ConfigDir,
    /// The environment file inside the configuration directory.
    EnvFile,
    /// The local data directory of the database variant.
    DataDir,
}

impl Location {
    /// The path of the location.
    pub open spec fn spec_path(self) -> Seq<char> {
        match self {
            Location::ConfigDir => "config"@,
            Location::EnvFile => "config/.env"@,
            Location::DataDir => "data"@,
        }
    }

    /// The path of the location.
    pub fn path(self) -> (s: &'static str)
        ensures
            s@ == self.spec_path(),
    {
        match self {
            Location::ConfigDir => "config",
            Location::EnvFile => "config/.env",
            Location::DataDir => "data",
        }
    }
}

/// An SQL file that the database stage feeds to the SQL client. The files are
/// written elsewhere; the sequence only names them.
#[derive(Clone, Copy, Debug, PartialEq, Eq, Structural)]
pub enum Script {
    /// Creates the schema.
    Init,
    /// Fills the schema with its first rows.
    Seed,
}

impl Script {
    /// The path of the SQL file.
    pub open spec fn spec_path(self) -> Seq<char> {
        match self {
            Script::Init => "migrations/init.sql"@,
            Script::Seed => "migrations/seed.sql"@,
        }
    }

    /// The path of the SQL file.
    pub fn path(self) -> (s: &'static str)
        ensures
            s@ == self.spec_path(),
    {
        match self {
            Script::Init => "migrations/init.sql",
            Script::Seed => "migrations/seed.sql",
        }
    }
}

/// The path of the delegate script.
pub open spec fn spec_delegate_script() -> Seq<char> {
    "scripts/main.py"@
}

/// The path of the delegate script.
pub fn delegate_script() -> (s: &'static str)
    ensures
        s@ == spec_delegate_script(),
{
    "scripts/main.py"
}

} // verus!
