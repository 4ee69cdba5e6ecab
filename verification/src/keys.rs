//! The variables that the environment file declares, and the two variants of
//! the bootstrap sequence that differ in which of them they need.

use vstd::prelude::*;

verus! {

/// Which stages the sequence runs: the database stage is optional.
#[derive(Clone, Copy, Debug, PartialEq, Eq, Structural)]
pub enum Variant {
    /// Environment file and delegate script only.
    Minimal,
    /// Also initialises and seeds the database before the delegate runs.
    Database,
}

impl Variant {
    /// Whether this variant runs the database stage.
    pub open spec fn spec_has_database(self) -> bool {
        self == Variant::Database
    }

    /// Whether this variant runs the database stage.
    #[verifier::when_used_as_spec(spec_has_database)]
    pub fn has_database(self) -> (b: bool)
        ensures
            b == self.spec_has_database(),
    {
        match self {
            Variant::Minimal => false,
            Variant::Database => true,
        }
    }
}

/// A variable of the environment file.
#[derive(Clone, Copy, Debug, PartialEq, Eq, Structural)]
pub enum Key {
    Token,
    ShotRole,
    ShotTimeoutInHours,
    GuildId,
    DbUser,
    DbPassword,
    DbName,
    DbHost,
    DbPort,
}

impl Key {
    /// The variable's name as it stands in the environment file.
    pub open spec fn spec_name(self) -> Seq<char> {
        match self {
            Key::Token => "TOKEN"@,
            Key::ShotRole => "SHOT_ROLE"@,
            Key::ShotTimeoutInHours => "SHOT_TIMEOUT_IN_HOURS"@,
            Key::GuildId => "GUILD_ID"@,
            Key::DbUser => "DB_USER"@,
            Key::DbPassword => "DB_PASSWORD"@,
            Key::DbName => "DB_NAME"@,
            Key::DbHost => "DB_HOST"@,
            Key::DbPort => "DB_PORT"@,
        }
    }

    /// The variable's name as it stands in the environment file.
    pub fn name(self) -> (s: &'static str)
        ensures
            s@ == self.spec_name(),
    {
        match self {
            Key::Token => "TOKEN",
            Key::ShotRole => "SHOT_ROLE",
            Key::ShotTimeoutInHours => "SHOT_TIMEOUT_IN_HOURS",
            Key::GuildId => "GUILD_ID",
            Key::DbUser => "DB_USER",
            Key::DbPassword => "DB_PASSWORD",
            Key::DbName => "DB_NAME",
            Key::DbHost => "DB_HOST",
            Key::DbPort => "DB_PORT",
        }
    }

    /// The value that a freshly generated environment file gives the variable:
    /// a readable stand-in for the database settings, the word `null` for the
    /// rest.
    pub open spec fn spec_placeholder(self) -> Seq<char> {
        match self {
            Key::DbUser => "your_db_user"@,
            Key::DbPassword => "your_db_password"@,
            Key::DbName => "your_db_name"@,
            Key::DbHost => "localhost"@,
            Key::DbPort => "5432"@,
            _ => "null"@,
        }
    }

    /// The value that a freshly generated environment file gives the variable.
    pub fn placeholder(self) -> (s: &'static str)
        ensures
            s@ == self.spec_placeholder(),
    {
        match self {
            Key::DbUser => "your_db_user",
            Key::DbPassword => "your_db_password",
            Key::DbName => "your_db_name",
            Key::DbHost => "localhost",
            Key::DbPort => "5432",
            _ => "null",
        }
    }

    /// The value used when the loaded environment does not define the
    /// variable. Only the database host and port have one; a database variable
    /// without one must be defined.
    pub open spec fn spec_fallback(self) -> Option<Seq<char>> {
        match self {
            Key::DbHost => Some("localhost"@),
            Key::DbPort => Some("5432"@),
            _ => None,
        }
    }

    /// The value used when the loaded environment does not define the variable.
    pub fn fallback(self) -> (s: Option<&'static str>)
        ensures
            s is Some <==> self.spec_fallback() is Some,
            s matches Some(text) ==> text@ == self.spec_fallback()->0,
    {
        match self {
            Key::DbHost => Some("localhost"),
            Key::DbPort => Some("5432"),
            _ => None,
        }
    }
}

/// The variables that a variant declares, in the order in which the
/// environment file lists them.
pub open spec fn declared_keys(variant: Variant) -> Seq<Key> {
    let common = seq![Key::Token, Key::ShotRole, Key::ShotTimeoutInHours, Key::GuildId];
    if variant.spec_has_database() {
        common + seq![Key::DbUser, Key::DbPassword, Key::DbName, Key::DbHost, Key::DbPort]
    } else {
        common
    }
}

/// The variables that a variant declares, in the order in which the
/// environment file lists them.
pub fn key_set(variant: Variant) -> (keys: Vec<Key>)
    ensures
        keys@ == declared_keys(variant),
{
    let mut keys: Vec<Key> = Vec::new();
    keys.push(Key::Token);
    keys.push(Key::ShotRole);
    keys.push(Key::ShotTimeoutInHours);
    keys.push(Key::GuildId);
    if variant.has_database() {
        keys.push(Key::DbUser);
        keys.push(Key::DbPassword);
        keys.push(Key::DbName);
        keys.push(Key::DbHost);
        keys.push(Key::DbPort);
    }
    assert(keys@ =~= declared_keys(variant));
    keys
}

} // verus!
