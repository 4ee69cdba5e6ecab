//! The loaded environment and the database credentials drawn from it.

use crate::keys::Key;
use crate::outcome::{Fatal, FatalView};
use vstd::prelude::*;
use vstd::string::StringExecFns;

verus! {

/// The variables that a list of definitions leaves defined when the
/// definitions are applied in order and none replaces an earlier one of the
/// same name.
pub open spec fn bind(pairs: Seq<(Seq<char>, Seq<char>)>) -> Map<Seq<char>, Seq<char>>
    decreases pairs.len(),
{
    if pairs.len() == 0 {
        Map::empty()
    } else {
        let earlier = bind(pairs.drop_last());
        let (name, value) = pairs.last();
        if earlier.contains_key(name) {
            earlier
        } else {
            earlier.insert(name, value)
        }
    }
}

/// A name that no definition carries is left undefined.
pub proof fn bind_leaves_out(pairs: Seq<(Seq<char>, Seq<char>)>, name: Seq<char>)
    requires
        forall|j: int| 0 <= j < pairs.len() ==> (#[trigger] pairs[j]).0 != name,
    ensures
        !bind(pairs).contains_key(name),
    decreases pairs.len(),
{
    if pairs.len() > 0 {
        let front = pairs.drop_last();
        assert forall|j: int| 0 <= j < front.len() implies (#[trigger] front[j]).0 != name by {
            assert(front[j] == pairs[j]);
        }
        bind_leaves_out(front, name);
        assert(pairs.last() == pairs[pairs.len() - 1]);
    }
}

/// The first definition of a name is the one that counts.
pub proof fn bind_keeps_first(pairs: Seq<(Seq<char>, Seq<char>)>, i: int)
    requires
        0 <= i < pairs.len(),
        forall|j: int| 0 <= j < i ==> (#[trigger] pairs[j]).0 != pairs[i].0,
    ensures
        bind(pairs).contains_key(pairs[i].0),
        bind(pairs)[pairs[i].0] == pairs[i].1,
    decreases pairs.len(),
{
    let front = pairs.drop_last();
    if i == pairs.len() - 1 {
        assert forall|j: int| 0 <= j < front.len() implies (#[trigger] front[j]).0
            != pairs[i].0 by {
            assert(front[j] == pairs[j]);
        }
        bind_leaves_out(front, pairs[i].0);
    } else {
        assert(front[i] == pairs[i]);
        assert forall|j: int| 0 <= j < i implies (#[trigger] front[j]).0 != front[i].0 by {
            assert(front[j] == pairs[j]);
        }
        bind_keeps_first(front, i);
    }
}

/// The variables that the environment defines once the environment file has
/// been loaded, each with its value.
#[derive(Debug)]
pub struct EnvironmentMap {
    entries: Vec<(String, String)>,
}

impl View for EnvironmentMap {
    type V = Map<Seq<char>, Seq<char>>;

    closed spec fn view(&self) -> Map<Seq<char>, Seq<char>> {
        bind(self.entries.deep_view())
    }
}

impl EnvironmentMap {
    /// An environment that defines nothing.
    pub fn new() -> (env: EnvironmentMap)
        ensures
            env@ == Map::<Seq<char>, Seq<char>>::empty(),
    {
        let env = EnvironmentMap { entries: Vec::new() };
        assert(env.entries.deep_view() =~= Seq::empty());
        env
    }

    /// The environment that the definitions give when they are applied in
    /// order: where a name comes twice, its first value stays.
    pub fn from_pairs(pairs: Vec<(String, String)>) -> (env: EnvironmentMap)
        ensures
            env@ == bind(pairs.deep_view()),
    {
        EnvironmentMap { entries: pairs }
    }

    /// Defines a variable unless the environment defines it already.
    pub fn define(&mut self, name: String, value: String)
        ensures
            old(self)@.contains_key(name@) ==> final(self)@ == old(self)@,
            !old(self)@.contains_key(name@) ==> final(self)@ == old(self)@.insert(name@, value@),
    {
        let ghost before = self.entries.deep_view();
        self.entries.push((name, value));
        proof {
            let after = self.entries.deep_view();
            assert(after.drop_last() =~= before);
            assert(after.last() == (name@, value@));
        }
    }

    /// The value of a variable, if the environment defines it.
    pub fn get(&self, name: &str) -> (value: Option<String>)
        ensures
            value is Some <==> self@.contains_key(name@),
            value matches Some(text) ==> text@ == self@[name@],
    {
        let wanted = String::from_str(name);
        let mut i: usize = 0;
        while i < self.entries.len()
            invariant
                i <= self.entries.len(),
                wanted@ == name@,
                forall|j: int| 0 <= j < i ==> (#[trigger] self.entries.deep_view()[j]).0 != name@,
            decreases self.entries.len() - i,
        {
            if self.entries[i].0 == wanted {
                proof {
                    assert(self.entries.deep_view()[i as int].0 == name@);
                    bind_keeps_first(self.entries.deep_view(), i as int);
                }
                return Some(self.entries[i].1.clone());
            }
            assert(self.entries.deep_view()[i as int].0 != name@);
            i += 1;
        }
        proof {
            bind_leaves_out(self.entries.deep_view(), name@);
        }
        None
    }
}

/// What the SQL client needs to reach the database.
#[derive(Debug, PartialEq, Eq)]
pub struct DatabaseCredentials {
    pub user: String,
    pub password: String,
    pub name: String,
    pub host: String,
    pub port: String,
}

/// What [`DatabaseCredentials`] are to the verifier.
pub struct CredentialsView {
    pub user: Seq<char>,
    pub password: Seq<char>,
    pub name: Seq<char>,
    pub host: Seq<char>,
    pub port: Seq<char>,
}

impl View for DatabaseCredentials {
    type V = CredentialsView;

    open spec fn view(&self) -> CredentialsView {
        CredentialsView {
            user: self.user@,
            password: self.password@,
            name: self.name@,
            host: self.host@,
            port: self.port@,
        }
    }
}

impl Clone for DatabaseCredentials {
    fn clone(&self) -> (copy: DatabaseCredentials)
        ensures
            copy@ == self@,
    {
        DatabaseCredentials {
            user: self.user.clone(),
            password: self.password.clone(),
            name: self.name.clone(),
            host: self.host.clone(),
            port: self.port.clone(),
        }
    }
}

/// The value that a variable has for the sequence: the one that the
/// environment defines, else the variable's fallback, else none.
pub open spec fn spec_setting(env: Map<Seq<char>, Seq<char>>, key: Key) -> Option<Seq<char>> {
    if env.contains_key(key.spec_name()) {
        Some(env[key.spec_name()])
    } else {
        key.spec_fallback()
    }
}

/// The credentials that an environment gives, or the first database variable,
/// in the order user, password, name, host, port, that has no value.
pub open spec fn credentials_of(env: Map<Seq<char>, Seq<char>>) -> Result<
    CredentialsView,
    FatalView,
> {
    let user = spec_setting(env, Key::DbUser);
    let password = spec_setting(env, Key::DbPassword);
    let name = spec_setting(env, Key::DbName);
    let host = spec_setting(env, Key::DbHost);
    let port = spec_setting(env, Key::DbPort);
    if user is None {
        Err(FatalView::MissingKey(Key::DbUser))
    } else if password is None {
        Err(FatalView::MissingKey(Key::DbPassword))
    } else if name is None {
        Err(FatalView::MissingKey(Key::DbName))
    } else if host is None {
        Err(FatalView::MissingKey(Key::DbHost))
    } else if port is None {
        Err(FatalView::MissingKey(Key::DbPort))
    } else {
        Ok(
            CredentialsView {
                user: user->0,
                password: password->0,
                name: name->0,
                host: host->0,
                port: port->0,
            },
        )
    }
}

/// Looks a variable up, falls back where the variable allows it, and names
/// the variable where it has no value.
pub fn setting(env: &EnvironmentMap, key: Key) -> (found: Result<String, Fatal>)
    ensures
        found is Ok <==> spec_setting(env@, key) is Some,
        found matches Ok(text) ==> text@ == spec_setting(env@, key)->0,
        found matches Err(fatal) ==> fatal@ == FatalView::MissingKey(key),
{
    match env.get(key.name()) {
        Some(text) => Ok(text),
        None => match key.fallback() {
            Some(text) => Ok(String::from_str(text)),
            None => Err(Fatal::MissingKey(key)),
        },
    }
}

/// Draws the database credentials from the loaded environment.
///
/// User, password and database name must be defined; host and port fall back
/// to `localhost` and `5432`. A value may be empty: only a variable that is
/// not defined at all is missing.
pub fn resolve_credentials(env: &EnvironmentMap) -> (found: Result<DatabaseCredentials, Fatal>)
    ensures
        match found {
            Ok(credentials) => credentials_of(env@) == Ok::<CredentialsView, FatalView>(
                credentials@,
            ),
            Err(fatal) => credentials_of(env@) == Err::<CredentialsView, FatalView>(fatal@),
        },
{
    let user = match setting(env, Key::DbUser) {
        Ok(text) => text,
        Err(fatal) => {
            return Err(fatal);
        },
    };
    let password = match setting(env, Key::DbPassword) {
        Ok(text) => text,
        Err(fatal) => {
            return Err(fatal);
        },
    };
    let name = match setting(env, Key::DbName) {
        Ok(text) => text,
        Err(fatal) => {
            return Err(fatal);
        },
    };
    let host = match setting(env, Key::DbHost) {
        Ok(text) => text,
        Err(fatal) => {
            return Err(fatal);
        },
    };
    let port = match setting(env, Key::DbPort) {
        Ok(text) => text,
        Err(fatal) => {
            return Err(fatal);
        },
    };
    Ok(DatabaseCredentials { user, password, name, host, port })
}

} // verus!
