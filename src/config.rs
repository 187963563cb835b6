//! Process configuration, read from the environment's variables.
use vstd::prelude::*;
use crate::numeric::{parse_unsigned, unsigned_of};
use crate::text::chars_of;

verus! {

pub const STATIC_DIRECTORY: &'static str = "STATIC_DIRECTORY";

pub const MONGO_DB_USERNAME: &'static str = "MONGO_DB_USERNAME";

pub const MONGO_DB_PASSWORD: &'static str = "MONGO_DB_PASSWORD";

pub const MONGO_DB_URL: &'static str = "MONGO_DB_URL";

pub const MONGO_DB_DATABASE: &'static str = "MONGO_DB_DATABASE";

pub const MONGO_DB_HOUSE_COLLECTION: &'static str = "MONGO_DB_HOUSE_COLLECTION";

pub const PORT: &'static str = "PORT";

pub const PORT_MAX: u64 = 65535;

#[derive(Debug)]
pub struct Config {
    pub static_directory: String,
    pub mongodb: MongoConfig,
    pub http_port: u16,
}

#[derive(Debug)]
pub struct MongoConfig {
    pub username: String,
    pub password: String,
    pub url: String,
    pub database: String,
    pub house_collection: String,
}

/// Why the configuration could not be read; each carries the variable's name.
#[derive(Debug)]
pub enum ConfigError {
    EnvVarMissing(String),
    ParseError(String),
}

/// Binding `k` is the first one for `name`.
pub open spec fn is_first_binding(env: Seq<(String, String)>, name: Seq<char>, k: int) -> bool {
    &&& 0 <= k < env.len()
    &&& env[k].0@ == name
    &&& forall|j: int| 0 <= j < k ==> (#[trigger] env[j]).0@ != name
}

/// The value bound to `name`, if any.
pub open spec fn lookup(env: Seq<(String, String)>, name: Seq<char>) -> Option<Seq<char>> {
    if exists|k: int| is_first_binding(env, name, k) {
        Some(env[choose|k: int| is_first_binding(env, name, k)].1@)
    } else {
        None
    }
}

/// The first variable, in the order the configuration reads them, that is not set.
pub open spec fn missing_var(env: Seq<(String, String)>) -> Option<Seq<char>> {
    if lookup(env, STATIC_DIRECTORY@) is None {
        Some(STATIC_DIRECTORY@)
    } else if lookup(env, MONGO_DB_USERNAME@) is None {
        Some(MONGO_DB_USERNAME@)
    } else if lookup(env, MONGO_DB_PASSWORD@) is None {
        Some(MONGO_DB_PASSWORD@)
    } else if lookup(env, MONGO_DB_URL@) is None {
        Some(MONGO_DB_URL@)
    } else if lookup(env, MONGO_DB_DATABASE@) is None {
        Some(MONGO_DB_DATABASE@)
    } else if lookup(env, MONGO_DB_HOUSE_COLLECTION@) is None {
        Some(MONGO_DB_HOUSE_COLLECTION@)
    } else if lookup(env, PORT@) is None {
        Some(PORT@)
    } else {
        None
    }
}

/// The text fields of `c` hold the values bound to their variables.
pub open spec fn holds_bindings(env: Seq<(String, String)>, c: Config) -> bool {
    &&& lookup(env, STATIC_DIRECTORY@) == Some(c.static_directory@)
    &&& lookup(env, MONGO_DB_USERNAME@) == Some(c.mongodb.username@)
    &&& lookup(env, MONGO_DB_PASSWORD@) == Some(c.mongodb.password@)
    &&& lookup(env, MONGO_DB_URL@) == Some(c.mongodb.url@)
    &&& lookup(env, MONGO_DB_DATABASE@) == Some(c.mongodb.database@)
    &&& lookup(env, MONGO_DB_HOUSE_COLLECTION@) == Some(c.mongodb.house_collection@)
}

/// The value bound to `name` in `env`.
pub fn lookup_exec(env: &Vec<(String, String)>, name: &str) -> (r: Option<String>)
    ensures
        match r {
            Some(v) => lookup(env@, name@) == Some(v@),
            None => lookup(env@, name@) is None,
        },
{
    let key = name.to_owned();
    let mut i: usize = 0;
    while i < env.len()
        invariant
            i <= env@.len(),
            key@ == name@,
            forall|j: int| 0 <= j < i ==> (#[trigger] env@[j]).0@ != name@,
        decreases env@.len() - i,
    {
        if env[i].0 == key {
            assert(is_first_binding(env@, name@, i as int));
            let ghost k = choose|k: int| is_first_binding(env@, name@, k);
            assert(k == i) by {
                if k < i {
                    assert(env@[k].0@ != name@);
                } else if k > i {
                    assert(env@[i as int].0@ != name@);
                }
            }
            return Some(env[i].1.clone());
        }
        i += 1;
    }
    assert forall|k: int| !is_first_binding(env@, name@, k) by {
        if 0 <= k < i {
            assert(env@[k].0@ != name@);
        }
    }
    None
}

fn require_var(env: &Vec<(String, String)>, name: &str) -> (r: Result<String, ConfigError>)
    ensures
        match r {
            Ok(v) => lookup(env@, name@) == Some(v@),
            Err(e) => lookup(env@, name@) is None && (e matches ConfigError::EnvVarMissing(n) && n@
                == name@),
        },
{
    match lookup_exec(env, name) {
        Some(v) => Ok(v),
        None => Err(ConfigError::EnvVarMissing(name.to_owned())),
    }
}

impl Config {
    /// The configuration from the environment's bindings `env`: each variable must be
    /// set, and `PORT` must be a 16-bit unsigned integer.
    pub fn try_from_env(env: &Vec<(String, String)>) -> (r: Result<Config, ConfigError>)
        ensures
            match missing_var(env@) {
                Some(n) => r matches Err(ConfigError::EnvVarMissing(m)) && m@ == n,
                None => match unsigned_of(lookup(env@, PORT@)->0, PORT_MAX as nat) {
                    None => r matches Err(ConfigError::ParseError(m)) && m@ == PORT@,
                    Some(p) => r matches Ok(c) && c.http_port == p && holds_bindings(env@, c),
                },
            },
    {
        let static_directory = require_var(env, STATIC_DIRECTORY)?;
        let username = require_var(env, MONGO_DB_USERNAME)?;
        let password = require_var(env, MONGO_DB_PASSWORD)?;
        let url = require_var(env, MONGO_DB_URL)?;
        let database = require_var(env, MONGO_DB_DATABASE)?;
        let house_collection = require_var(env, MONGO_DB_HOUSE_COLLECTION)?;
        let port = require_var(env, PORT)?;
        let digits = chars_of(port.as_str());
        let http_port = match parse_unsigned(digits.as_slice(), PORT_MAX) {
            Some(p) => p as u16,
            None => return Err(ConfigError::ParseError(PORT.to_owned())),
        };
        Ok(
            Config {
                static_directory,
                mongodb: MongoConfig { username, password, url, database, house_collection },
                http_port,
            },
        )
    }
}

} // verus!
