//! The client's configuration: saved daemon connections, the default one, the
//! last environment set, and the runtime-injection command list.

use vstd::prelude::*;
use crate::pairs::{assoc, find_key, keys_distinct, lemma_assoc_dom, lemma_assoc_index};
use crate::text::concat3;

verus! {

/// Where a daemon listens, with optional credentials.
pub struct Connection {
    pub host: String,
    pub port: u16,
    pub username: Option<String>,
    pub password: Option<String>,
}

/// Whether runtime injection is on, and for which commands.
pub struct RuntimeInjectionConfig {
    pub enabled: bool,
    pub commands: Vec<String>,
}

/// The whole client configuration.
pub struct Config {
    /// Saved connections by name, each name once.
    pub connections: Vec<(String, Connection)>,
    /// The name of the connection used by default.
    pub default: Option<String>,
    /// The environment most recently set in a shell.
    pub last_set_env: Option<String>,
    pub runtime_injection: RuntimeInjectionConfig,
}

impl Config {
    /// The saved connections by name, in their stable order.
    pub open spec fn connection_list(&self) -> Seq<(Seq<char>, Connection)> {
        self.connections@.map_values(|e: (String, Connection)| (e.0@, e.1))
    }

    /// Each connection name occurs once.
    pub open spec fn wf(&self) -> bool {
        keys_distinct(self.connection_list())
    }

    /// The saved connections as a map from name.
    pub open spec fn connection_map(&self) -> Map<Seq<char>, Connection> {
        assoc(self.connection_list())
    }
}

impl Default for Config {
    /// No connections, no default, nothing set, runtime injection off with no
    /// commands.
    fn default() -> (r: Config)
        ensures
            r.connections@.len() == 0,
            r.default is None,
            r.last_set_env is None,
            !r.runtime_injection.enabled,
            r.runtime_injection.commands@.len() == 0,
    {
        Config {
            connections: Vec::new(),
            default: None,
            last_set_env: None,
            runtime_injection: RuntimeInjectionConfig { enabled: false, commands: Vec::new() },
        }
    }
}

pub open spec fn no_default_message() -> Seq<char> {
    "No default connection set. Use 'vaultwrap connect' first."@
}

pub open spec fn default_missing_message(name: Seq<char>) -> Seq<char> {
    "Default connection '"@ + name + "' not found in config."@
}

/// The host and port of the default connection, or why there is none.
pub fn default_address(config: &Config) -> (r: Result<(String, u16), String>)
    requires
        config.wf(),
    ensures
        config.default is None ==> (r matches Err(m) && m@ == no_default_message()),
        config.default is Some && !config.connection_map().contains_key(config.default->0@) ==> (
        r matches Err(m) && m@ == default_missing_message(config.default->0@)),
        config.default is Some && config.connection_map().contains_key(config.default->0@) ==> (
        r matches Ok(a) && a.0@ == config.connection_map()[config.default->0@].host@ && a.1
            == config.connection_map()[config.default->0@].port),
{
    match &config.default {
        None => Err(String::from_str("No default connection set. Use 'vaultwrap connect' first.")),
        Some(d) => {
            proof {
                lemma_assoc_dom(config.connection_list(), d@);
            }
            match find_key(&config.connections, d.as_str()) {
                Some(i) => {
                    proof {
                        assert(config.connection_list()[i as int].0 == d@);
                        lemma_assoc_index(config.connection_list(), i as int);
                    }
                    Ok((config.connections[i].1.host.clone(), config.connections[i].1.port))
                },
                None => {
                    assert(!config.connection_map().contains_key(d@)) by {
                        if config.connection_map().contains_key(d@) {
                            let j = choose|j: int|
                                0 <= j < config.connection_list().len()
                                    && config.connection_list()[j].0 == d@;
                            assert(config.connections@[j].0@ == d@);
                        }
                    }
                    Err(concat3("Default connection '", d.as_str(), "' not found in config."))
                },
            }
        },
    }
}

} // verus!
