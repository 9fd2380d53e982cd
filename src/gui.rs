//! What the desktop front-end makes of the daemon's answers.

use vstd::prelude::*;
use crate::environment::Environment;
use crate::pairs::{assoc, string_pairs, string_views};
use crate::protocol::{SecretRequest, SecretResponse};
use crate::text::{concat3, owned};

verus! {

/// The daemon the front-end talks to, once one is configured.
pub struct ServerConfig {
    pub host: String,
    pub port: u16,
    pub username: Option<String>,
    pub password: Option<String>,
}

/// The address to send to and the request to send for `command`, or the error
/// when no server is configured yet.
pub fn prepare_request(
    server: &Option<ServerConfig>,
    command: &str,
    environment: Option<String>,
) -> (r: Result<(String, u16, SecretRequest), String>)
    ensures
        server is None ==> (r matches Err(m) && m@ == "No server configuration set"@),
        server matches Some(c) ==> (r matches Ok(p) && p.0@ == c.host@ && p.1 == c.port
            && p.2.client_id@ == "vaultd-gui"@ && p.2.command@ == command@ && p.2.environment
            == environment && p.2.variables is None),
{
    match server {
        None => Err(owned("No server configuration set")),
        Some(c) => Ok(
            (
                c.host.clone(),
                c.port,
                SecretRequest {
                    client_id: owned("vaultd-gui"),
                    command: owned(command),
                    environment,
                    variables: None,
                },
            ),
        ),
    }
}

/// The error reported when the daemon cannot be reached or its answer read.
pub fn network_error(detail: &str) -> (r: String)
    ensures
        r@ == "Network error: "@ + detail@,
{
    let r = concat3("Network error: ", detail, "");
    proof {
        reveal_strlit("");
    }
    assert(r@ =~= "Network error: "@ + detail@);
    r
}

/// The environment names of an answer to `list-environments`, or its error:
/// the daemon's message, or `Failed to list environments` when it gave none.
pub fn list_environments(resp: &SecretResponse) -> (r: Result<Vec<String>, String>)
    ensures
        resp.success ==> (r matches Ok(names) && string_views(names@) == match resp.environments {
            Some(e) => string_views(e@),
            None => Seq::empty(),
        }),
        !resp.success ==> (r matches Err(m) && m@ == match resp.message {
            Some(m) => m@,
            None => "Failed to list environments"@,
        }),
{
    if !resp.success {
        return Err(
            match &resp.message {
                Some(m) => m.clone(),
                None => owned("Failed to list environments"),
            },
        );
    }
    let mut names: Vec<String> = Vec::new();
    match &resp.environments {
        Some(e) => {
            let mut i: usize = 0;
            while i < e.len()
                invariant
                    i <= e@.len(),
                    string_views(names@) =~= string_views(e@).take(i as int),
                decreases e@.len() - i,
            {
                let n = e[i].clone();
                let ghost before = names@;
                names.push(n);
                proof {
                    assert(string_views(names@) =~= string_views(before).push(n@));
                    assert(string_views(e@).take(i + 1) =~= string_views(e@).take(i as int).push(
                        n@,
                    ));
                }
                i = i + 1;
            }
            assert(string_views(e@).take(i as int) =~= string_views(e@));
        },
        None => {
            assert(string_views(names@) =~= Seq::<Seq<char>>::empty());
        },
    }
    Ok(names)
}

/// The variables of an answer to `shell-activation` for `env_name`, or its
/// error: the daemon's message, or `Environment '<name>' not found` when it
/// gave none. A key that repeats keeps its last value.
pub fn get_environment(resp: &SecretResponse, env_name: &str) -> (r: Result<Environment, String>)
    ensures
        resp.success ==> (r matches Ok(env) && env.wf() && env.map() == assoc(
            match resp.env_vars {
                Some(v) => string_pairs(v@),
                None => Seq::empty(),
            },
        )),
        !resp.success ==> (r matches Err(m) && m@ == match resp.message {
            Some(m) => m@,
            None => "Environment '"@ + env_name@ + "' not found"@,
        }),
{
    if !resp.success {
        return Err(
            match &resp.message {
                Some(m) => m.clone(),
                None => concat3("Environment '", env_name, "' not found"),
            },
        );
    }
    match &resp.env_vars {
        Some(v) => {
            let mut pairs: Vec<(String, String)> = Vec::new();
            let mut i: usize = 0;
            while i < v.len()
                invariant
                    i <= v@.len(),
                    string_pairs(pairs@) =~= string_pairs(v@).take(i as int),
                decreases v@.len() - i,
            {
                let k = v[i].0.clone();
                let x = v[i].1.clone();
                let ghost before = pairs@;
                pairs.push((k, x));
                proof {
                    assert(string_pairs(pairs@) =~= string_pairs(before).push((k@, x@)));
                    assert(string_pairs(v@).take(i + 1) =~= string_pairs(v@).take(i as int).push(
                        (k@, x@),
                    ));
                }
                i = i + 1;
            }
            assert(string_pairs(v@).take(i as int) =~= string_pairs(v@));
            Ok(Environment::from_pairs(pairs))
        },
        None => {
            let env = Environment::new();
            assert(env.map() =~= assoc(Seq::<(Seq<char>, Seq<char>)>::empty()));
            Ok(env)
        },
    }
}

} // verus!
