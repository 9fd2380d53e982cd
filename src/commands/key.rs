//! Key-level edits of an environment: the client fetches the whole
//! environment, edits it here, and saves it back whole.

use vstd::prelude::*;
use crate::commands::{failure_message, failure_text, KeySub};
use crate::environment::Environment;
use crate::pairs::{assoc, clone_pairs, keys_distinct, string_pairs};
use crate::protocol::{SecretRequest, SecretResponse};
use crate::text::{concat3, owned};

verus! {

pub open spec fn key_added_message(key: Seq<char>, env: Seq<char>) -> Seq<char> {
    "Key '"@ + key + "' added to environment '"@ + env + "'."@
}

pub open spec fn key_deleted_message(key: Seq<char>, env: Seq<char>) -> Seq<char> {
    "Key '"@ + key + "' deleted from environment '"@ + env + "'."@
}

pub open spec fn key_updated_message(
    old_key: Seq<char>,
    new_key: Seq<char>,
    new_value: Seq<char>,
    env: Seq<char>,
) -> Seq<char> {
    "Key '"@ + old_key + "' updated to '"@ + new_key + "' = '"@ + new_value + "' in environment '"@
        + env + "'."@
}

pub open spec fn key_missing_message(key: Seq<char>, env: Seq<char>) -> Seq<char> {
    "Key '"@ + key + "' not found in environment '"@ + env + "'."@
}

/// The request that fetches every variable of `env`.
pub fn fetch_request(env: &str) -> (r: SecretRequest)
    ensures
        r.client_id@ == "vaultwrap-cli"@,
        r.command@ == "shell-activation"@,
        r.environment matches Some(e) && e@ == env@,
        r.variables is None,
{
    SecretRequest {
        client_id: owned("vaultwrap-cli"),
        command: owned("shell-activation"),
        environment: Some(owned(env)),
        variables: None,
    }
}

/// The request that saves `vars` as the whole of `env`.
pub fn save_request(env: &str, vars: &Environment) -> (r: SecretRequest)
    ensures
        r.client_id@ == "vaultwrap-cli"@,
        r.command@ == "save-environment"@,
        r.environment matches Some(e) && e@ == env@,
        r.variables matches Some(v) && string_pairs(v@) == vars@,
{
    SecretRequest {
        client_id: owned("vaultwrap-cli"),
        command: owned("save-environment"),
        environment: Some(owned(env)),
        variables: Some(vars.to_pairs()),
    }
}

/// Sets `key` to `value`, adding it if it is new.
pub fn add_key(vars: &mut Environment, key: String, value: String)
    requires
        old(vars).wf(),
    ensures
        final(vars).wf(),
        final(vars).map() == old(vars).map().insert(key@, value@),
{
    vars.insert(key, value);
}

/// Removes `key`; tells whether it was there.
pub fn delete_key(vars: &mut Environment, key: &str) -> (r: bool)
    requires
        old(vars).wf(),
    ensures
        final(vars).wf(),
        r == old(vars).map().contains_key(key@),
        final(vars).map() == old(vars).map().remove(key@),
{
    vars.remove(key)
}

/// Replaces `old_key` by `new_key` with `new_value`, if `old_key` is there;
/// otherwise changes nothing. Tells whether `old_key` was there.
pub fn update_key(vars: &mut Environment, old_key: &str, new_key: String, new_value: String) -> (r:
    bool)
    requires
        old(vars).wf(),
    ensures
        final(vars).wf(),
        r == old(vars).map().contains_key(old_key@),
        r ==> final(vars).map() == old(vars).map().remove(old_key@).insert(new_key@, new_value@),
        !r ==> final(vars).map() == old(vars).map(),
{
    if vars.remove(old_key) {
        vars.insert(new_key, new_value);
        true
    } else {
        assert(old(vars).map().remove(old_key@) =~= old(vars).map());
        false
    }
}

/// Applies a `key` subcommand to the fetched variables of its environment.
/// Gives the line to print once the result is saved, or the error to report
/// (a missing key), in which case nothing is to be saved.
pub fn run(sub: &KeySub, vars: &mut Environment) -> (r: Result<String, String>)
    requires
        old(vars).wf(),
    ensures
        final(vars).wf(),
        match *sub {
            KeySub::Add { env, key, value } => {
                &&& r matches Ok(m) && m@ == key_added_message(key@, env@)
                &&& final(vars).map() == old(vars).map().insert(key@, value@)
            },
            KeySub::Delete { env, key } => if old(vars).map().contains_key(key@) {
                &&& r matches Ok(m) && m@ == key_deleted_message(key@, env@)
                &&& final(vars).map() == old(vars).map().remove(key@)
            } else {
                &&& r matches Err(m) && m@ == key_missing_message(key@, env@)
                &&& final(vars).map() == old(vars).map()
            },
            KeySub::Update { env, old_key, new_key, new_value } => if old(vars).map().contains_key(
                old_key@,
            ) {
                &&& r matches Ok(m) && m@ == key_updated_message(
                    old_key@,
                    new_key@,
                    new_value@,
                    env@,
                )
                &&& final(vars).map() == old(vars).map().remove(old_key@).insert(
                    new_key@,
                    new_value@,
                )
            } else {
                &&& r matches Err(m) && m@ == key_missing_message(old_key@, env@)
                &&& final(vars).map() == old(vars).map()
            },
        },
{
    match sub {
        KeySub::Add { env, key, value } => {
            add_key(vars, key.clone(), value.clone());
            let mut m = owned("Key '");
            m.append(key.as_str());
            m.append("' added to environment '");
            m.append(env.as_str());
            m.append("'.");
            Ok(m)
        },
        KeySub::Delete { env, key } => {
            let found = delete_key(vars, key.as_str());
            let mut m = owned("Key '");
            m.append(key.as_str());
            if found {
                m.append("' deleted from environment '");
            } else {
                assert(old(vars).map().remove(key@) =~= old(vars).map());
                m.append("' not found in environment '");
            }
            m.append(env.as_str());
            m.append("'.");
            if found {
                Ok(m)
            } else {
                Err(m)
            }
        },
        KeySub::Update { env, old_key, new_key, new_value } => {
            let found = update_key(vars, old_key.as_str(), new_key.clone(), new_value.clone());
            let mut m = owned("Key '");
            m.append(old_key.as_str());
            if found {
                m.append("' updated to '");
                m.append(new_key.as_str());
                m.append("' = '");
                m.append(new_value.as_str());
                m.append("' in environment '");
            } else {
                m.append("' not found in environment '");
            }
            m.append(env.as_str());
            m.append("'.");
            if found {
                Ok(m)
            } else {
                Err(m)
            }
        },
    }
}

/// The environment a `key` subcommand edits.
pub open spec fn key_env(sub: KeySub) -> Seq<char> {
    match sub {
        KeySub::Add { env, .. } => env@,
        KeySub::Delete { env, .. } => env@,
        KeySub::Update { env, .. } => env@,
    }
}

/// The subcommand can be applied to the variables `m`: the key it deletes or
/// renames is there.
pub open spec fn applies(sub: KeySub, m: Map<Seq<char>, Seq<char>>) -> bool {
    match sub {
        KeySub::Add { .. } => true,
        KeySub::Delete { key, .. } => m.contains_key(key@),
        KeySub::Update { old_key, .. } => m.contains_key(old_key@),
    }
}

/// The variables after the subcommand is applied to `m`.
pub open spec fn edited(sub: KeySub, m: Map<Seq<char>, Seq<char>>) -> Map<Seq<char>, Seq<char>> {
    match sub {
        KeySub::Add { key, value, .. } => m.insert(key@, value@),
        KeySub::Delete { key, .. } => m.remove(key@),
        KeySub::Update { old_key, new_key, new_value, .. } => m.remove(old_key@).insert(
            new_key@,
            new_value@,
        ),
    }
}

/// The line printed once the edited environment is saved.
pub open spec fn done_message(sub: KeySub) -> Seq<char> {
    match sub {
        KeySub::Add { env, key, .. } => key_added_message(key@, env@),
        KeySub::Delete { env, key } => key_deleted_message(key@, env@),
        KeySub::Update { env, old_key, new_key, new_value } => key_updated_message(
            old_key@,
            new_key@,
            new_value@,
            env@,
        ),
    }
}

/// The error reported when the subcommand cannot be applied.
pub open spec fn missing_message(sub: KeySub) -> Seq<char> {
    match sub {
        KeySub::Add { env, key, .. } => key_missing_message(key@, env@),
        KeySub::Delete { env, key } => key_missing_message(key@, env@),
        KeySub::Update { env, old_key, .. } => key_missing_message(old_key@, env@),
    }
}

/// The variables that an answer to the fetch request lists.
pub open spec fn fetched_pairs(resp: SecretResponse) -> Seq<(Seq<char>, Seq<char>)> {
    match resp.env_vars {
        Some(v) => string_pairs(v@),
        None => Seq::empty(),
    }
}

/// `req` saves exactly the variables `m` as the environment `env`.
pub open spec fn saves_variables(req: SecretRequest, env: Seq<char>, m: Map<Seq<char>, Seq<char>>) -> bool {
    &&& req.client_id@ == "vaultwrap-cli"@
    &&& req.command@ == "save-environment"@
    &&& req.environment matches Some(e) && e@ == env
    &&& req.variables matches Some(v) && keys_distinct(string_pairs(v@)) && assoc(
        string_pairs(v@),
    ) == m
}

/// The step between fetching an environment and saving it back: given the
/// answer to the fetch request, either the save request to send with the line
/// to print once it succeeds, or the error to report (a failed fetch, or a
/// missing key), in which case nothing is saved.
pub fn key_flow(sub: &KeySub, fetched: &SecretResponse) -> (r: Result<(SecretRequest, String), String>)
    ensures
        !fetched.success ==> (r matches Err(m) && m@ == "Error fetching environment '"@ + key_env(
            *sub,
        ) + "': "@ + failure_text(*fetched)),
        fetched.success && !applies(*sub, assoc(fetched_pairs(*fetched))) ==> (r matches Err(m)
            && m@ == missing_message(*sub)),
        fetched.success && applies(*sub, assoc(fetched_pairs(*fetched))) ==> (r matches Ok(p)
            && p.1@ == done_message(*sub) && saves_variables(
            p.0,
            key_env(*sub),
            edited(*sub, assoc(fetched_pairs(*fetched))),
        )),
{
    let env = match sub {
        KeySub::Add { env, .. } => env,
        KeySub::Delete { env, .. } => env,
        KeySub::Update { env, .. } => env,
    };
    if !fetched.success {
        let mut m = concat3("Error fetching environment '", env.as_str(), "': ");
        let reason = failure_message(fetched);
        m.append(reason.as_str());
        return Err(m);
    }
    let pairs = match &fetched.env_vars {
        Some(v) => clone_pairs(v),
        None => Vec::new(),
    };
    assert(string_pairs(pairs@) =~= fetched_pairs(*fetched));
    let mut vars = Environment::from_pairs(pairs);
    match run(sub, &mut vars) {
        Ok(done) => {
            let req = save_request(env.as_str(), &vars);
            Ok((req, done))
        },
        Err(m) => Err(m),
    }
}

/// What the client reports once the save request is answered: the line
/// prepared by `key_flow`, or the daemon's error.
pub fn save_outcome(saved: &SecretResponse, done: String) -> (r: Result<String, String>)
    ensures
        saved.success ==> r == Ok::<String, String>(done),
        !saved.success ==> (r matches Err(m) && m@ == "Error: "@ + failure_text(*saved)),
{
    if saved.success {
        Ok(done)
    } else {
        let reason = failure_message(saved);
        let m = concat3("Error: ", reason.as_str(), "");
        proof {
            reveal_strlit("");
        }
        assert(m@ =~= "Error: "@ + failure_text(*saved));
        Err(m)
    }
}

} // verus!
