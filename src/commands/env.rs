//! `env` subcommands: which request each sends, and what its answer prints.

use vstd::prelude::*;
use crate::commands::EnvSub;
use crate::commands::{failure_message, failure_text};
use crate::pairs::{string_pairs, string_views};
use crate::protocol::{SecretRequest, SecretResponse};
use crate::text::{concat3, owned};

verus! {

/// The daemon command that an `env` subcommand sends.
pub open spec fn env_command(sub: EnvSub) -> Seq<char> {
    match sub {
        EnvSub::List => "list-environments"@,
        EnvSub::Add { .. } => "create-environment"@,
        EnvSub::Delete { .. } => "delete-environment"@,
        EnvSub::Keys { .. } => "shell-activation"@,
    }
}

/// The environment that an `env` subcommand names, if any.
pub open spec fn env_target(sub: EnvSub) -> Option<Seq<char>> {
    match sub {
        EnvSub::List => None,
        EnvSub::Add { env } => Some(env@),
        EnvSub::Delete { env } => Some(env@),
        EnvSub::Keys { env } => Some(env@),
    }
}

/// The request that an `env` subcommand sends.
pub fn run(sub: &EnvSub) -> (r: SecretRequest)
    ensures
        r.client_id@ == "vaultwrap-cli"@,
        r.command@ == env_command(*sub),
        env_target(*sub) is None ==> r.environment is None,
        env_target(*sub) matches Some(t) ==> r.environment matches Some(e) && e@ == t,
        r.variables is None,
{
    let (command, environment) = match sub {
        EnvSub::List => (owned("list-environments"), None),
        EnvSub::Add { env } => (owned("create-environment"), Some(env.clone())),
        EnvSub::Delete { env } => (owned("delete-environment"), Some(env.clone())),
        EnvSub::Keys { env } => (owned("shell-activation"), Some(env.clone())),
    };
    SecretRequest { client_id: owned("vaultwrap-cli"), command, environment, variables: None }
}

/// Each name on a line of its own, indented by two spaces.
pub open spec fn indented(names: Seq<Seq<char>>) -> Seq<Seq<char>> {
    names.map_values(|n: Seq<char>| "  "@ + n)
}

/// Each variable as `  key = value`.
pub open spec fn key_lines(vars: Seq<(Seq<char>, Seq<char>)>) -> Seq<Seq<char>> {
    vars.map_values(|p: (Seq<char>, Seq<char>)| "  "@ + p.0 + " = "@ + p.1)
}

/// The lines an `env` subcommand prints for the daemon's answer, or the
/// error to report when the answer is a failure.
pub fn report(sub: &EnvSub, resp: &SecretResponse) -> (r: Result<Vec<String>, String>)
    ensures
        !resp.success ==> (r matches Err(m) && m@ == failure_text(*resp)),
        resp.success ==> r is Ok,
        r matches Ok(lines) ==> match *sub {
            EnvSub::List => match resp.environments {
                Some(names) => string_views(lines@) == seq!["Environments:"@].add(
                    indented(string_views(names@)),
                ),
                None => string_views(lines@) == seq!["No environments found."@],
            },
            EnvSub::Add { env } => string_views(lines@) == seq![
                "Environment '"@ + env@ + "' created successfully."@,
            ],
            EnvSub::Delete { env } => string_views(lines@) == seq![
                "Environment '"@ + env@ + "' deleted successfully."@,
            ],
            EnvSub::Keys { env } => match resp.env_vars {
                Some(vars) => string_views(lines@) == seq![
                    "Keys in environment '"@ + env@ + "':"@,
                ].add(key_lines(string_pairs(vars@))),
                None => string_views(lines@) == seq![
                    "No keys found in environment '"@ + env@ + "'."@,
                ],
            },
        },
{
    if !resp.success {
        return Err(failure_message(resp));
    }
    let mut lines: Vec<String> = Vec::new();
    match sub {
        EnvSub::List => match &resp.environments {
            Some(names) => {
                lines.push(owned("Environments:"));
                let mut i: usize = 0;
                while i < names.len()
                    invariant
                        i <= names@.len(),
                        string_views(lines@) =~= seq!["Environments:"@].add(
                            indented(string_views(names@).take(i as int)),
                        ),
                    decreases names@.len() - i,
                {
                    let line = concat3("  ", names[i].as_str(), "");
                    proof {
                        reveal_strlit("");
                        assert(line@ =~= "  "@ + names@[i as int]@);
                        assert(string_views(names@).take(i + 1) =~= string_views(names@).take(
                            i as int,
                        ).push(names@[i as int]@));
                    }
                    let ghost before = lines@;
                    lines.push(line);
                    proof {
                        let t = string_views(names@).take(i as int);
                        assert(string_views(lines@) =~= string_views(before).push(line@));
                        assert(indented(t.push(names@[i as int]@)) =~= indented(t).push(line@));
                    }
                    i = i + 1;
                }
                assert(string_views(names@).take(i as int) =~= string_views(names@));
            },
            None => {
                lines.push(owned("No environments found."));
            },
        },
        EnvSub::Add { env } => {
            lines.push(concat3("Environment '", env.as_str(), "' created successfully."));
        },
        EnvSub::Delete { env } => {
            lines.push(concat3("Environment '", env.as_str(), "' deleted successfully."));
        },
        EnvSub::Keys { env } => match &resp.env_vars {
            Some(vars) => {
                lines.push(concat3("Keys in environment '", env.as_str(), "':"));
                let mut i: usize = 0;
                while i < vars.len()
                    invariant
                        i <= vars@.len(),
                        string_views(lines@) =~= seq!["Keys in environment '"@ + env@ + "':"@].add(
                            key_lines(string_pairs(vars@).take(i as int)),
                        ),
                    decreases vars@.len() - i,
                {
                    let mut line = concat3("  ", vars[i].0.as_str(), " = ");
                    line.append(vars[i].1.as_str());
                    proof {
                        assert(string_pairs(vars@).take(i + 1) =~= string_pairs(vars@).take(
                            i as int,
                        ).push((vars@[i as int].0@, vars@[i as int].1@)));
                    }
                    let ghost before = lines@;
                    lines.push(line);
                    proof {
                        let t = string_pairs(vars@).take(i as int);
                        let p = (vars@[i as int].0@, vars@[i as int].1@);
                        assert(string_views(lines@) =~= string_views(before).push(line@));
                        assert(key_lines(t.push(p)) =~= key_lines(t).push(line@));
                    }
                    i = i + 1;
                }
                assert(string_pairs(vars@).take(i as int) =~= string_pairs(vars@));
            },
            None => {
                lines.push(concat3("No keys found in environment '", env.as_str(), "'."));
            },
        },
    }
    Ok(lines)
}

} // verus!
