//! `drop`: undoing `set`, for the environment set last.

use vstd::prelude::*;
use crate::commands::{failure_message, failure_text};
use crate::config::Config;
use crate::pairs::{string_pairs, string_views};
use crate::protocol::SecretResponse;
use crate::text::{concat3, owned};

verus! {

pub open spec fn nothing_to_drop_message() -> Seq<char> {
    "No environment was previously set. Nothing to drop."@
}

/// The lines that restore the shell prompt saved by `set`.
pub open spec fn prompt_restore_lines() -> Seq<Seq<char>> {
    seq![
        "if [ -n \"$VAULTWRAP_OLD_PS1\" ]; then"@,
        "    export PS1=\"$VAULTWRAP_OLD_PS1\""@,
        "    unset VAULTWRAP_OLD_PS1"@,
        "fi"@,
    ]
}

/// What `drop` does with the daemon's answer.
pub enum DropOutcome {
    /// Print these lines for the shell to evaluate, then forget the
    /// environment.
    Script(Vec<String>),
    /// Remove these variables from the process, then forget the environment.
    Unset(Vec<String>),
    /// The answer held no variables: nothing is done.
    NoVariables,
    /// The error to report.
    Failed(String),
}

/// The environment to drop: the one set last, or the error when none was.
pub fn previous_environment(config: &Config) -> (r: Result<String, String>)
    ensures
        config.last_set_env matches Some(e) ==> (r matches Ok(n) && n@ == e@),
        config.last_set_env is None ==> (r matches Err(m) && m@ == nothing_to_drop_message()),
{
    match &config.last_set_env {
        Some(e) => Ok(e.clone()),
        None => Err(owned("No environment was previously set. Nothing to drop.")),
    }
}

/// What `drop` does with the answer that lists the environment's variables:
/// a shell script that restores the prompt and unsets each of them, or the
/// variables to unset in the process itself.
pub fn run(resp: &SecretResponse, shell_output: bool) -> (r: DropOutcome)
    ensures
        !resp.success ==> (r matches DropOutcome::Failed(m) && m@ == failure_text(*resp)),
        resp.success && resp.env_vars is None ==> r is NoVariables,
        resp.success && shell_output && resp.env_vars is Some ==> (r matches DropOutcome::Script(
            lines,
        ) && string_views(lines@) == prompt_restore_lines().add(
            string_pairs(resp.env_vars->0@).map_values(
                |p: (Seq<char>, Seq<char>)| "unset "@ + p.0,
            ),
        )),
        resp.success && !shell_output && resp.env_vars is Some ==> (r matches DropOutcome::Unset(
            keys,
        ) && string_views(keys@) == string_pairs(resp.env_vars->0@).map_values(
            |p: (Seq<char>, Seq<char>)| p.0,
        )),
{
    if !resp.success {
        return DropOutcome::Failed(failure_message(resp));
    }
    let vars = match &resp.env_vars {
        Some(v) => v,
        None => {
            return DropOutcome::NoVariables;
        },
    };
    let ghost pairs = string_pairs(vars@);
    if shell_output {
        let mut lines: Vec<String> = Vec::new();
        lines.push(owned("if [ -n \"$VAULTWRAP_OLD_PS1\" ]; then"));
        lines.push(owned("    export PS1=\"$VAULTWRAP_OLD_PS1\""));
        lines.push(owned("    unset VAULTWRAP_OLD_PS1"));
        lines.push(owned("fi"));
        let ghost f = |p: (Seq<char>, Seq<char>)| "unset "@ + p.0;
        let mut i: usize = 0;
        while i < vars.len()
            invariant
                i <= vars@.len(),
                pairs == string_pairs(vars@),
                f == (|p: (Seq<char>, Seq<char>)| "unset "@ + p.0),
                string_views(lines@) =~= prompt_restore_lines().add(
                    pairs.take(i as int).map_values(f),
                ),
            decreases vars@.len() - i,
        {
            let line = concat3("unset ", vars[i].0.as_str(), "");
            proof {
                reveal_strlit("");
            }
            let ghost before = lines@;
            lines.push(line);
            proof {
                assert(line@ =~= "unset "@ + vars@[i as int].0@);
                assert(string_views(lines@) =~= string_views(before).push(line@));
                assert(pairs.take(i + 1).map_values(f) =~= pairs.take(i as int).map_values(
                    f,
                ).push(line@));
            }
            i = i + 1;
        }
        assert(pairs.take(i as int) =~= pairs);
        DropOutcome::Script(lines)
    } else {
        let mut keys: Vec<String> = Vec::new();
        let ghost f = |p: (Seq<char>, Seq<char>)| p.0;
        let mut i: usize = 0;
        while i < vars.len()
            invariant
                i <= vars@.len(),
                pairs == string_pairs(vars@),
                f == (|p: (Seq<char>, Seq<char>)| p.0),
                string_views(keys@) =~= pairs.take(i as int).map_values(f),
            decreases vars@.len() - i,
        {
            let k = vars[i].0.clone();
            let ghost before = keys@;
            keys.push(k);
            proof {
                assert(string_views(keys@) =~= string_views(before).push(k@));
                assert(pairs.take(i + 1).map_values(f) =~= pairs.take(i as int).map_values(
                    f,
                ).push(k@));
            }
            i = i + 1;
        }
        assert(pairs.take(i as int) =~= pairs);
        DropOutcome::Unset(keys)
    }
}

/// Forgets the environment set last, once it has been dropped; nothing else
/// changes.
pub fn forget_environment(config: &mut Config)
    ensures
        final(config).last_set_env is None,
        final(config).connections == old(config).connections,
        final(config).default == old(config).default,
        final(config).runtime_injection == old(config).runtime_injection,
{
    config.last_set_env = None;
}

} // verus!
