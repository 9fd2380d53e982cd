//! Runtime injection: the list of commands that get an environment injected
//! when run, and the switch that turns it on.

use vstd::prelude::*;
use crate::config::Config;
use crate::pairs::string_views;
use crate::text::{concat3, owned, str_equal};

verus! {

/// The items joined by `, `.
pub open spec fn joined(items: Seq<Seq<char>>) -> Seq<char>
    decreases items.len(),
{
    if items.len() == 0 {
        Seq::empty()
    } else if items.len() == 1 {
        items[0]
    } else {
        joined(items.drop_last()) + ", "@ + items.last()
    }
}

/// Everything but the runtime-injection part is as it was.
pub open spec fn same_but_runtime(a: Config, b: Config) -> bool {
    &&& a.connections == b.connections
    &&& a.default == b.default
    &&& a.last_set_env == b.last_set_env
}

/// The configured commands, joined by `, `.
pub fn join_commands(items: &Vec<String>) -> (r: String)
    ensures
        r@ == joined(string_views(items@)),
{
    let mut r = String::new();
    let mut i: usize = 0;
    while i < items.len()
        invariant
            i <= items@.len(),
            r@ == joined(string_views(items@).take(i as int)),
        decreases items@.len() - i,
    {
        let ghost t = string_views(items@).take(i + 1);
        assert(t.drop_last() =~= string_views(items@).take(i as int));
        if i > 0 {
            r.append(", ");
        } else {
            assert(t.len() == 1);
        }
        r.append(items[i].as_str());
        i = i + 1;
    }
    assert(string_views(items@).take(i as int) =~= string_views(items@));
    r
}

/// Turns runtime injection on, unless no command is configured; tells
/// whether it did.
pub fn enable(config: &mut Config) -> (r: bool)
    ensures
        r == (old(config).runtime_injection.commands@.len() > 0),
        same_but_runtime(*final(config), *old(config)),
        final(config).runtime_injection.commands == old(config).runtime_injection.commands,
        final(config).runtime_injection.enabled == (r || old(config).runtime_injection.enabled),
{
    if config.runtime_injection.commands.len() == 0 {
        return false;
    }
    config.runtime_injection.enabled = true;
    true
}

/// Turns runtime injection off.
pub fn disable(config: &mut Config)
    ensures
        same_but_runtime(*final(config), *old(config)),
        final(config).runtime_injection.commands == old(config).runtime_injection.commands,
        !final(config).runtime_injection.enabled,
{
    config.runtime_injection.enabled = false;
}

/// Adds `command` to the list unless it is there already; tells whether it
/// was added.
pub fn add_command(config: &mut Config, command: String) -> (r: bool)
    ensures
        r == !string_views(old(config).runtime_injection.commands@).contains(command@),
        same_but_runtime(*final(config), *old(config)),
        final(config).runtime_injection.enabled == old(config).runtime_injection.enabled,
        r ==> final(config).runtime_injection.commands@ == old(
            config,
        ).runtime_injection.commands@.push(command),
        !r ==> final(config).runtime_injection.commands == old(config).runtime_injection.commands,
{
    let mut i: usize = 0;
    while i < config.runtime_injection.commands.len()
        invariant
            i <= config.runtime_injection.commands@.len(),
            *config == *old(config),
            forall|j: int| 0 <= j < i ==> config.runtime_injection.commands@[j]@ != command@,
        decreases config.runtime_injection.commands@.len() - i,
    {
        if config.runtime_injection.commands[i] == command {
            assert(string_views(config.runtime_injection.commands@)[i as int] == command@);
            return false;
        }
        i = i + 1;
    }
    assert(!string_views(config.runtime_injection.commands@).contains(command@)) by {
        if string_views(config.runtime_injection.commands@).contains(command@) {
            let j = choose|j: int|
                0 <= j < string_views(config.runtime_injection.commands@).len() && string_views(
                    config.runtime_injection.commands@,
                )[j] == command@;
            assert(config.runtime_injection.commands@[j]@ == command@);
        }
    }
    config.runtime_injection.commands.push(command);
    true
}

/// What removing a command did.
pub enum RemoveOutcome {
    /// The command was not in the list; nothing changed.
    NotListed,
    /// The command was removed; when that emptied the list, runtime injection
    /// was also switched off (`auto_disabled` tells whether it had been on).
    Removed { auto_disabled: bool },
}

/// Removes the first occurrence of `command` from the list; when the list
/// becomes empty, switches runtime injection off.
pub fn remove_command(config: &mut Config, command: &str) -> (r: RemoveOutcome)
    ensures
        same_but_runtime(*final(config), *old(config)),
        r is NotListed <==> !string_views(old(config).runtime_injection.commands@).contains(
            command@,
        ),
        r is NotListed ==> *final(config) == *old(config),
        r matches RemoveOutcome::Removed { auto_disabled } ==> {
            &&& exists|i: int|
                0 <= i < old(config).runtime_injection.commands@.len()
                    && old(config).runtime_injection.commands@[i]@ == command@ && (forall|j: int|
                    0 <= j < i ==> old(config).runtime_injection.commands@[j]@ != command@)
                    && final(config).runtime_injection.commands@ == old(
                    config,
                ).runtime_injection.commands@.remove(i)
            &&& auto_disabled == (final(config).runtime_injection.commands@.len() == 0 && old(
                config,
            ).runtime_injection.enabled)
            &&& final(config).runtime_injection.enabled == (old(config).runtime_injection.enabled
                && !auto_disabled)
        },
{
    let mut i: usize = 0;
    while i < config.runtime_injection.commands.len()
        invariant
            i <= config.runtime_injection.commands@.len(),
            *config == *old(config),
            forall|j: int| 0 <= j < i ==> config.runtime_injection.commands@[j]@ != command@,
        decreases config.runtime_injection.commands@.len() - i,
    {
        if str_equal(config.runtime_injection.commands[i].as_str(), command) {
            assert(string_views(config.runtime_injection.commands@)[i as int] == command@);
            config.runtime_injection.commands.remove(i);
            let auto_disabled = config.runtime_injection.commands.len() == 0
                && config.runtime_injection.enabled;
            if auto_disabled {
                config.runtime_injection.enabled = false;
            }
            return RemoveOutcome::Removed { auto_disabled };
        }
        i = i + 1;
    }
    assert(!string_views(config.runtime_injection.commands@).contains(command@)) by {
        if string_views(config.runtime_injection.commands@).contains(command@) {
            let j = choose|j: int|
                0 <= j < string_views(config.runtime_injection.commands@).len() && string_views(
                    config.runtime_injection.commands@,
                )[j] == command@;
            assert(config.runtime_injection.commands@[j]@ == command@);
        }
    }
    RemoveOutcome::NotListed
}

/// The lines of the status report.
pub open spec fn status_lines(config: Config) -> Seq<Seq<char>> {
    let commands = string_views(config.runtime_injection.commands@);
    let injection = if config.runtime_injection.enabled {
        seq![
            "Runtime injection: ENABLED"@,
            if commands.len() == 0 {
                "Intercepted commands: None (this shouldn't happen)"@
            } else {
                "Intercepted commands: "@ + joined(commands)
            },
            match config.last_set_env {
                Some(env) => "Current environment: "@ + env@,
                None => "Current environment: None"@,
            },
        ]
    } else {
        seq![
            "Runtime injection: DISABLED"@,
            if commands.len() == 0 {
                "No commands configured for runtime injection."@
            } else {
                "Configured commands: "@ + joined(commands)
            },
        ]
    };
    injection.push(
        match config.default {
            Some(d) => "Default connection: "@ + d@,
            None => "Default connection: None"@,
        },
    )
}

/// The status report: whether runtime injection is on, for which commands,
/// the current environment and the default connection.
pub fn status(config: &Config) -> (r: Vec<String>)
    ensures
        string_views(r@) == status_lines(*config),
{
    let mut lines: Vec<String> = Vec::new();
    let commands = join_commands(&config.runtime_injection.commands);
    let none = config.runtime_injection.commands.len() == 0;
    if config.runtime_injection.enabled {
        lines.push(owned("Runtime injection: ENABLED"));
        if none {
            lines.push(owned("Intercepted commands: None (this shouldn't happen)"));
        } else {
            lines.push(concat3("Intercepted commands: ", commands.as_str(), ""));
        }
        match &config.last_set_env {
            Some(env) => lines.push(concat3("Current environment: ", env.as_str(), "")),
            None => lines.push(owned("Current environment: None")),
        }
    } else {
        lines.push(owned("Runtime injection: DISABLED"));
        if none {
            lines.push(owned("No commands configured for runtime injection."));
        } else {
            lines.push(concat3("Configured commands: ", commands.as_str(), ""));
        }
    }
    match &config.default {
        Some(d) => lines.push(concat3("Default connection: ", d.as_str(), "")),
        None => lines.push(owned("Default connection: None")),
    }
    proof {
        reveal_strlit("");
    }
    assert(string_views(lines@) =~= status_lines(*config));
    lines
}

} // verus!
