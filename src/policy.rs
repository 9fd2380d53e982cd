//! The fixed allowlist that decides which commands may receive secrets.

use vstd::prelude::*;
use crate::text::{has_prefix, starts_with, str_equal};

verus! {

/// A command is allowed when it is exactly `shell-activation`, or begins with
/// `echo ` (with the space), `python3` or `node`. The prefix tests are plain
/// character prefixes, not word matches: `nodexyz` is allowed too.
pub open spec fn command_allowed(command: Seq<char>) -> bool {
    ||| command == "shell-activation"@
    ||| has_prefix(command, "echo "@)
    ||| has_prefix(command, "python3"@)
    ||| has_prefix(command, "node"@)
}

/// Decides whether `command` may receive the variables of an environment.
pub fn is_command_allowed(command: &str) -> (r: bool)
    ensures
        r == command_allowed(command@),
{
    if str_equal(command, "shell-activation") {
        return true;
    }
    if starts_with(command, "echo ") {
        return true;
    }
    starts_with(command, "python3") || starts_with(command, "node")
}

} // verus!
