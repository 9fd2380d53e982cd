//! The decisions behind the command-line client's subcommands. Each turns its
//! arguments (and what the daemon answered) into the request to send, the
//! change to make, or the lines to print; sending and printing are the
//! caller's.

use vstd::prelude::*;
use crate::protocol::SecretResponse;
use crate::text::owned;

pub mod env;
pub mod key;
pub mod runtime;
pub mod connections;
pub mod set;
pub mod drop;

verus! {

/// `env` subcommands.
pub enum EnvSub {
    List,
    Add { env: String },
    Delete { env: String },
    Keys { env: String },
}

/// `key` subcommands.
pub enum KeySub {
    Add { env: String, key: String, value: String },
    Delete { env: String, key: String },
    Update { env: String, old_key: String, new_key: String, new_value: String },
}

/// `connections` subcommands.
pub enum ConnectionsSub {
    List,
    Use { name: String },
    Remove { name: String },
    Show,
}

/// What the client reports for a failed answer: the daemon's message, or
/// `Unknown error` when it gave none.
pub open spec fn failure_text(resp: SecretResponse) -> Seq<char> {
    match resp.message {
        Some(m) => m@,
        None => "Unknown error"@,
    }
}

/// The message of a failed answer (see `failure_text`).
pub fn failure_message(resp: &SecretResponse) -> (r: String)
    ensures
        r@ == failure_text(*resp),
{
    match &resp.message {
        Some(m) => m.clone(),
        None => owned("Unknown error"),
    }
}

} // verus!
