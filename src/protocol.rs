//! The request protocol: what a client asks, what the daemon answers, and the
//! decision taken for each request against the current store.

use vstd::prelude::*;
use crate::pairs::{string_pairs, string_views};
use crate::policy::{command_allowed, is_command_allowed};
use crate::store::Store;
use crate::text::{concat3, owned, str_equal};

verus! {

/// One client message.
pub struct SecretRequest {
    /// Who asks; informational only.
    pub client_id: String,
    /// The command to run, or one of the protocol's own commands.
    pub command: String,
    /// The environment meant; `dev` when absent.
    pub environment: Option<String>,
    /// The variables to save, for `save-environment`; where a key repeats,
    /// the last pair gives its value.
    pub variables: Option<Vec<(String, String)>>,
}

/// The answer to one request.
pub struct SecretResponse {
    pub success: bool,
    /// The variables released, in the environment's stable order.
    pub env_vars: Option<Vec<(String, String)>>,
    /// What went wrong, or what was done.
    pub message: Option<String>,
    /// The names of the known environments, in the store's stable order.
    pub environments: Option<Vec<String>>,
}

/// A response seen through the views of its fields.
pub struct ResponseView {
    pub success: bool,
    pub env_vars: Option<Seq<(Seq<char>, Seq<char>)>>,
    pub message: Option<Seq<char>>,
    pub environments: Option<Seq<Seq<char>>>,
}

impl View for SecretResponse {
    type V = ResponseView;

    open spec fn view(&self) -> ResponseView {
        ResponseView {
            success: self.success,
            env_vars: match self.env_vars {
                Some(v) => Some(string_pairs(v@)),
                None => None,
            },
            message: match self.message {
                Some(m) => Some(m@),
                None => None,
            },
            environments: match self.environments {
                Some(v) => Some(string_views(v@)),
                None => None,
            },
        }
    }
}

/// What the daemon does with a request.
pub enum Action {
    /// Answer at once.
    Reply(SecretResponse),
    /// Save `variables` as the environment `name`, then answer (see
    /// `save_reply`).
    Save { name: String, variables: Vec<(String, String)> },
}

/// The view of a response with these fields.
pub open spec fn response_view(
    success: bool,
    env_vars: Option<Seq<(Seq<char>, Seq<char>)>>,
    message: Option<Seq<char>>,
    environments: Option<Seq<Seq<char>>>,
) -> ResponseView {
    ResponseView { success, env_vars, message, environments }
}

/// The action is an immediate reply with the response `v`.
pub open spec fn replies(a: Action, v: ResponseView) -> bool {
    a matches Action::Reply(resp) && resp@ == v
}

/// The action is to save `variables` as the environment `name`.
pub open spec fn saves(a: Action, name: Seq<char>, variables: Vec<(String, String)>) -> bool {
    a matches Action::Save { name: n, variables: v } && n@ == name && v == variables
}

/// The environment a request means.
pub open spec fn requested_environment(req: SecretRequest) -> Seq<char> {
    match req.environment {
        Some(e) => e@,
        None => "dev"@,
    }
}

pub open spec fn not_found_message(name: Seq<char>) -> Seq<char> {
    "Environment '"@ + name + "' not found"@
}

pub open spec fn unauthorized_message(command: Seq<char>) -> Seq<char> {
    "Unauthorized command: "@ + command
}

pub open spec fn saved_message(name: Seq<char>) -> Seq<char> {
    "Environment '"@ + name + "' saved successfully"@
}

pub open spec fn save_failed_message(name: Seq<char>, reason: Seq<char>) -> Seq<char> {
    "Failed to save environment '"@ + name + "': "@ + reason
}

/// The response to a request whose payload did not parse.
pub fn invalid_request_reply() -> (r: SecretResponse)
    ensures
        r@ == response_view(false, None, Some("Invalid request format"@), None),
{
    SecretResponse {
        success: false,
        env_vars: None,
        message: Some(owned("Invalid request format")),
        environments: None,
    }
}

/// Decides what to do with `req` against `store`:
/// - `list-environments` lists the names;
/// - `save-environment` saves the variables given, and fails without them;
/// - any other command fails for an unknown environment, naming it and
///   listing the known ones;
/// - `shell-activation` gets every variable of the environment, whatever the
///   allowlist says;
/// - any other command gets them only when the allowlist allows it.
pub fn dispatch(store: &Store, req: SecretRequest) -> (r: Action)
    requires
        store.wf(),
    ensures
        req.command@ == "list-environments"@ ==> replies(
            r,
            response_view(true, None, None, Some(store.names())),
        ),
        req.command@ == "save-environment"@ && req.variables is Some ==> saves(
            r,
            requested_environment(req),
            req.variables->0,
        ),
        req.command@ == "save-environment"@ && req.variables is None ==> replies(
            r,
            response_view(false, None, Some("no variables provided"@), Some(store.names())),
        ),
        req.command@ != "list-environments"@ && req.command@ != "save-environment"@
            && !store.envs().contains_key(requested_environment(req)) ==> replies(
            r,
            response_view(false, None, Some(not_found_message(requested_environment(req))), Some(store.names())),
        ),
        req.command@ != "list-environments"@ && req.command@ != "save-environment"@
            && store.envs().contains_key(requested_environment(req)) && (req.command@
            == "shell-activation"@ || command_allowed(req.command@)) ==> replies(
            r,
            response_view(true, Some(store.envs()[requested_environment(req)]), None, Some(store.names())),
        ),
        req.command@ != "list-environments"@ && req.command@ != "save-environment"@
            && store.envs().contains_key(requested_environment(req)) && req.command@
            != "shell-activation"@ && !command_allowed(req.command@) ==> replies(
            r,
            response_view(false, None, Some(unauthorized_message(req.command@)), Some(store.names())),
        ),
{
    proof {
        reveal_strlit("list-environments");
        reveal_strlit("save-environment");
        reveal_strlit("");
    }
    if str_equal(req.command.as_str(), "list-environments") {
        return Action::Reply(
            SecretResponse {
                success: true,
                env_vars: None,
                message: None,
                environments: Some(store.list_names()),
            },
        );
    }
    let name = match req.environment {
        Some(e) => e,
        None => owned("dev"),
    };
    if str_equal(req.command.as_str(), "save-environment") {
        return match req.variables {
            Some(variables) => Action::Save { name, variables },
            None => Action::Reply(
                SecretResponse {
                    success: false,
                    env_vars: None,
                    message: Some(owned("no variables provided")),
                    environments: Some(store.list_names()),
                },
            ),
        };
    }
    match store.get(name.as_str()) {
        None => Action::Reply(
            SecretResponse {
                success: false,
                env_vars: None,
                message: Some(concat3("Environment '", name.as_str(), "' not found")),
                environments: Some(store.list_names()),
            },
        ),
        Some(env) => {
            if str_equal(req.command.as_str(), "shell-activation") || is_command_allowed(
                req.command.as_str(),
            ) {
                Action::Reply(
                    SecretResponse {
                        success: true,
                        env_vars: Some(env.to_pairs()),
                        message: None,
                        environments: Some(store.list_names()),
                    },
                )
            } else {
                let message = concat3("Unauthorized command: ", req.command.as_str(), "");
                assert(message@ =~= unauthorized_message(req.command@));
                Action::Reply(
                    SecretResponse {
                        success: false,
                        env_vars: None,
                        message: Some(message),
                        environments: Some(store.list_names()),
                    },
                )
            }
        },
    }
}

/// The response once a save of the environment `name` has been attempted:
/// `outcome` holds the reason of a failure. `store` is the store as it stands
/// afterwards.
pub fn save_reply(store: &Store, name: &str, outcome: Result<(), String>) -> (r: SecretResponse)
    ensures
        outcome is Ok ==> r@ == response_view(true, None, Some(saved_message(name@)), Some(store.names())),
        outcome matches Err(reason) ==> r@ == response_view(false, None, Some(save_failed_message(name@, reason@)), Some(store.names())),
{
    match outcome {
        Ok(()) => SecretResponse {
            success: true,
            env_vars: None,
            message: Some(concat3("Environment '", name, "' saved successfully")),
            environments: Some(store.list_names()),
        },
        Err(reason) => {
            let mut m = concat3("Failed to save environment '", name, "': ");
            m.append(reason.as_str());
            SecretResponse {
                success: false,
                env_vars: None,
                message: Some(m),
                environments: Some(store.list_names()),
            }
        },
    }
}

} // verus!
