use vaultd::commands::connections::{
    self, connect, decimal, parse_port, remove_connection, split_address, use_connection,
    ConnectionsOutcome,
};
use vaultd::commands::drop::{forget_environment, previous_environment, DropOutcome};
use vaultd::commands::key::{
    self, add_key, delete_key, fetch_request, key_flow, save_outcome, save_request, update_key,
};
use vaultd::commands::runtime::{
    add_command, disable, enable, join_commands, remove_command, status, RemoveOutcome,
};
use vaultd::commands::set::{export_line, quote_value};
use vaultd::commands::{failure_message, ConnectionsSub, EnvSub, KeySub};
use vaultd::config::{default_address, Config};
use vaultd::environment::Environment;
use vaultd::gui::{get_environment, list_environments, network_error, prepare_request, ServerConfig};
use vaultd::protocol::SecretResponse;

fn s(x: &str) -> String {
    x.to_string()
}

fn env_of(pairs: &[(&str, &str)]) -> Environment {
    Environment::from_pairs(pairs.iter().map(|(k, v)| (s(k), s(v))).collect())
}

fn ok_response(env_vars: Option<Vec<(String, String)>>, environments: Option<Vec<String>>) -> SecretResponse {
    SecretResponse { success: true, env_vars, message: None, environments }
}

fn failed_response(message: Option<&str>) -> SecretResponse {
    SecretResponse { success: false, env_vars: None, message: message.map(s), environments: None }
}

#[test]
fn key_add_update_delete() {
    let mut vars = env_of(&[("A", "1")]);
    let r = key::run(&KeySub::Add { env: s("dev"), key: s("B"), value: s("2") }, &mut vars);
    assert_eq!(r, Ok(s("Key 'B' added to environment 'dev'.")));
    assert_eq!(vars.get("B"), Some(&s("2")));
    let r = key::run(
        &KeySub::Update { env: s("dev"), old_key: s("A"), new_key: s("C"), new_value: s("3") },
        &mut vars,
    );
    assert_eq!(r, Ok(s("Key 'A' updated to 'C' = '3' in environment 'dev'.")));
    assert_eq!(vars.get("A"), None);
    assert_eq!(vars.get("C"), Some(&s("3")));
    let r = key::run(&KeySub::Delete { env: s("dev"), key: s("B") }, &mut vars);
    assert_eq!(r, Ok(s("Key 'B' deleted from environment 'dev'.")));
    assert_eq!(vars.to_pairs(), vec![(s("C"), s("3"))]);
}

#[test]
fn key_missing_is_an_error() {
    let mut vars = env_of(&[("A", "1")]);
    let r = key::run(&KeySub::Delete { env: s("dev"), key: s("Z") }, &mut vars);
    assert_eq!(r, Err(s("Key 'Z' not found in environment 'dev'.")));
    let r = key::run(
        &KeySub::Update { env: s("dev"), old_key: s("Z"), new_key: s("Y"), new_value: s("v") },
        &mut vars,
    );
    assert_eq!(r, Err(s("Key 'Z' not found in environment 'dev'.")));
    assert_eq!(vars.to_pairs(), vec![(s("A"), s("1"))]);
}

#[test]
fn key_helpers() {
    let mut vars = Environment::new();
    add_key(&mut vars, s("K"), s("V"));
    assert!(update_key(&mut vars, "K", s("K2"), s("V2")));
    assert!(!delete_key(&mut vars, "K"));
    assert!(delete_key(&mut vars, "K2"));
    assert_eq!(vars.len(), 0);
}

#[test]
fn key_requests() {
    let r = fetch_request("dev");
    assert_eq!(r.client_id, "vaultwrap-cli");
    assert_eq!(r.command, "shell-activation");
    assert_eq!(r.environment, Some(s("dev")));
    assert!(r.variables.is_none());
    let r = save_request("dev", &env_of(&[("A", "1")]));
    assert_eq!(r.command, "save-environment");
    assert_eq!(r.variables, Some(vec![(s("A"), s("1"))]));
}

#[test]
fn env_requests() {
    let r = vaultd::commands::env::run(&EnvSub::List);
    assert_eq!(r.command, "list-environments");
    assert!(r.environment.is_none());
    let r = vaultd::commands::env::run(&EnvSub::Add { env: s("qa") });
    assert_eq!(r.command, "create-environment");
    assert_eq!(r.environment, Some(s("qa")));
    let r = vaultd::commands::env::run(&EnvSub::Delete { env: s("qa") });
    assert_eq!(r.command, "delete-environment");
    let r = vaultd::commands::env::run(&EnvSub::Keys { env: s("qa") });
    assert_eq!(r.command, "shell-activation");
}

#[test]
fn env_reports() {
    let r = vaultd::commands::env::report(&EnvSub::List, &ok_response(None, Some(vec![s("dev"), s("prod")])));
    assert_eq!(r, Ok(vec![s("Environments:"), s("  dev"), s("  prod")]));
    let r = vaultd::commands::env::report(&EnvSub::List, &ok_response(None, None));
    assert_eq!(r, Ok(vec![s("No environments found.")]));
    let r = vaultd::commands::env::report(&EnvSub::Keys { env: s("dev") }, &ok_response(Some(vec![(s("A"), s("1"))]), None));
    assert_eq!(r, Ok(vec![s("Keys in environment 'dev':"), s("  A = 1")]));
    let r = vaultd::commands::env::report(&EnvSub::Keys { env: s("dev") }, &ok_response(None, None));
    assert_eq!(r, Ok(vec![s("No keys found in environment 'dev'.")]));
    let r = vaultd::commands::env::report(&EnvSub::Add { env: s("qa") }, &ok_response(None, None));
    assert_eq!(r, Ok(vec![s("Environment 'qa' created successfully.")]));
    let r = vaultd::commands::env::report(&EnvSub::Delete { env: s("qa") }, &failed_response(Some("nope")));
    assert_eq!(r, Err(s("nope")));
    let r = vaultd::commands::env::report(&EnvSub::Delete { env: s("qa") }, &failed_response(None));
    assert_eq!(r, Err(s("Unknown error")));
    assert_eq!(failure_message(&failed_response(None)), "Unknown error");
}

#[test]
fn runtime_commands() {
    let mut c = Config::default();
    assert!(!enable(&mut c));
    assert!(!c.runtime_injection.enabled);
    assert!(add_command(&mut c, s("cargo")));
    assert!(!add_command(&mut c, s("cargo")));
    assert!(add_command(&mut c, s("npm")));
    assert_eq!(join_commands(&c.runtime_injection.commands), "cargo, npm");
    assert!(enable(&mut c));
    assert!(c.runtime_injection.enabled);
    assert!(matches!(remove_command(&mut c, "make"), RemoveOutcome::NotListed));
    assert!(matches!(remove_command(&mut c, "cargo"), RemoveOutcome::Removed { auto_disabled: false }));
    assert!(c.runtime_injection.enabled);
    assert!(matches!(remove_command(&mut c, "npm"), RemoveOutcome::Removed { auto_disabled: true }));
    assert!(!c.runtime_injection.enabled);
    add_command(&mut c, s("x"));
    enable(&mut c);
    disable(&mut c);
    assert!(!c.runtime_injection.enabled);
}

#[test]
fn runtime_status_lines() {
    let mut c = Config::default();
    assert_eq!(
        status(&c),
        vec![
            s("Runtime injection: DISABLED"),
            s("No commands configured for runtime injection."),
            s("Default connection: None"),
        ]
    );
    add_command(&mut c, s("cargo"));
    add_command(&mut c, s("go"));
    enable(&mut c);
    c.last_set_env = Some(s("dev"));
    c.default = Some(s("home"));
    assert_eq!(
        status(&c),
        vec![
            s("Runtime injection: ENABLED"),
            s("Intercepted commands: cargo, go"),
            s("Current environment: dev"),
            s("Default connection: home"),
        ]
    );
}

#[test]
fn port_parsing() {
    assert_eq!(parse_port("4000"), Some(4000));
    assert_eq!(parse_port("+80"), Some(80));
    assert_eq!(parse_port("0065535"), Some(65535));
    assert_eq!(parse_port("65536"), None);
    assert_eq!(parse_port("99999999999"), None);
    assert_eq!(parse_port(""), None);
    assert_eq!(parse_port("+"), None);
    assert_eq!(parse_port("-1"), None);
    assert_eq!(parse_port("80a"), None);
    for p in ["0", "1", "443", "8080", "65535"] {
        assert_eq!(parse_port(p), p.parse::<u16>().ok());
    }
}

#[test]
fn address_splitting() {
    assert_eq!(split_address("example.com:9000"), (s("example.com"), 9000));
    assert_eq!(split_address("example.com"), (s("example.com"), 4000));
    assert_eq!(split_address("host:bad"), (s("host"), 4000));
    assert_eq!(split_address("a:1:2"), (s("a"), 4000));
    assert_eq!(split_address(":7"), (s(""), 7));
}

#[test]
fn decimal_text() {
    assert_eq!(decimal(0), "0");
    assert_eq!(decimal(7), "7");
    assert_eq!(decimal(4000), "4000");
    assert_eq!(decimal(65535), "65535");
}

#[test]
fn connect_and_default() {
    let mut c = Config::default();
    assert_eq!(default_address(&c), Err(s("No default connection set. Use 'vaultwrap connect' first.")));
    let n = connect(&mut c, "10.0.0.1:5000", None, None, None, false);
    assert_eq!(n, "default");
    assert_eq!(c.default, Some(s("default")));
    assert_eq!(default_address(&c), Ok((s("10.0.0.1"), 5000)));
    let n = connect(&mut c, "other", Some(s("u")), None, Some(s("work")), false);
    assert_eq!(n, "work");
    assert_eq!(c.default, Some(s("default")));
    connect(&mut c, "other2", None, None, Some(s("work")), true);
    assert_eq!(c.default, Some(s("work")));
    assert_eq!(default_address(&c), Ok((s("other2"), 4000)));
    assert_eq!(c.connections.len(), 2);
    c.default = Some(s("gone"));
    assert_eq!(default_address(&c), Err(s("Default connection 'gone' not found in config.")));
}

#[test]
fn use_and_remove_connections() {
    let mut c = Config::default();
    connect(&mut c, "a:1", None, None, Some(s("a")), false);
    connect(&mut c, "b:2", None, None, Some(s("b")), false);
    assert!(!use_connection(&mut c, "zzz"));
    assert!(use_connection(&mut c, "b"));
    assert_eq!(c.default, Some(s("b")));
    assert!(remove_connection(&mut c, "b"));
    assert_eq!(c.default, Some(s("a")));
    assert!(!remove_connection(&mut c, "b"));
    assert!(remove_connection(&mut c, "a"));
    assert_eq!(c.default, None);
}

#[test]
fn connections_subcommands() {
    let mut c = Config::default();
    match connections::run(&mut c, &ConnectionsSub::List) {
        ConnectionsOutcome::Print(lines) => assert_eq!(lines, vec![s("No saved connections.")]),
        _ => panic!(),
    }
    match connections::run(&mut c, &ConnectionsSub::Show) {
        ConnectionsOutcome::Print(lines) => assert_eq!(lines, vec![s("No default connection set.")]),
        _ => panic!(),
    }
    connect(&mut c, "h1:4001", None, None, Some(s("one")), false);
    connect(&mut c, "h2", None, None, Some(s("two")), false);
    match connections::run(&mut c, &ConnectionsSub::List) {
        ConnectionsOutcome::Print(lines) => assert_eq!(
            lines,
            vec![s("Saved connections:"), s("  one: h1:4001 (default)"), s("  two: h2:4000")]
        ),
        _ => panic!(),
    }
    match connections::run(&mut c, &ConnectionsSub::Show) {
        ConnectionsOutcome::Print(lines) => assert_eq!(lines, vec![s("Current connection (one): h1:4001")]),
        _ => panic!(),
    }
    match connections::run(&mut c, &ConnectionsSub::Use { name: s("two") }) {
        ConnectionsOutcome::Saved(m) => assert_eq!(m, "Default connection set to 'two'"),
        _ => panic!(),
    }
    match connections::run(&mut c, &ConnectionsSub::Use { name: s("six") }) {
        ConnectionsOutcome::Failed(m) => assert_eq!(m, "No such connection: 'six'"),
        _ => panic!(),
    }
    match connections::run(&mut c, &ConnectionsSub::Remove { name: s("two") }) {
        ConnectionsOutcome::Saved(m) => assert_eq!(m, "Connection 'two' removed."),
        _ => panic!(),
    }
    assert_eq!(c.default, Some(s("one")));
    c.default = Some(s("missing"));
    match connections::run(&mut c, &ConnectionsSub::Show) {
        ConnectionsOutcome::Print(lines) => assert_eq!(lines, vec![s("Default connection 'missing' not found.")]),
        _ => panic!(),
    }
}

#[test]
fn export_quoting() {
    assert_eq!(quote_value("plain"), "plain");
    assert_eq!(quote_value("it's"), "it'\\''s");
    assert_eq!(export_line("A", "x'y"), "export A='x'\\''y'");
    let r = vaultd::commands::set::run(&ok_response(Some(vec![(s("A"), s("1")), (s("B"), s("o'k"))]), None));
    assert_eq!(r, Ok(vec![s("export A='1'"), s("export B='o'\\''k'")]));
    assert_eq!(vaultd::commands::set::run(&ok_response(None, None)), Ok(vec![]));
    assert_eq!(vaultd::commands::set::run(&failed_response(Some("Environment 'x' not found"))), Err(s("Environment 'x' not found")));
}

#[test]
fn drop_outcomes() {
    let mut c = Config::default();
    assert_eq!(previous_environment(&c), Err(s("No environment was previously set. Nothing to drop.")));
    c.last_set_env = Some(s("dev"));
    assert_eq!(previous_environment(&c), Ok(s("dev")));
    let resp = ok_response(Some(vec![(s("A"), s("1")), (s("B"), s("2"))]), None);
    match vaultd::commands::drop::run(&resp, true) {
        DropOutcome::Script(lines) => assert_eq!(
            lines,
            vec![
                s("if [ -n \"$VAULTWRAP_OLD_PS1\" ]; then"),
                s("    export PS1=\"$VAULTWRAP_OLD_PS1\""),
                s("    unset VAULTWRAP_OLD_PS1"),
                s("fi"),
                s("unset A"),
                s("unset B"),
            ]
        ),
        _ => panic!(),
    }
    match vaultd::commands::drop::run(&resp, false) {
        DropOutcome::Unset(keys) => assert_eq!(keys, vec![s("A"), s("B")]),
        _ => panic!(),
    }
    assert!(matches!(vaultd::commands::drop::run(&ok_response(None, None), true), DropOutcome::NoVariables));
    match vaultd::commands::drop::run(&failed_response(None), false) {
        DropOutcome::Failed(m) => assert_eq!(m, "Unknown error"),
        _ => panic!(),
    }
}

#[test]
fn gui_list_environments() {
    assert_eq!(list_environments(&ok_response(None, Some(vec![s("dev")]))), Ok(vec![s("dev")]));
    assert_eq!(list_environments(&ok_response(None, None)), Ok(vec![]));
    assert_eq!(list_environments(&failed_response(None)), Err(s("Failed to list environments")));
    assert_eq!(list_environments(&failed_response(Some("boom"))), Err(s("boom")));
}

#[test]
fn gui_get_environment() {
    let resp = ok_response(Some(vec![(s("A"), s("1")), (s("B"), s("2")), (s("A"), s("3"))]), None);
    let env = get_environment(&resp, "dev").ok().unwrap();
    assert_eq!(env.get("A"), Some(&s("3")));
    assert_eq!(env.get("B"), Some(&s("2")));
    assert_eq!(env.len(), 2);
    assert_eq!(get_environment(&ok_response(None, None), "dev").ok().unwrap().len(), 0);
    assert_eq!(get_environment(&failed_response(None), "qa").err(), Some(s("Environment 'qa' not found")));
}

#[test]
fn key_flow_steps() {
    let fetched = ok_response(Some(vec![(s("A"), s("1")), (s("B"), s("2"))]), None);
    let sub = KeySub::Update { env: s("dev"), old_key: s("A"), new_key: s("C"), new_value: s("3") };
    let (req, done) = key_flow(&sub, &fetched).ok().unwrap();
    assert_eq!(done, "Key 'A' updated to 'C' = '3' in environment 'dev'.");
    assert_eq!(req.command, "save-environment");
    assert_eq!(req.environment, Some(s("dev")));
    assert_eq!(req.variables, Some(vec![(s("B"), s("2")), (s("C"), s("3"))]));
    let sub = KeySub::Delete { env: s("dev"), key: s("Z") };
    assert_eq!(key_flow(&sub, &fetched).err(), Some(s("Key 'Z' not found in environment 'dev'.")));
    let sub = KeySub::Add { env: s("qa"), key: s("K"), value: s("V") };
    assert_eq!(
        key_flow(&sub, &failed_response(Some("Environment 'qa' not found"))).err(),
        Some(s("Error fetching environment 'qa': Environment 'qa' not found"))
    );
    let (req, _) = key_flow(&sub, &ok_response(None, None)).ok().unwrap();
    assert_eq!(req.variables, Some(vec![(s("K"), s("V"))]));
}

#[test]
fn key_save_outcome() {
    assert_eq!(save_outcome(&ok_response(None, None), s("done")), Ok(s("done")));
    assert_eq!(save_outcome(&failed_response(Some("disk full")), s("done")), Err(s("Error: disk full")));
    assert_eq!(save_outcome(&failed_response(None), s("done")), Err(s("Error: Unknown error")));
}

#[test]
fn gui_prepare_request() {
    assert_eq!(
        prepare_request(&None, "list-environments", None).err(),
        Some(s("No server configuration set"))
    );
    let server = Some(ServerConfig { host: s("10.0.0.2"), port: 4000, username: None, password: None });
    let (host, port, req) = prepare_request(&server, "shell-activation", Some(s("dev"))).ok().unwrap();
    assert_eq!(host, "10.0.0.2");
    assert_eq!(port, 4000);
    assert_eq!(req.client_id, "vaultd-gui");
    assert_eq!(req.command, "shell-activation");
    assert_eq!(req.environment, Some(s("dev")));
    assert!(req.variables.is_none());
    assert_eq!(network_error("connection refused"), "Network error: connection refused");
}

#[test]
fn drop_forgets_environment() {
    let mut c = Config::default();
    c.last_set_env = Some(s("dev"));
    c.default = Some(s("home"));
    add_command(&mut c, s("cargo"));
    forget_environment(&mut c);
    assert_eq!(c.last_set_env, None);
    assert_eq!(c.default, Some(s("home")));
    assert_eq!(c.runtime_injection.commands, vec![s("cargo")]);
}
