use vaultd::policy::is_command_allowed;

#[test]
fn allowed_prefixes() {
    assert!(is_command_allowed("echo $API_KEY"));
    assert!(is_command_allowed("echo "));
    assert!(is_command_allowed("python3 app.py"));
    assert!(is_command_allowed("python3"));
    assert!(is_command_allowed("node server.js"));
    assert!(is_command_allowed("node"));
}

#[test]
fn prefix_is_not_a_word_match() {
    assert!(is_command_allowed("nodexyz"));
    assert!(is_command_allowed("python3.11 -c 1"));
}

#[test]
fn shell_activation_is_allowed() {
    assert!(is_command_allowed("shell-activation"));
}

#[test]
fn other_commands_are_denied() {
    assert!(!is_command_allowed("rm -rf /"));
    assert!(!is_command_allowed("echo"));
    assert!(!is_command_allowed("python app.py"));
    assert!(!is_command_allowed("nod"));
    assert!(!is_command_allowed(""));
    assert!(!is_command_allowed(" echo x"));
    assert!(!is_command_allowed("shell-activation "));
    assert!(!is_command_allowed("Node"));
}
