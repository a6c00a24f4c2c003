use remote_ssh::executor::build_ssh_command;
use remote_ssh::executor::control_master_operation;
use remote_ssh::executor::control_path_for_instance;
use remote_ssh::executor::extra_forward_outcome;
use remote_ssh::executor::is_control_master_alive;
use remote_ssh::executor::remote_command_output;
use remote_ssh::executor::resolve_ssh_config;
use remote_ssh::executor::resolve_ssh_config_args;
use remote_ssh::executor::run_remote_command;
use remote_ssh::executor::spawn_extra_forward;
use remote_ssh::executor::spawn_main_forward;
use remote_ssh::executor::spawn_master_process;
use remote_ssh::executor::stop_control_master_best_effort;
use remote_ssh::executor::CommandOutcome;
use remote_ssh::executor::ForwardError;
use remote_ssh::hashing::hash_text;
use remote_ssh::hashing::hash_text_and_number;
use remote_ssh::model::DesktopSshParsedCommand;
use remote_ssh::model::DesktopSshPortForward;
use remote_ssh::model::DesktopSshPortForwardType;
use remote_ssh::shell::shell_quote;
use std::collections::hash_map::DefaultHasher;
use std::hash::Hash;
use std::hash::Hasher;

fn texts(items: &[&str]) -> Vec<String> {
    items.iter().map(|s| s.to_string()).collect()
}

fn parsed() -> DesktopSshParsedCommand {
    DesktopSshParsedCommand {
        destination: "user@example.com".to_string(),
        args: texts(&["-J", "jump"]),
    }
}

fn outcome(code: i32, stdout: &str, stderr: &str) -> CommandOutcome {
    CommandOutcome { code, stdout: stdout.to_string(), stderr: stderr.to_string() }
}

fn forward(kind: DesktopSshPortForwardType) -> DesktopSshPortForward {
    DesktopSshPortForward {
        id: "web".to_string(),
        enabled: true,
        forward_type: kind,
        local_host: Some("0.0.0.0".to_string()),
        local_port: Some(8080),
        remote_host: Some("db.internal".to_string()),
        remote_port: Some(5432),
    }
}

#[test]
fn arguments_are_options_then_destination_then_command() {
    assert_eq!(
        build_ssh_command(&parsed(), &texts(&["-G"]), None),
        texts(&["-J", "jump", "-G", "user@example.com"])
    );
    assert_eq!(
        build_ssh_command(&parsed(), &Vec::new(), Some("uptime")),
        texts(&["-J", "jump", "user@example.com", "uptime"])
    );
}

#[test]
fn resolve_asks_for_the_configuration() {
    assert_eq!(
        resolve_ssh_config_args(&parsed()),
        texts(&["-J", "jump", "-G", "user@example.com"])
    );
}

#[test]
fn resolved_configuration_is_read_line_by_line() {
    let answer = outcome(
        0,
        "Hostname example.com\n  USER  me  \n\nport 22\nloneword\nIdentityFile ~/.ssh/id one\n",
        "",
    );
    assert_eq!(
        resolve_ssh_config(&answer),
        Ok(vec![
            ("hostname".to_string(), "example.com".to_string()),
            ("user".to_string(), "me".to_string()),
            ("port".to_string(), "22".to_string()),
            ("identityfile".to_string(), "~/.ssh/id one".to_string()),
        ])
    );
    assert_eq!(
        resolve_ssh_config(&outcome(255, "ignored", "  ssh: no such host\n")),
        Err("ssh: no such host".to_string())
    );
}

#[test]
fn control_master_is_started_with_its_socket_and_the_prompt_helper() {
    let launch = spawn_master_process(&parsed(), "/tmp/ocssh-1.sock", "/x/askpass.sh", Some(" s3cret "));
    assert_eq!(
        launch.argv,
        texts(&[
            "-J",
            "jump",
            "-o",
            "ControlMaster=yes",
            "-o",
            "ControlPath=/tmp/ocssh-1.sock",
            "-o",
            "ControlPersist=300",
            "-N",
            "user@example.com",
        ])
    );
    assert_eq!(
        launch.env,
        vec![
            ("SSH_ASKPASS_REQUIRE".to_string(), "force".to_string()),
            ("SSH_ASKPASS".to_string(), "/x/askpass.sh".to_string()),
            ("DISPLAY".to_string(), "1".to_string()),
            ("OPENCHAMBER_SSH_ASKPASS_VALUE".to_string(), "s3cret".to_string()),
        ]
    );
    assert_eq!(spawn_master_process(&parsed(), "/s", "/a", Some("  ")).env.len(), 3);
    assert_eq!(spawn_master_process(&parsed(), "/s", "/a", None).env.len(), 3);
}

#[test]
fn control_master_operations_never_prompt() {
    assert_eq!(
        control_master_operation(&parsed(), "/tmp/s", "check"),
        texts(&[
            "-J",
            "jump",
            "-o",
            "ControlMaster=no",
            "-o",
            "ControlPath=/tmp/s",
            "-o",
            "BatchMode=yes",
            "-o",
            "ConnectTimeout=3",
            "-O",
            "check",
            "user@example.com",
        ])
    );
    assert_eq!(
        stop_control_master_best_effort(&parsed(), "/tmp/s"),
        control_master_operation(&parsed(), "/tmp/s", "exit")
    );
}

#[test]
fn control_master_is_alive_when_check_succeeds() {
    assert!(is_control_master_alive(Some(&outcome(0, "", ""))));
    assert!(!is_control_master_alive(Some(&outcome(255, "", ""))));
    assert!(!is_control_master_alive(Some(&outcome(-1, "", ""))));
    assert!(!is_control_master_alive(None));
}

#[test]
fn remote_command_is_one_quoted_script() {
    assert_eq!(
        run_remote_command(&parsed(), "/tmp/s", "echo 'hi'", 60),
        texts(&[
            "-J",
            "jump",
            "-o",
            "ControlMaster=no",
            "-o",
            "ControlPath=/tmp/s",
            "-o",
            "ConnectTimeout=60",
            "-T",
            "user@example.com",
            "sh -lc 'echo '\\''hi'\\'''",
        ])
    );
}

#[test]
fn remote_command_yields_its_output_or_its_complaint() {
    assert_eq!(remote_command_output(&outcome(0, "out\n", "warn")), Ok("out\n".to_string()));
    assert_eq!(
        remote_command_output(&outcome(1, "out", "  boom \n")),
        Err("boom".to_string())
    );
    assert_eq!(
        remote_command_output(&outcome(127, "out", " \n")),
        Err("Remote command failed".to_string())
    );
}

#[test]
fn quoting_makes_one_word() {
    assert_eq!(shell_quote(""), "''");
    assert_eq!(shell_quote("plain"), "'plain'");
    assert_eq!(shell_quote("it's"), "'it'\\''s'");
    assert_eq!(shell_quote("a b\"c$d"), "'a b\"c$d'");
    assert_eq!(shell_quote("''"), "''\\'''\\'''");
}

#[test]
fn anchor_forward_binds_the_local_port_to_the_remote_one() {
    assert_eq!(
        spawn_main_forward(&parsed(), "/tmp/s", "127.0.0.1", 4123, 3000),
        texts(&[
            "-J",
            "jump",
            "-o",
            "ControlMaster=no",
            "-o",
            "ControlPath=/tmp/s",
            "-N",
            "-L",
            "127.0.0.1:4123:127.0.0.1:3000",
            "user@example.com",
        ])
    );
}

#[test]
fn supplementary_forwards_are_asked_of_the_control_master() {
    let head = [
        "-J",
        "jump",
        "-o",
        "ControlMaster=no",
        "-o",
        "ControlPath=/tmp/s",
        "-o",
        "BatchMode=yes",
        "-o",
        "ConnectTimeout=3",
        "-O",
        "forward",
    ];
    let with = |flag: &str, spec: &str| {
        let mut v = texts(&head);
        v.push(flag.to_string());
        v.push(spec.to_string());
        v.push("user@example.com".to_string());
        v
    };
    assert_eq!(
        spawn_extra_forward(&parsed(), "/tmp/s", &forward(DesktopSshPortForwardType::Local)),
        Ok(with("-L", "0.0.0.0:8080:db.internal:5432"))
    );
    assert_eq!(
        spawn_extra_forward(&parsed(), "/tmp/s", &forward(DesktopSshPortForwardType::Remote)),
        Ok(with("-R", "db.internal:5432:0.0.0.0:8080"))
    );
    assert_eq!(
        spawn_extra_forward(&parsed(), "/tmp/s", &forward(DesktopSshPortForwardType::Dynamic)),
        Ok(with("-D", "0.0.0.0:8080"))
    );
    let mut bare = forward(DesktopSshPortForwardType::Local);
    bare.local_host = None;
    bare.remote_host = Some("  ".to_string());
    assert_eq!(
        spawn_extra_forward(&parsed(), "/tmp/s", &bare),
        Ok(with("-L", "127.0.0.1:8080:127.0.0.1:5432"))
    );
}

#[test]
fn supplementary_forward_without_a_port_is_refused() {
    let mut local = forward(DesktopSshPortForwardType::Local);
    local.local_port = None;
    local.remote_port = None;
    assert_eq!(
        spawn_extra_forward(&parsed(), "/s", &local),
        Err(ForwardError::MissingLocalPort)
    );
    let mut remote = forward(DesktopSshPortForwardType::Remote);
    remote.local_port = None;
    remote.remote_port = None;
    assert_eq!(
        spawn_extra_forward(&parsed(), "/s", &remote),
        Err(ForwardError::MissingRemotePort)
    );
    remote.remote_port = Some(1);
    assert_eq!(
        spawn_extra_forward(&parsed(), "/s", &remote),
        Err(ForwardError::MissingLocalPort)
    );
    let mut dynamic = forward(DesktopSshPortForwardType::Dynamic);
    dynamic.local_port = None;
    assert_eq!(
        spawn_extra_forward(&parsed(), "/s", &dynamic),
        Err(ForwardError::MissingLocalPort)
    );
    assert_eq!(ForwardError::MissingLocalPort.message(), "Missing local port");
    assert_eq!(ForwardError::MissingRemotePort.message(), "Missing remote port");
}

#[test]
fn failed_supplementary_forward_says_why() {
    assert_eq!(extra_forward_outcome("web", &outcome(0, "x", "y")), None);
    assert_eq!(
        extra_forward_outcome("web", &outcome(255, "out", " in use \n")),
        Some("Failed to configure extra SSH forward web: in use".to_string())
    );
    assert_eq!(
        extra_forward_outcome("web", &outcome(255, " out ", "")),
        Some("Failed to configure extra SSH forward web: out".to_string())
    );
    assert_eq!(
        extra_forward_outcome("web", &outcome(1, "", "")),
        Some("Failed to configure extra SSH forward web: unknown error".to_string())
    );
}

fn std_hash_of(id: &str) -> u64 {
    let mut hasher = DefaultHasher::new();
    id.hash(&mut hasher);
    hasher.finish()
}

#[test]
fn hash_of_a_text_is_that_of_the_standard_library() {
    for id in ["", "ssh-1", "prod-\u{e9}", "a much longer instance id than usual"] {
        assert_eq!(hash_text(id), std_hash_of(id), "{id}");
    }
    assert_ne!(hash_text_and_number("ssh-1", 1), hash_text_and_number("ssh-1", 2));
    assert_eq!(hash_text_and_number("ssh-1", 7), hash_text_and_number("ssh-1", 7));
}

#[test]
fn control_socket_is_named_after_the_hash_of_the_id() {
    assert_eq!(
        control_path_for_instance("ssh-1"),
        format!("ocssh-{:x}.sock", std_hash_of("ssh-1"))
    );
    assert_eq!(control_path_for_instance("ssh-1"), control_path_for_instance("ssh-1"));
    assert_ne!(control_path_for_instance("ssh-1"), control_path_for_instance("ssh-2"));
}
