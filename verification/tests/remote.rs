use remote_ssh::executor::CommandOutcome;
use remote_ssh::model::DesktopSshAuthConfig;
use remote_ssh::model::DesktopSshInstallMethod;
use remote_ssh::model::DesktopSshInstance;
use remote_ssh::model::DesktopSshLocalForwardConfig;
use remote_ssh::model::DesktopSshRemoteOpenchamberConfig;
use remote_ssh::model::DesktopSshSecretStore;
use remote_ssh::model::DesktopSshStoredSecret;
use remote_ssh::remote::configured_openchamber_password;
use remote_ssh::remote::current_remote_openchamber_version;
use remote_ssh::remote::install_openchamber_managed;
use remote_ssh::remote::probe_remote_system_info;
use remote_ssh::remote::probe_script_with_payload;
use remote_ssh::remote::random_port_candidate;
use remote_ssh::remote::remote_command_exists;
use remote_ssh::remote::remote_command_exists_script;
use remote_ssh::remote::remote_server_running;
use remote_ssh::remote::start_remote_server_managed;
use remote_ssh::remote::started_port;
use remote_ssh::remote::stop_remote_server_best_effort;
use remote_ssh::remote::NoRemotePackageManager;

fn outcome(code: i32, stdout: &str, stderr: &str) -> CommandOutcome {
    CommandOutcome { code, stdout: stdout.to_string(), stderr: stderr.to_string() }
}

fn instance_with_password(enabled: bool, value: Option<&str>) -> DesktopSshInstance {
    DesktopSshInstance {
        id: "ssh-1".to_string(),
        nickname: None,
        ssh_command: "ssh user@h".to_string(),
        ssh_parsed: None,
        connection_timeout_sec: 60,
        remote_openchamber: DesktopSshRemoteOpenchamberConfig::default(),
        local_forward: DesktopSshLocalForwardConfig::default(),
        auth: DesktopSshAuthConfig {
            ssh_password: None,
            openchamber_password: Some(DesktopSshStoredSecret {
                enabled,
                value: value.map(|v| v.to_string()),
                store: DesktopSshSecretStore::Settings,
            }),
        },
        port_forwards: Vec::new(),
    }
}

#[test]
fn tool_is_found_when_the_script_says_yes() {
    assert_eq!(
        remote_command_exists_script("bun"),
        "command -v bun >/dev/null 2>&1 && echo yes || echo no"
    );
    assert!(remote_command_exists(Some(&outcome(0, " yes\n", ""))));
    assert!(!remote_command_exists(Some(&outcome(0, "no\n", ""))));
    assert!(!remote_command_exists(Some(&outcome(0, "yes please", ""))));
    assert!(!remote_command_exists(Some(&outcome(1, "yes", ""))));
    assert!(!remote_command_exists(None));
}

#[test]
fn installed_version_is_read_from_the_answer() {
    assert_eq!(
        current_remote_openchamber_version(Some(&outcome(0, "openchamber v1.4.2\n", ""))),
        Some("1.4.2".to_string())
    );
    assert_eq!(current_remote_openchamber_version(Some(&outcome(0, "", ""))), None);
    assert_eq!(current_remote_openchamber_version(Some(&outcome(1, "1.4.2", "x"))), None);
    assert_eq!(current_remote_openchamber_version(None), None);
}

#[test]
fn install_commands_follow_the_preferred_method() {
    let bun = "bun add -g @openchamber/web@1.2.3".to_string();
    let npm = "npm install -g @openchamber/web@1.2.3".to_string();
    assert_eq!(
        install_openchamber_managed("1.2.3", DesktopSshInstallMethod::Bun, true, true),
        Ok(vec![bun.clone(), npm.clone()])
    );
    assert_eq!(
        install_openchamber_managed("1.2.3", DesktopSshInstallMethod::Npm, true, true),
        Ok(vec![npm.clone(), bun.clone()])
    );
    assert_eq!(
        install_openchamber_managed("1.2.3", DesktopSshInstallMethod::DownloadRelease, true, true),
        Ok(vec![bun.clone(), npm.clone()])
    );
    assert_eq!(
        install_openchamber_managed("1.2.3", DesktopSshInstallMethod::UploadBundle, false, true),
        Ok(vec![npm.clone()])
    );
    assert_eq!(
        install_openchamber_managed("1.2.3", DesktopSshInstallMethod::Npm, true, false),
        Ok(vec![bun])
    );
    assert_eq!(
        install_openchamber_managed("1.2.3", DesktopSshInstallMethod::Bun, false, false),
        Err(NoRemotePackageManager)
    );
}

#[test]
fn configured_password_is_trimmed_and_must_be_enabled() {
    assert_eq!(
        configured_openchamber_password(&instance_with_password(true, Some(" pw "))),
        Some("pw".to_string())
    );
    assert_eq!(
        configured_openchamber_password(&instance_with_password(false, Some("pw"))),
        None
    );
    assert_eq!(
        configured_openchamber_password(&instance_with_password(true, Some("  "))),
        None
    );
    assert_eq!(configured_openchamber_password(&instance_with_password(true, None)), None);
    let mut bare = instance_with_password(true, Some("pw"));
    bare.auth.openchamber_password = None;
    assert_eq!(configured_openchamber_password(&bare), None);
}

#[test]
fn probe_script_without_a_password_does_not_log_in() {
    let script = probe_remote_system_info(3000, None);
    assert!(script.starts_with("AUTH_STATUS=0; INFO_STATUS=0; HEALTH_STATUS=0; BODY_FILE=\"$(mktemp)\"; COOKIE_FILE=\"$(mktemp)\"; cleanup() { rm -f \"$BODY_FILE\" \"$COOKIE_FILE\"; }; trap cleanup EXIT; if command -v curl >/dev/null 2>&1; then if [ \"0\" = \"1\" ]; then AUTH_STATUS="));
    assert!(script.contains("--data '{}' http://127.0.0.1:3000/auth/session || true)"));
    assert!(script.ends_with("printf 'INFO_STATUS=%s\\nAUTH_STATUS=%s\\nHEALTH_STATUS=%s\\n' \"$INFO_STATUS\" \"$AUTH_STATUS\" \"$HEALTH_STATUS\"; cat \"$BODY_FILE\" 2>/dev/null || true"));
    assert_eq!(script.matches("http://127.0.0.1:3000/").count(), 7);
    assert_eq!(script.matches("-w '%{http_code}'").count(), 5);
    assert_eq!(script, probe_script_with_payload(3000, false, "{}"));
}

#[test]
fn probe_script_with_a_password_sends_it_as_json() {
    let script = probe_remote_system_info(41000, Some("pa\"ss'w\\d"));
    assert!(script.contains("if [ \"1\" = \"1\" ]; then"));
    assert!(script.contains(
        "--data '{\"password\":\"pa\\\"ss'\\''w\\\\d\"}' http://127.0.0.1:41000/auth/session"
    ));
    assert_eq!(
        script,
        probe_script_with_payload(41000, true, "{\"password\":\"pa\\\"ss'w\\\\d\"}")
    );
}

#[test]
fn service_runs_when_the_probe_finds_it() {
    let alive = outcome(0, "INFO_STATUS=200\nAUTH_STATUS=0\nHEALTH_STATUS=200\n{}", "");
    let dead = outcome(0, "INFO_STATUS=000\nAUTH_STATUS=0\nHEALTH_STATUS=000\n", "");
    let challenged = outcome(0, "INFO_STATUS=401\nAUTH_STATUS=401\nHEALTH_STATUS=200\n", "");
    assert!(remote_server_running(Some(&alive), false));
    assert!(!remote_server_running(Some(&dead), false));
    assert!(remote_server_running(Some(&challenged), false));
    assert!(!remote_server_running(Some(&challenged), true));
    assert!(!remote_server_running(Some(&outcome(127, "INFO_STATUS=200", "")), false));
    assert!(!remote_server_running(None, false));
}

#[test]
fn port_candidate_lies_in_the_upper_ports() {
    assert_eq!(random_port_candidate(0), 20000);
    assert_eq!(random_port_candidate(29999), 49999);
    assert_eq!(random_port_candidate(30000), 20000);
    assert_eq!(random_port_candidate(123456789), 20000 + (123456789u64 % 30000) as u16);
    assert_eq!(random_port_candidate(u64::MAX), 20000 + (u64::MAX % 30000) as u16);
}

#[test]
fn service_is_started_as_a_daemon() {
    assert_eq!(
        start_remote_server_managed(&instance_with_password(false, Some("pw")), 41000),
        "OPENCHAMBER_RUNTIME=ssh-remote openchamber serve --daemon --hostname 127.0.0.1 --port 41000"
    );
    assert_eq!(
        start_remote_server_managed(&instance_with_password(true, Some(" it's ")), 3000),
        "OPENCHAMBER_RUNTIME=ssh-remote OPENCHAMBER_UI_PASSWORD='it'\\''s' openchamber serve --daemon --hostname 127.0.0.1 --port 3000"
    );
}

#[test]
fn started_port_is_the_first_number_printed() {
    assert_eq!(started_port("Listening on port 41234 (pid 99)", 3000), 41234);
    assert_eq!(started_port("pid 99999 port 4100", 3000), 4100);
    assert_eq!(started_port("started", 3000), 3000);
    assert_eq!(started_port("", 3000), 3000);
    assert_eq!(started_port("http://127.0.0.1:4100", 3000), 3000);
}

#[test]
fn service_is_asked_to_shut_down() {
    assert_eq!(
        stop_remote_server_best_effort(3000),
        "if command -v curl >/dev/null 2>&1; then curl -fsS -X POST http://127.0.0.1:3000/api/system/shutdown >/dev/null 2>&1 || true; elif command -v wget >/dev/null 2>&1; then wget -qO- --method=POST http://127.0.0.1:3000/api/system/shutdown >/dev/null 2>&1 || true; fi"
    );
}
