use remote_ssh::connect::ConnectAction;
use remote_ssh::connect::ConnectErrorKind;
use remote_ssh::connect::ConnectEvent;
use remote_ssh::connect::ConnectMachine;
use remote_ssh::connect::ConnectOutput;
use remote_ssh::connect::ConnectStage;
use remote_ssh::connect::ASKPASS_SCRIPT;
use remote_ssh::executor::control_path_for_instance;
use remote_ssh::executor::CommandOutcome;
use remote_ssh::hashing::hash_text_and_number;
use remote_ssh::liveness::ChildReport;
use remote_ssh::liveness::ChildState;
use remote_ssh::liveness::Notice;
use remote_ssh::model::DesktopSshAuthConfig;
use remote_ssh::model::DesktopSshInstance;
use remote_ssh::model::DesktopSshLocalForwardConfig;
use remote_ssh::model::DesktopSshPortForward;
use remote_ssh::model::DesktopSshPortForwardType;
use remote_ssh::model::DesktopSshRemoteMode;
use remote_ssh::model::DesktopSshRemoteOpenchamberConfig;
use remote_ssh::model::DesktopSshSecretStore;
use remote_ssh::model::DesktopSshStoredSecret;
use remote_ssh::remote::probe_remote_system_info;
use remote_ssh::remote::random_port_candidate;
use remote_ssh::status::DesktopSshPhase;

const ALIVE: &str = "INFO_STATUS=200\nAUTH_STATUS=0\nHEALTH_STATUS=200\n{}";
const DEAD: &str = "INFO_STATUS=000\nAUTH_STATUS=0\nHEALTH_STATUS=000\n";

fn texts(items: &[&str]) -> Vec<String> {
    items.iter().map(|s| s.to_string()).collect()
}

fn instance(command: &str) -> DesktopSshInstance {
    DesktopSshInstance {
        id: "ssh-1".to_string(),
        nickname: Some("Prod".to_string()),
        ssh_command: command.to_string(),
        ssh_parsed: None,
        connection_timeout_sec: 5,
        remote_openchamber: DesktopSshRemoteOpenchamberConfig::default(),
        local_forward: DesktopSshLocalForwardConfig::default(),
        auth: DesktopSshAuthConfig::default(),
        port_forwards: Vec::new(),
    }
}

fn ok(stdout: &str) -> ConnectEvent {
    ConnectEvent::Command(CommandOutcome {
        code: 0,
        stdout: stdout.to_string(),
        stderr: String::new(),
    })
}

fn bad(code: i32, stderr: &str) -> ConnectEvent {
    ConnectEvent::Command(CommandOutcome {
        code,
        stdout: String::new(),
        stderr: stderr.to_string(),
    })
}

fn child(state: ChildState, status: &str, stderr: &str) -> ConnectEvent {
    ConnectEvent::Child(ChildReport {
        state,
        status: status.to_string(),
        stderr: stderr.to_string(),
    })
}

fn remote(script: &str, timeout: u16) -> ConnectAction {
    let quoted = script.replace('\'', "'\\''");
    ConnectAction::Run(texts(&[
        "-o",
        "ControlMaster=no",
        "-o",
        "ControlPath=/tmp/sock",
        "-o",
        &format!("ConnectTimeout={timeout}"),
        "-T",
        "user@h",
        &format!("sh -lc '{quoted}'"),
    ]))
}

fn phases(out: &ConnectOutput) -> Vec<(DesktopSshPhase, String)> {
    out.statuses
        .iter()
        .map(|s| (s.phase, s.detail.clone().unwrap_or_default()))
        .collect()
}

fn announced(phase: DesktopSshPhase, detail: &str) -> Vec<(DesktopSshPhase, String)> {
    vec![(phase, detail.to_string())]
}

fn failure(out: &ConnectOutput) -> (ConnectErrorKind, String, bool, bool) {
    match &out.action {
        ConnectAction::Fail { kind, detail, kill_forward, kill_master } => {
            (*kind, detail.clone(), *kill_forward, *kill_master)
        }
        other => panic!("{other:?}"),
    }
}

/// Runs an attempt up to the point where the control master answers.
fn with_master(instance: DesktopSshInstance) -> (ConnectMachine, ConnectOutput) {
    let (m, _) = ConnectMachine::begin(instance, "1.2.3", 77);
    let (m, _) = m.step(ok("hostname h\n"));
    let (m, _) = m.step(ConnectEvent::Prepared {
        control_path: "/tmp/sock".to_string(),
        askpass_path: "/data/askpass.sh".to_string(),
    });
    let (m, _) = m.step(ConnectEvent::Spawned);
    let (m, _) = m.step(ConnectEvent::Elapsed(0));
    m.step(ok(""))
}

/// Runs an attempt up to the point where the service answers on port 41000.
fn with_server(instance: DesktopSshInstance) -> (ConnectMachine, ConnectOutput) {
    let (m, _) = with_master(instance);
    let (m, _) = m.step(ok("Linux\n"));
    let (m, _) = m.step(ok("openchamber 1.2.3\n"));
    let (m, _) = m.step(ok("listening on 41000\n"));
    m.step(ok(ALIVE))
}

#[test]
fn attempt_begins_with_the_configuration_of_the_destination() {
    let (m, out) = ConnectMachine::begin(instance("ssh -p 2222 user@h"), "1.2.3", 77);
    assert_eq!(m.stage, ConnectStage::Resolving);
    assert_eq!(m.parsed.destination, "user@h");
    assert_eq!(m.port_hash, hash_text_and_number("ssh-1", 77));
    assert_eq!(out.statuses, Vec::new());
    assert_eq!(out.action, ConnectAction::Run(texts(&["-p", "2222", "-G", "user@h"])));
}

#[test]
fn attempt_with_a_command_that_does_not_validate_fails_at_once() {
    let (m, out) = ConnectMachine::begin(instance("ssh -M user@h"), "1.2.3", 77);
    assert_eq!(m.stage, ConnectStage::Failed);
    assert_eq!(
        failure(&out),
        (ConnectErrorKind::InvalidInstance, "Invalid SSH command".to_string(), false, false)
    );
    let (m, out) = m.step(ConnectEvent::Slept);
    assert_eq!(m.stage, ConnectStage::Failed);
    assert_eq!(out.action, ConnectAction::Nothing);
}

#[test]
fn configuration_that_does_not_resolve_ends_the_attempt() {
    let (m, _) = ConnectMachine::begin(instance("ssh user@h"), "1.2.3", 77);
    let (m, out) = m.step(bad(255, " no such host \n"));
    assert_eq!(m.stage, ConnectStage::Failed);
    assert_eq!(
        failure(&out),
        (ConnectErrorKind::SshConfigResolveFailed, "no such host".to_string(), false, false)
    );
}

#[test]
fn control_master_is_prepared_started_and_waited_for() {
    let mut inst = instance("ssh user@h");
    inst.auth.ssh_password = Some(DesktopSshStoredSecret {
        enabled: true,
        value: Some("pw".to_string()),
        store: DesktopSshSecretStore::Settings,
    });
    let (m, _) = ConnectMachine::begin(inst, "1.2.3", 77);
    let (m, out) = m.step(ok("hostname h\n"));
    assert_eq!(phases(&out), announced(DesktopSshPhase::AuthCheck, "Checking SSH connectivity"));
    assert_eq!(
        out.action,
        ConnectAction::Prepare {
            socket_name: control_path_for_instance("ssh-1"),
            askpass_script: ASKPASS_SCRIPT.to_string(),
        }
    );
    let (m, out) = m.step(ConnectEvent::Prepared {
        control_path: "/tmp/sock".to_string(),
        askpass_path: "/data/askpass.sh".to_string(),
    });
    assert_eq!(
        phases(&out),
        announced(DesktopSshPhase::MasterConnecting, "Establishing SSH ControlMaster")
    );
    match &out.action {
        ConnectAction::SpawnMaster { argv, env } => {
            assert_eq!(
                argv,
                &texts(&[
                    "-o",
                    "ControlMaster=yes",
                    "-o",
                    "ControlPath=/tmp/sock",
                    "-o",
                    "ControlPersist=300",
                    "-N",
                    "user@h",
                ])
            );
            assert_eq!(env.len(), 4);
            assert_eq!(env[1], ("SSH_ASKPASS".to_string(), "/data/askpass.sh".to_string()));
            assert_eq!(env[3], ("OPENCHAMBER_SSH_ASKPASS_VALUE".to_string(), "pw".to_string()));
        }
        other => panic!("{other:?}"),
    }
    let (m, out) = m.step(ConnectEvent::Spawned);
    assert_eq!(out.action, ConnectAction::Clock { restart: true });
    let (m, out) = m.step(ConnectEvent::Elapsed(0));
    let check = ConnectAction::Run(texts(&[
        "-o",
        "ControlMaster=no",
        "-o",
        "ControlPath=/tmp/sock",
        "-o",
        "BatchMode=yes",
        "-o",
        "ConnectTimeout=3",
        "-O",
        "check",
        "user@h",
    ]));
    assert_eq!(out.action, check);
    let (m, out) = m.step(bad(255, "not yet"));
    assert_eq!(out.action, ConnectAction::PollMaster);
    let (m, out) = m.step(child(ChildState::Running, "", ""));
    assert_eq!(out.action, ConnectAction::Sleep(250));
    let (m, out) = m.step(ConnectEvent::Slept);
    assert_eq!(out.action, ConnectAction::Clock { restart: false });
    let (m, out) = m.step(ConnectEvent::Elapsed(4999));
    assert_eq!(out.action, check);
    let (m, out) = m.step(ok(""));
    assert_eq!(m.stage, ConnectStage::ProbingOs);
    assert_eq!(phases(&out), announced(DesktopSshPhase::RemoteProbe, "Probing remote platform"));
    assert_eq!(out.action, remote("uname -s", 5));
}

#[test]
fn control_master_that_is_not_ready_in_time_ends_the_attempt() {
    let (m, _) = ConnectMachine::begin(instance("ssh user@h"), "1.2.3", 77);
    let (m, _) = m.step(ok(""));
    let (m, _) = m.step(ConnectEvent::Prepared {
        control_path: "/tmp/sock".to_string(),
        askpass_path: "/a".to_string(),
    });
    let (m, _) = m.step(ConnectEvent::Spawned);
    let (_, out) = m.step(ConnectEvent::Elapsed(5000));
    assert_eq!(
        failure(&out),
        (
            ConnectErrorKind::ControlMasterTimeout,
            "SSH ControlMaster connection timed out".to_string(),
            false,
            true
        )
    );
}

#[test]
fn control_master_that_ends_early_says_why() {
    let until_poll = || {
        let (m, _) = ConnectMachine::begin(instance("ssh user@h"), "1.2.3", 77);
        let (m, _) = m.step(ok(""));
        let (m, _) = m.step(ConnectEvent::Prepared {
            control_path: "/tmp/sock".to_string(),
            askpass_path: "/a".to_string(),
        });
        let (m, _) = m.step(ConnectEvent::Spawned);
        let (m, _) = m.step(ConnectEvent::Elapsed(1));
        m.step(bad(255, "")).0
    };
    let (_, out) = until_poll().step(child(ChildState::Failed, "exit status: 255", " denied \n"));
    assert_eq!(
        failure(&out),
        (ConnectErrorKind::ControlMasterExitedEarly, "denied".to_string(), false, true)
    );
    let (_, out) = until_poll().step(child(ChildState::Succeeded, "exit status: 0", ""));
    assert_eq!(
        failure(&out),
        (
            ConnectErrorKind::ControlMasterExitedEarly,
            "SSH master process exited before ready (status: exit status: 0)".to_string(),
            false,
            true
        )
    );
    let (m, _) = ConnectMachine::begin(instance("ssh user@h"), "1.2.3", 77);
    let (m, _) = m.step(ok(""));
    let (m, _) = m.step(ConnectEvent::Prepared {
        control_path: "/tmp/sock".to_string(),
        askpass_path: "/a".to_string(),
    });
    let (_, out) = m.step(ConnectEvent::SpawnFailed("no ssh".to_string()));
    assert_eq!(
        failure(&out),
        (
            ConnectErrorKind::ControlMasterExitedEarly,
            "failed to start SSH ControlMaster for user@h".to_string(),
            false,
            false
        )
    );
}

#[test]
fn remote_system_must_be_linux_or_darwin() {
    let (m, _) = with_master(instance("ssh user@h"));
    let (_, out) = m.step(ok(" FreeBSD\n"));
    assert_eq!(
        failure(&out),
        (
            ConnectErrorKind::UnsupportedRemoteOS,
            "Unsupported remote OS: freebsd".to_string(),
            false,
            true
        )
    );
    let (m, _) = with_master(instance("ssh user@h"));
    let (m, _) = m.step(ok("Darwin\n"));
    assert_eq!(m.stage, ConnectStage::ReadingVersion);
}

#[test]
fn missing_service_is_installed_with_the_first_manager_that_works() {
    let (m, _) = with_master(instance("ssh user@h"));
    let (m, out) = m.step(ok("Linux\n"));
    assert_eq!(
        phases(&out),
        announced(DesktopSshPhase::RemoteProbe, "Checking remote OpenChamber installation")
    );
    assert_eq!(out.action, remote("openchamber --version 2>/dev/null || true", 60));
    let (m, out) = m.step(ok("sh: openchamber: not found\n"));
    assert_eq!(
        phases(&out),
        announced(DesktopSshPhase::Installing, "Installing OpenChamber on remote host")
    );
    assert_eq!(out.action, remote("command -v bun >/dev/null 2>&1 && echo yes || echo no", 60));
    let (m, out) = m.step(ok("yes\n"));
    assert_eq!(out.action, remote("command -v npm >/dev/null 2>&1 && echo yes || echo no", 60));
    let (m, out) = m.step(ok("yes\n"));
    assert_eq!(out.action, remote("bun add -g @openchamber/web@1.2.3", 60));
    let (m, out) = m.step(bad(1, "bun broke"));
    assert_eq!(out.action, remote("npm install -g @openchamber/web@1.2.3", 60));
    let (m, out) = m.step(ok("added 1 package"));
    assert_eq!(m.stage, ConnectStage::StartingServer);
    assert_eq!(
        phases(&out),
        vec![
            (DesktopSshPhase::ServerDetecting, "Detecting managed OpenChamber server".to_string()),
            (DesktopSshPhase::ServerStarting, "Starting managed OpenChamber server".to_string()),
        ]
    );
    let candidate = random_port_candidate(hash_text_and_number("ssh-1", 77));
    assert_eq!(
        out.action,
        remote(
            &format!(
                "OPENCHAMBER_RUNTIME=ssh-remote openchamber serve --daemon --hostname 127.0.0.1 --port {candidate}"
            ),
            60
        )
    );
}

#[test]
fn older_service_is_updated() {
    let (m, _) = with_master(instance("ssh user@h"));
    let (m, _) = m.step(ok("Linux\n"));
    let (_, out) = m.step(ok("openchamber v1.0.0\n"));
    assert_eq!(
        phases(&out),
        announced(DesktopSshPhase::Updating, "Updating remote OpenChamber from 1.0.0 to 1.2.3")
    );
}

#[test]
fn install_fails_without_a_manager_or_when_every_manager_fails() {
    let (m, _) = with_master(instance("ssh user@h"));
    let (m, _) = m.step(ok("Linux\n"));
    let (m, _) = m.step(ok(""));
    let (m, _) = m.step(ok("no\n"));
    let (_, out) = m.step(ConnectEvent::NotRun("cannot run ssh".to_string()));
    assert_eq!(
        failure(&out),
        (
            ConnectErrorKind::NoRemotePackageManager,
            "Remote host has neither bun nor npm available".to_string(),
            false,
            true
        )
    );
    let (m, _) = with_master(instance("ssh user@h"));
    let (m, _) = m.step(ok("Linux\n"));
    let (m, _) = m.step(ok(""));
    let (m, _) = m.step(ok("no\n"));
    let (m, _) = m.step(ok("yes\n"));
    let (_, out) = m.step(bad(1, " EACCES \n"));
    assert_eq!(
        failure(&out),
        (ConnectErrorKind::RemoteInstallFailed, "EACCES".to_string(), false, true)
    );
}

#[test]
fn current_service_is_started_and_confirmed() {
    let (m, _) = with_master(instance("ssh user@h"));
    let (m, _) = m.step(ok("Linux\n"));
    let (m, out) = m.step(ok("openchamber 1.2.3\n"));
    assert_eq!(m.stage, ConnectStage::StartingServer);
    assert_eq!(out.statuses.len(), 2);
    let (m, out) = m.step(ok("listening on 41000\n"));
    assert_eq!(m.stage, ConnectStage::ConfirmingServer);
    assert_eq!(m.remote_port, 41000);
    assert!(m.started_by_us);
    assert_eq!(out.action, remote(&probe_remote_system_info(41000, None), 60));
    let (m, out) = m.step(ok(ALIVE));
    assert_eq!(m.stage, ConnectStage::PickingPort);
    assert_eq!(out.action, ConnectAction::PickPort);
    assert_eq!(out.statuses.len(), 1);
    assert_eq!(out.statuses[0].phase, DesktopSshPhase::Forwarding);
    assert_eq!(out.statuses[0].detail, Some("Setting up port forwards".to_string()));
    assert_eq!(out.statuses[0].remote_port, Some(41000));
    assert!(out.statuses[0].started_by_us);
}

#[test]
fn service_that_does_not_come_up_ends_the_attempt() {
    let (m, _) = with_master(instance("ssh user@h"));
    let (m, _) = m.step(ok("Linux\n"));
    let (m, _) = m.step(ok("openchamber 1.2.3\n"));
    let (m, _) = m.step(ok("started\n"));
    let (_, out) = m.step(ok(DEAD));
    assert_eq!(
        failure(&out),
        (
            ConnectErrorKind::RemoteServerStartFailed,
            "Managed OpenChamber server failed to become reachable".to_string(),
            false,
            true
        )
    );
}

#[test]
fn running_service_on_the_preferred_port_is_used() {
    let mut inst = instance("ssh user@h");
    inst.remote_openchamber.preferred_port = Some(3000);
    let (m, _) = with_master(inst);
    let (m, _) = m.step(ok("Linux\n"));
    let (m, out) = m.step(ok("1.2.3"));
    assert_eq!(m.stage, ConnectStage::DetectingServer);
    assert_eq!(
        phases(&out),
        announced(DesktopSshPhase::ServerDetecting, "Detecting managed OpenChamber server")
    );
    assert_eq!(out.action, remote(&probe_remote_system_info(3000, None), 60));
    let (m, out) = m.step(ok(ALIVE));
    assert_eq!(m.stage, ConnectStage::ConfirmingServer);
    assert_eq!(out.statuses, Vec::new());
    let (m, out) = m.step(ok(ALIVE));
    assert_eq!(m.remote_port, 3000);
    assert!(!m.started_by_us);
    assert_eq!(out.statuses[0].remote_port, Some(3000));
    assert!(!out.statuses[0].started_by_us);
}

#[test]
fn service_that_does_not_run_on_the_preferred_port_is_started_there() {
    let mut inst = instance("ssh user@h");
    inst.remote_openchamber.preferred_port = Some(3000);
    let (m, _) = with_master(inst);
    let (m, _) = m.step(ok("Linux\n"));
    let (m, _) = m.step(ok("1.2.3"));
    let (m, out) = m.step(ok(DEAD));
    assert_eq!(m.stage, ConnectStage::StartingServer);
    assert_eq!(
        phases(&out),
        announced(DesktopSshPhase::ServerStarting, "Starting managed OpenChamber server")
    );
    assert_eq!(
        out.action,
        remote(
            "OPENCHAMBER_RUNTIME=ssh-remote openchamber serve --daemon --hostname 127.0.0.1 --port 3000",
            60
        )
    );
    let (m, _) = m.step(ok("no number here"));
    assert_eq!(m.remote_port, 3000);
}

#[test]
fn external_service_needs_a_port_and_must_answer() {
    let mut inst = instance("ssh user@h");
    inst.remote_openchamber.mode = DesktopSshRemoteMode::External;
    let (m, _) = with_master(inst);
    let (_, out) = m.step(ok("Linux\n"));
    assert_eq!(
        failure(&out),
        (
            ConnectErrorKind::InvalidInstance,
            "External mode requires a preferred remote OpenChamber port".to_string(),
            false,
            true
        )
    );

    let external = || {
        let mut inst = instance("ssh user@h");
        inst.remote_openchamber.mode = DesktopSshRemoteMode::External;
        inst.remote_openchamber.preferred_port = Some(8080);
        inst.auth.openchamber_password = Some(DesktopSshStoredSecret {
            enabled: true,
            value: Some("pw".to_string()),
            store: DesktopSshSecretStore::Settings,
        });
        let (m, _) = with_master(inst);
        m.step(ok("Linux\n"))
    };
    let (m, out) = external();
    assert_eq!(m.stage, ConnectStage::ExternalProbe);
    assert_eq!(out.statuses[0].phase, DesktopSshPhase::ServerDetecting);
    assert_eq!(
        out.statuses[0].detail,
        Some("Probing external OpenChamber server".to_string())
    );
    assert_eq!(out.statuses[0].remote_port, Some(8080));
    assert_eq!(out.action, remote(&probe_remote_system_info(8080, Some("pw")), 60));
    let (m, _) = m.step(ok("INFO_STATUS=200\nAUTH_STATUS=200\nHEALTH_STATUS=200\n{}"));
    assert_eq!(m.stage, ConnectStage::PickingPort);
    assert!(!m.started_by_us);

    let (m, _) = external();
    let (_, out) = m.step(ok("INFO_STATUS=401\nAUTH_STATUS=401\nHEALTH_STATUS=200\n"));
    assert_eq!(
        failure(&out),
        (
            ConnectErrorKind::RemoteAuthRejected,
            "External OpenChamber server probe failed on configured remote port: Remote OpenChamber requires UI authentication and configured password was rejected (auth status 401)".to_string(),
            false,
            true
        )
    );
    let (m, _) = external();
    let (_, out) = m.step(ok(DEAD));
    assert_eq!(
        failure(&out),
        (
            ConnectErrorKind::RemoteProbeFailed,
            "External OpenChamber server probe failed on configured remote port: Remote OpenChamber probe failed (info status 0, health status 0)".to_string(),
            false,
            true
        )
    );
    let (m, _) = external();
    let (_, out) = m.step(bad(127, "curl missing"));
    assert_eq!(
        failure(&out).1,
        "External OpenChamber server probe failed on configured remote port: curl missing"
    );
}

#[test]
fn challenge_without_a_password_asks_for_one() {
    let mut inst = instance("ssh user@h");
    inst.remote_openchamber.mode = DesktopSshRemoteMode::External;
    inst.remote_openchamber.preferred_port = Some(8080);
    let (m, _) = with_master(inst);
    let (m, _) = m.step(ok("Linux\n"));
    let (_, out) = m.step(ok("INFO_STATUS=401\nAUTH_STATUS=0\nHEALTH_STATUS=500\n"));
    assert_eq!(
        failure(&out),
        (
            ConnectErrorKind::RemoteAuthRequired,
            "External OpenChamber server probe failed on configured remote port: Remote OpenChamber requires UI authentication on /api/system/info; configure OpenChamber UI password".to_string(),
            false,
            true
        )
    );
}

#[test]
fn local_port_is_the_preferred_one_if_it_is_free() {
    let mut inst = instance("ssh user@h");
    inst.local_forward.preferred_local_port = Some(4000);
    inst.local_forward.bind_host = " localhost ".to_string();
    let (m, out) = with_server(inst);
    assert_eq!(m.stage, ConnectStage::CheckingPort);
    assert_eq!(
        out.action,
        ConnectAction::CheckPort { host: "localhost".to_string(), port: 4000 }
    );
    let (m, out) = m.step(ConnectEvent::PortAvailable(true));
    assert_eq!(m.local_port, 4000);
    assert_eq!(
        out.action,
        ConnectAction::SpawnForward(texts(&[
            "-o",
            "ControlMaster=no",
            "-o",
            "ControlPath=/tmp/sock",
            "-N",
            "-L",
            "localhost:4000:127.0.0.1:41000",
            "user@h",
        ]))
    );
}

#[test]
fn local_port_that_is_taken_is_replaced_by_a_free_one() {
    let mut inst = instance("ssh user@h");
    inst.local_forward.preferred_local_port = Some(4000);
    let (m, _) = with_server(inst);
    let (m, out) = m.step(ConnectEvent::PortAvailable(false));
    assert_eq!(out.action, ConnectAction::PickPort);
    let (m, out) = m.step(ConnectEvent::PortPicked(Some(50123)));
    assert_eq!(m.local_port, 50123);
    assert!(matches!(out.action, ConnectAction::SpawnForward(_)));

    let (m, out) = with_server(instance("ssh user@h"));
    assert_eq!(out.action, ConnectAction::PickPort);
    let (m, out) = m.step(ConnectEvent::PortPicked(Some(50001)));
    assert_eq!(
        out.action,
        ConnectAction::CheckPort { host: "127.0.0.1".to_string(), port: 50001 }
    );
    let (_, out) = m.step(ConnectEvent::PortAvailable(true));
    assert!(matches!(out.action, ConnectAction::SpawnForward(_)));

    let (m, _) = with_server(instance("ssh user@h"));
    let (_, out) = m.step(ConnectEvent::PortPicked(None));
    assert_eq!(
        failure(&out),
        (
            ConnectErrorKind::LocalPortUnavailable,
            "No local port is available".to_string(),
            false,
            true
        )
    );
}

/// Runs an attempt up to the look at the anchor forward.
fn with_forward(instance: DesktopSshInstance) -> ConnectMachine {
    let (m, _) = with_server(instance);
    let (m, _) = m.step(ConnectEvent::PortPicked(Some(50001)));
    let (m, _) = m.step(ConnectEvent::PortAvailable(true));
    let (m, out) = m.step(ConnectEvent::Spawned);
    assert_eq!(out.action, ConnectAction::Sleep(250));
    let (m, out) = m.step(ConnectEvent::Slept);
    assert_eq!(out.action, ConnectAction::PollForward);
    m
}

#[test]
fn anchor_forward_that_fails_is_tried_once_more_on_a_fresh_port() {
    let m = with_forward(instance("ssh user@h"));
    let (m, out) = m.step(child(ChildState::Failed, "exit status: 255", "bind: in use"));
    assert_eq!(m.stage, ConnectStage::RepickingPort);
    assert_eq!(out.action, ConnectAction::PickPort);
    let (m, _) = m.step(ConnectEvent::PortPicked(Some(50002)));
    let (m, _) = m.step(ConnectEvent::Spawned);
    let (m, _) = m.step(ConnectEvent::Slept);
    let (m, out) = m.step(child(ChildState::Failed, "exit status: 255", " bind: in use \n"));
    assert_eq!(m.stage, ConnectStage::Failed);
    assert_eq!(
        failure(&out),
        (
            ConnectErrorKind::LocalPortUnavailable,
            "Failed to start main port forward (status: exit status: 255): bind: in use"
                .to_string(),
            true,
            true
        )
    );
}

#[test]
fn tunnel_is_waited_for_and_the_session_handed_over() {
    let m = with_forward(instance("ssh user@h"));
    let (m, out) = m.step(child(ChildState::Succeeded, "exit status: 0", ""));
    assert_eq!(out.notice, Some(Notice::ForwardDetached));
    assert_eq!(out.action, ConnectAction::Clock { restart: true });
    let (m, out) = m.step(ConnectEvent::Elapsed(0));
    assert_eq!(
        out.action,
        ConnectAction::ProbeHealth { url: "http://127.0.0.1:50001/health".to_string() }
    );
    let (m, out) = m.step(ConnectEvent::Health(None));
    assert_eq!(out.action, ConnectAction::Sleep(250));
    let (m, out) = m.step(ConnectEvent::Slept);
    assert_eq!(out.action, ConnectAction::Clock { restart: false });
    let (m, _) = m.step(ConnectEvent::Elapsed(29999));
    let (m, _) = m.step(ConnectEvent::Health(Some(503)));
    let (m, _) = m.step(ConnectEvent::Slept);
    let (m, _) = m.step(ConnectEvent::Elapsed(400));
    let (m, out) = m.step(ConnectEvent::Health(Some(401)));
    assert_eq!(
        out.action,
        ConnectAction::Save {
            label: "Prod".to_string(),
            local_url: "http://127.0.0.1:50001".to_string(),
            persist_port: Some(50001),
        }
    );
    let (m, out) = m.step(ConnectEvent::Saved);
    assert_eq!(m.stage, ConnectStage::Done);
    match out.action {
        ConnectAction::Finish { session, warnings } => {
            assert_eq!(session.parsed.destination, "user@h");
            assert_eq!(session.control_path, "/tmp/sock");
            assert_eq!(session.askpass_path, "/data/askpass.sh");
            assert_eq!(session.local_port, 50001);
            assert_eq!(session.remote_port, 41000);
            assert!(session.started_by_us);
            assert!(session.managed);
            assert!(session.keep_running);
            assert!(!session.master_detached);
            assert!(session.main_forward_detached);
            assert_eq!(warnings, Vec::<String>::new());
        }
        other => panic!("{other:?}"),
    }
    let (_, out) = m.step(ConnectEvent::Saved);
    assert_eq!(out.action, ConnectAction::Nothing);
}

#[test]
fn tunnel_that_does_not_answer_in_time_ends_the_attempt() {
    let m = with_forward(instance("ssh user@h"));
    let (m, _) = m.step(child(ChildState::Running, "", ""));
    let (_, out) = m.step(ConnectEvent::Elapsed(30000));
    assert_eq!(
        failure(&out),
        (
            ConnectErrorKind::TunnelNotReady,
            "Timed out waiting for forwarded OpenChamber health".to_string(),
            true,
            true
        )
    );
}

#[test]
fn tunnel_is_ready_on_a_success_or_a_demand_to_log_in() {
    for (status, ready) in [
        (Some(200), true),
        (Some(204), true),
        (Some(299), true),
        (Some(401), true),
        (Some(403), false),
        (Some(199), false),
        (Some(300), false),
        (Some(500), false),
        (None, false),
    ] {
        let m = with_forward(instance("ssh user@h"));
        let (m, _) = m.step(child(ChildState::Running, "", ""));
        let (m, _) = m.step(ConnectEvent::Elapsed(0));
        let (_, out) = m.step(ConnectEvent::Health(status));
        assert_eq!(matches!(out.action, ConnectAction::Save { .. }), ready, "{status:?}");
    }
}

#[test]
fn saved_port_is_not_saved_again() {
    let mut inst = instance("ssh user@h");
    inst.local_forward.preferred_local_port = Some(4000);
    let (m, _) = with_server(inst);
    let (m, _) = m.step(ConnectEvent::PortAvailable(true));
    let (m, _) = m.step(ConnectEvent::Spawned);
    let (m, _) = m.step(ConnectEvent::Slept);
    let (m, _) = m.step(child(ChildState::Running, "", ""));
    let (m, _) = m.step(ConnectEvent::Elapsed(0));
    let (_, out) = m.step(ConnectEvent::Health(Some(200)));
    assert_eq!(
        out.action,
        ConnectAction::Save {
            label: "Prod".to_string(),
            local_url: "http://127.0.0.1:4000".to_string(),
            persist_port: None,
        }
    );
}

fn extra(id: &str, kind: DesktopSshPortForwardType, enabled: bool, local_port: Option<u16>) -> DesktopSshPortForward {
    DesktopSshPortForward {
        id: id.to_string(),
        enabled,
        forward_type: kind,
        local_host: None,
        local_port,
        remote_host: None,
        remote_port: Some(5432),
    }
}

#[test]
fn supplementary_forwards_warn_and_never_fail_the_attempt() {
    let mut inst = instance("ssh user@h");
    inst.port_forwards = vec![
        extra("off", DesktopSshPortForwardType::Local, false, Some(1)),
        extra("bad", DesktopSshPortForwardType::Dynamic, true, None),
        extra("db", DesktopSshPortForwardType::Local, true, Some(15432)),
        extra("refused", DesktopSshPortForwardType::Remote, true, Some(9000)),
        extra("socks", DesktopSshPortForwardType::Dynamic, true, Some(1080)),
        extra("web", DesktopSshPortForwardType::Local, true, Some(8080)),
    ];
    let m = with_forward(inst);
    let (m, out) = m.step(child(ChildState::Running, "", ""));
    assert_eq!(m.stage, ConnectStage::ExtraForward);
    assert_eq!(m.forward_index, 2);
    assert_eq!(m.warnings, texts(&["bad: Missing local port"]));
    assert_eq!(
        out.action,
        ConnectAction::Run(texts(&[
            "-o",
            "ControlMaster=no",
            "-o",
            "ControlPath=/tmp/sock",
            "-o",
            "BatchMode=yes",
            "-o",
            "ConnectTimeout=3",
            "-O",
            "forward",
            "-L",
            "127.0.0.1:15432:127.0.0.1:5432",
            "user@h",
        ]))
    );
    let (m, out) = m.step(ok(""));
    assert_eq!(out.action, ConnectAction::Sleep(100));
    let (m, out) = m.step(ConnectEvent::Slept);
    assert_eq!(out.action, ConnectAction::ProbeTcp(15432));
    let (m, out) = m.step(ConnectEvent::Reachable(false));
    assert_eq!(m.forward_index, 3);
    assert!(matches!(out.action, ConnectAction::Run(_)));
    let (m, out) = m.step(bad(255, "remote port forwarding failed"));
    assert_eq!(m.forward_index, 4);
    assert!(matches!(out.action, ConnectAction::Run(_)));
    let (m, out) = m.step(ok(""));
    assert_eq!(m.forward_index, 5);
    assert!(matches!(out.action, ConnectAction::Run(_)));
    let (m, _) = m.step(ConnectEvent::NotRun("cannot run".to_string()));
    assert_eq!(m.stage, ConnectStage::TunnelClock);
    assert_eq!(
        m.warnings,
        texts(&[
            "bad: Missing local port",
            "db: local listener 127.0.0.1:15432 is not reachable",
            "refused: Failed to configure extra SSH forward refused: remote port forwarding failed",
            "web: Failed to configure extra SSH forward web",
        ])
    );
    let (m, _) = m.step(ConnectEvent::Elapsed(0));
    let (m, _) = m.step(ConnectEvent::Health(Some(200)));
    let (_, out) = m.step(ConnectEvent::Saved);
    match out.action {
        ConnectAction::Finish { warnings, .. } => assert_eq!(warnings.len(), 4),
        other => panic!("{other:?}"),
    }
}

#[test]
fn event_that_is_not_waited_for_ends_the_attempt() {
    let (m, _) = ConnectMachine::begin(instance("ssh user@h"), "1.2.3", 77);
    let (m, out) = m.step(ConnectEvent::Slept);
    assert_eq!(m.stage, ConnectStage::Failed);
    assert_eq!(
        failure(&out),
        (ConnectErrorKind::InternalTaskFailure, "Unexpected event".to_string(), false, false)
    );
}

#[test]
fn prompt_helper_answers_the_three_kinds_of_prompt() {
    assert!(ASKPASS_SCRIPT.starts_with("#!/bin/bash\n"));
    assert!(ASKPASS_SCRIPT.contains("\"$LOWER\" == *\"password\"* || \"$LOWER\" == *\"passphrase\"*"));
    assert!(ASKPASS_SCRIPT.contains("printf '%s\\n' \"$OPENCHAMBER_SSH_ASKPASS_VALUE\""));
    assert!(ASKPASS_SCRIPT.contains("if [[ \"$PROMPT\" == *\"yes/no\"* ]]; then\n  printf '%s\\n' \"yes\"\n  exit 0\nfi"));
    assert!(ASKPASS_SCRIPT.contains("error number -128"));
}
