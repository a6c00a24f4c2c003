use remote_ssh::journal::log_limit;
use remote_ssh::liveness::ChildReport;
use remote_ssh::liveness::ChildState;
use remote_ssh::liveness::Probe;
use remote_ssh::model::DesktopSshParsedCommand;
use remote_ssh::registry::SessionRecord;
use remote_ssh::registry::Supervisor;
use remote_ssh::status::attempt_separator_line;
use remote_ssh::status::format_log_line;
use remote_ssh::status::status_log_message;
use remote_ssh::status::DesktopSshInstanceStatus;
use remote_ssh::status::DesktopSshPhase;
use remote_ssh::status::LogLevel;
use remote_ssh::status::StatusDraft;
use remote_ssh::supervisor::FailureDecision;
use remote_ssh::supervisor::LivenessAnswer;
use remote_ssh::supervisor::MonitorDecision;
use remote_ssh::supervisor::RetryDecision;
use remote_ssh::supervisor::StartDecision;
use remote_ssh::teardown::TeardownAction;

fn texts(items: &[&str]) -> Vec<String> {
    items.iter().map(|s| s.to_string()).collect()
}

fn session(started_by_us: bool, keep_running: bool) -> SessionRecord {
    SessionRecord {
        parsed: DesktopSshParsedCommand { destination: "user@h".to_string(), args: Vec::new() },
        control_path: "/tmp/ocssh-1.sock".to_string(),
        askpass_path: "/data/ssh/a/askpass.sh".to_string(),
        local_port: 4123,
        remote_port: 3000,
        started_by_us,
        managed: true,
        keep_running,
        master_detached: false,
        main_forward_detached: false,
    }
}

fn child(state: ChildState, stderr: &str) -> ChildReport {
    let status = match state {
        ChildState::Running => "",
        ChildState::Succeeded => "exit status: 0",
        ChildState::Failed => "exit status: 255",
    };
    ChildReport { state, status: status.to_string(), stderr: stderr.to_string() }
}

fn ready(supervisor: &mut Supervisor, id: &str, now_ms: u64) {
    let started = supervisor.start_connect(id, true, true, false, now_ms);
    assert!(matches!(started, StartDecision::Started { .. }));
    supervisor.complete_connect(id, session(true, false), &Vec::new(), now_ms);
}

#[test]
fn log_lines_carry_time_level_and_message() {
    assert_eq!(format_log_line(1700000000123, LogLevel::Warn, "hello"), "[1700000000123] [WARN] hello");
    assert_eq!(format_log_line(0, LogLevel::Info, ""), "[0] [INFO] ");
    assert_eq!(format_log_line(5, LogLevel::Error, "x"), "[5] [ERROR] x");
    assert_eq!(
        attempt_separator_line(3, 0),
        "---------------- attempt #3 (manual) ----------------"
    );
    assert_eq!(
        attempt_separator_line(4, 2),
        "---------------- attempt #4 (retry 2) ----------------"
    );
    let mut draft = StatusDraft::error("boom".to_string(), 2);
    assert_eq!(
        status_log_message(&draft),
        "phase=\"error\" detail=boom retry=2 requires_user_action=true"
    );
    draft.phase = DesktopSshPhase::ServerDetecting;
    draft.detail = None;
    draft.requires_user_action = false;
    assert_eq!(
        status_log_message(&draft),
        "phase=\"server_detecting\" detail= retry=2 requires_user_action=false"
    );
}

#[test]
fn phases_have_their_names_on_the_wire() {
    let names = [
        (DesktopSshPhase::Idle, "idle"),
        (DesktopSshPhase::ConfigResolved, "config_resolved"),
        (DesktopSshPhase::AuthCheck, "auth_check"),
        (DesktopSshPhase::MasterConnecting, "master_connecting"),
        (DesktopSshPhase::RemoteProbe, "remote_probe"),
        (DesktopSshPhase::Installing, "installing"),
        (DesktopSshPhase::Updating, "updating"),
        (DesktopSshPhase::ServerDetecting, "server_detecting"),
        (DesktopSshPhase::ServerStarting, "server_starting"),
        (DesktopSshPhase::Forwarding, "forwarding"),
        (DesktopSshPhase::Ready, "ready"),
        (DesktopSshPhase::Degraded, "degraded"),
        (DesktopSshPhase::Error, "error"),
    ];
    for (phase, name) in names {
        assert_eq!(phase.wire_name(), name);
    }
}

#[test]
fn log_keeps_the_newest_1200_lines() {
    let mut supervisor = Supervisor::new();
    for n in 0..1205u64 {
        supervisor.append_log("a", &format!("line {n}"), n);
    }
    let all = supervisor.logs_for_instance("a", 0);
    assert_eq!(all.len(), 1200);
    assert_eq!(all[0], "[5] [INFO] line 5");
    assert_eq!(all[1199], "[1204] [INFO] line 1204");
    let tail = supervisor.logs_for_instance("a", 2);
    assert_eq!(tail, texts(&["[1203] [INFO] line 1203", "[1204] [INFO] line 1204"]));
    assert_eq!(supervisor.logs_for_instance("a", 5000).len(), 1200);
    assert_eq!(supervisor.logs_for_instance("b", 10), Vec::<String>::new());
    supervisor.clear_logs_for_instance("a");
    assert_eq!(supervisor.logs_for_instance("a", 0), Vec::<String>::new());
}

#[test]
fn log_requests_are_capped() {
    assert_eq!(log_limit(None), 200);
    assert_eq!(log_limit(Some(1)), 1);
    assert_eq!(log_limit(Some(0)), 0);
    assert_eq!(log_limit(Some(1200)), 1200);
    assert_eq!(log_limit(Some(1201)), 1200);
    assert_eq!(log_limit(Some(usize::MAX)), 1200);
}

#[test]
fn logs_of_instances_are_kept_apart() {
    let mut supervisor = Supervisor::new();
    supervisor.append_log_with_level("a", LogLevel::Warn, "for a", 1);
    supervisor.append_attempt_separator("b", 1, 0, 2);
    assert_eq!(supervisor.logs_for_instance("a", 0), texts(&["[1] [WARN] for a"]));
    assert_eq!(
        supervisor.logs_for_instance("b", 0),
        texts(&["[2] [INFO] ---------------- attempt #1 (manual) ----------------"])
    );
}

#[test]
fn unknown_instance_is_idle() {
    let supervisor = Supervisor::new();
    assert_eq!(
        supervisor.status_snapshot_for_instance("a", 42),
        DesktopSshInstanceStatus::idle("a", 42)
    );
    let idle = DesktopSshInstanceStatus::idle("a", 42);
    assert_eq!(idle.phase, DesktopSshPhase::Idle);
    assert_eq!(idle.detail, None);
    assert_eq!(idle.local_url, None);
    assert_eq!(idle.retry_attempt, 0);
    assert!(!idle.requires_user_action);
    assert_eq!(idle.updated_at_ms, 42);
    assert!(!supervisor.has_session("a"));
    assert!(!supervisor.is_connecting("a"));
    assert!(!supervisor.is_monitoring("a"));
    assert_eq!(supervisor.current_retry_attempt("a"), 0);
}

#[test]
fn counters_count() {
    let mut supervisor = Supervisor::new();
    assert_eq!(supervisor.next_retry_attempt("a"), 1);
    assert_eq!(supervisor.next_retry_attempt("a"), 2);
    assert_eq!(supervisor.current_retry_attempt("a"), 2);
    assert_eq!(supervisor.current_retry_attempt("b"), 0);
    supervisor.clear_retry_attempt("a");
    assert_eq!(supervisor.current_retry_attempt("a"), 0);
    assert_eq!(supervisor.next_connect_attempt("a"), 1);
    assert_eq!(supervisor.next_connect_attempt("a"), 2);
    assert_eq!(supervisor.next_connect_attempt("b"), 1);
}

#[test]
fn connect_of_an_unknown_instance_is_refused() {
    let mut supervisor = Supervisor::new();
    let decision = supervisor.start_connect("a", false, true, false, 1);
    assert_eq!(decision, StartDecision::NotFound);
    assert_eq!(decision.error(), Some("SSH instance not found".to_string()));
    assert!(!supervisor.is_connecting("a"));
    assert_eq!(supervisor.logs_for_instance("a", 0), Vec::<String>::new());
}

#[test]
fn connect_starts_an_attempt_and_announces_it() {
    let mut supervisor = Supervisor::new();
    let decision = supervisor.start_connect("a", true, true, false, 10);
    match decision {
        StartDecision::Started { teardown, status, connect_attempt, retry_attempt } => {
            assert_eq!(
                teardown,
                vec![TeardownAction::CancelConnectTask, TeardownAction::CancelMonitorTask]
            );
            assert_eq!(status.phase, DesktopSshPhase::ConfigResolved);
            assert_eq!(status.detail, Some("Resolving SSH command".to_string()));
            assert_eq!(status.id, "a");
            assert_eq!(status.updated_at_ms, 10);
            assert_eq!(connect_attempt, 1);
            assert_eq!(retry_attempt, 0);
        }
        other => panic!("{other:?}"),
    }
    assert!(supervisor.is_connecting("a"));
    assert_eq!(
        supervisor.logs_for_instance("a", 0),
        texts(&[
            "[10] [INFO] ---------------- attempt #1 (manual) ----------------",
            "[10] [INFO] Starting SSH connection",
            "[10] [INFO] phase=\"config_resolved\" detail=Resolving SSH command retry=0 requires_user_action=false",
        ])
    );
    let again = supervisor.start_connect("a", true, true, false, 11);
    assert_eq!(again, StartDecision::AlreadyConnecting);
    assert_eq!(again.error(), None);
    assert_eq!(
        supervisor.logs_for_instance("a", 1),
        texts(&["[11] [INFO] Connection already in progress"])
    );
}

#[test]
fn steps_of_an_attempt_set_the_status() {
    let mut supervisor = Supervisor::new();
    supervisor.start_connect("a", true, true, false, 10);
    let status = supervisor
        .set_status(
            "a",
            StatusDraft::plain(DesktopSshPhase::AuthCheck, "Checking SSH connectivity".to_string()),
            20,
        )
        .expect("set");
    assert_eq!(status.phase, DesktopSshPhase::AuthCheck);
    assert_eq!(status.updated_at_ms, 20);
    assert_eq!(supervisor.status_snapshot_for_instance("a", 99), status);
    let refused = supervisor.set_status(
        "a",
        StatusDraft::plain(DesktopSshPhase::Ready, "claims to be ready".to_string()),
        30,
    );
    assert_eq!(refused, None);
    assert_eq!(supervisor.status_snapshot_for_instance("a", 99).phase, DesktopSshPhase::AuthCheck);
}

#[test]
fn time_of_the_status_never_goes_back() {
    let mut supervisor = Supervisor::new();
    supervisor.start_connect("a", true, true, false, 1000);
    let later = supervisor
        .set_status("a", StatusDraft::plain(DesktopSshPhase::AuthCheck, "x".to_string()), 900)
        .expect("set");
    assert_eq!(later.updated_at_ms, 1000);
    let status = supervisor.complete_connect("a", session(false, true), &Vec::new(), 500);
    assert_eq!(status.updated_at_ms, 1000);
    let idle = supervisor.disconnect_internal("a", 1500);
    assert_eq!(idle.status.updated_at_ms, 1500);
    assert_eq!(
        supervisor.logs_for_instance("a", 1),
        texts(&["[1500] [INFO] phase=\"idle\" detail= retry=0 requires_user_action=false"])
    );
}

#[test]
fn finished_attempt_leaves_a_session_and_a_monitor() {
    let mut supervisor = Supervisor::new();
    supervisor.start_connect("a", true, true, false, 10);
    let status = supervisor.complete_connect(
        "a",
        session(true, false),
        &texts(&["web: Missing local port", "db: local listener 127.0.0.1:5432 is not reachable"]),
        20,
    );
    assert_eq!(status.phase, DesktopSshPhase::Ready);
    assert_eq!(
        status.detail,
        Some(
            "SSH instance is ready with forward warnings: web: Missing local port; db: local listener 127.0.0.1:5432 is not reachable"
                .to_string()
        )
    );
    assert_eq!(status.local_url, Some("http://127.0.0.1:4123".to_string()));
    assert_eq!(status.local_port, Some(4123));
    assert_eq!(status.remote_port, Some(3000));
    assert!(status.started_by_us);
    assert_eq!(status.retry_attempt, 0);
    assert!(!status.requires_user_action);
    assert!(supervisor.has_session("a"));
    assert!(!supervisor.is_connecting("a"));
    assert!(supervisor.is_monitoring("a"));

    let mut other = Supervisor::new();
    let plain = other.complete_connect("b", session(false, true), &Vec::new(), 5);
    assert_eq!(plain.detail, Some("SSH instance is ready".to_string()));
    assert!(!plain.started_by_us);
}

#[test]
fn connect_on_a_live_session_announces_it_again() {
    let mut supervisor = Supervisor::new();
    ready(&mut supervisor, "a", 10);
    let decision = supervisor.start_connect("a", true, true, true, 30);
    match decision {
        StartDecision::Reused { status } => {
            assert_eq!(status.phase, DesktopSshPhase::Ready);
            assert_eq!(status.detail, Some("SSH session already active".to_string()));
            assert_eq!(status.local_url, Some("http://127.0.0.1:4123".to_string()));
            assert_eq!(status.local_port, Some(4123));
            assert_eq!(status.remote_port, Some(3000));
            assert!(status.started_by_us);
            assert_eq!(status.updated_at_ms, 30);
        }
        other => panic!("{other:?}"),
    }
    assert!(supervisor.has_session("a"));
    assert!(!supervisor.is_connecting("a"));
    assert_eq!(
        supervisor.logs_for_instance("a", 1),
        texts(&["[30] [INFO] Connection already active; reusing existing SSH session"])
    );
}

#[test]
fn connect_on_a_dead_session_takes_it_down_first() {
    let mut supervisor = Supervisor::new();
    ready(&mut supervisor, "a", 10);
    match supervisor.start_connect("a", true, true, false, 30) {
        StartDecision::Started { teardown, connect_attempt, .. } => {
            assert_eq!(connect_attempt, 2);
            assert_eq!(teardown.len(), 9);
            assert_eq!(teardown[0], TeardownAction::CancelConnectTask);
            assert_eq!(teardown[1], TeardownAction::CancelMonitorTask);
            assert_eq!(teardown[8], TeardownAction::RemoveFile("/data/ssh/a/askpass.sh".to_string()));
        }
        other => panic!("{other:?}"),
    }
    assert!(!supervisor.has_session("a"));
    assert!(supervisor.is_connecting("a"));
    assert!(!supervisor.is_monitoring("a"));
}

#[test]
fn disconnect_takes_everything_down_in_order() {
    let mut supervisor = Supervisor::new();
    ready(&mut supervisor, "a", 10);
    supervisor.next_retry_attempt("a");
    let gone = supervisor.disconnect_internal("a", 40);
    let stop_service = match &gone.teardown[2] {
        TeardownAction::RunSsh(argv) => argv.clone(),
        other => panic!("{other:?}"),
    };
    assert_eq!(
        stop_service,
        texts(&[
            "-o",
            "ControlMaster=no",
            "-o",
            "ControlPath=/tmp/ocssh-1.sock",
            "-o",
            "ConnectTimeout=60",
            "-T",
            "user@h",
            "sh -lc 'if command -v curl >/dev/null 2>&1; then curl -fsS -X POST http://127.0.0.1:3000/api/system/shutdown >/dev/null 2>&1 || true; elif command -v wget >/dev/null 2>&1; then wget -qO- --method=POST http://127.0.0.1:3000/api/system/shutdown >/dev/null 2>&1 || true; fi'",
        ])
    );
    assert_eq!(
        gone.teardown,
        vec![
            TeardownAction::CancelConnectTask,
            TeardownAction::CancelMonitorTask,
            TeardownAction::RunSsh(stop_service),
            TeardownAction::RunSsh(texts(&[
                "-o",
                "ControlMaster=no",
                "-o",
                "ControlPath=/tmp/ocssh-1.sock",
                "-o",
                "BatchMode=yes",
                "-o",
                "ConnectTimeout=3",
                "-O",
                "exit",
                "user@h",
            ])),
            TeardownAction::KillExtraForwards,
            TeardownAction::KillMainForward,
            TeardownAction::KillMaster,
            TeardownAction::RemoveFile("/tmp/ocssh-1.sock".to_string()),
            TeardownAction::RemoveFile("/data/ssh/a/askpass.sh".to_string()),
        ]
    );
    assert_eq!(gone.status.phase, DesktopSshPhase::Idle);
    assert_eq!(gone.status.detail, None);
    assert!(!supervisor.has_session("a"));
    assert!(!supervisor.is_connecting("a"));
    assert!(!supervisor.is_monitoring("a"));
    assert_eq!(supervisor.current_retry_attempt("a"), 0);
}

#[test]
fn remote_service_that_is_to_keep_running_is_not_stopped() {
    let mut supervisor = Supervisor::new();
    supervisor.complete_connect("a", session(true, true), &Vec::new(), 1);
    assert_eq!(supervisor.disconnect_internal("a", 2).teardown.len(), 8);
    supervisor.complete_connect("b", session(false, false), &Vec::new(), 1);
    assert_eq!(supervisor.disconnect_internal("b", 2).teardown.len(), 8);
    let mut external = session(true, false);
    external.managed = false;
    supervisor.complete_connect("c", external, &Vec::new(), 1);
    assert_eq!(supervisor.disconnect_internal("c", 2).teardown.len(), 8);
    assert_eq!(supervisor.disconnect_internal("never", 2).teardown.len(), 2);
}

#[test]
fn look_at_a_session_follows_the_detach_rule() {
    let mut supervisor = Supervisor::new();
    assert_eq!(
        supervisor.session_is_alive(
            "a",
            &child(ChildState::Running, ""),
            &child(ChildState::Running, ""),
            None,
            None,
            1
        ),
        LivenessAnswer::NotAlive
    );
    ready(&mut supervisor, "a", 10);
    let running = child(ChildState::Running, "");
    let succeeded = child(ChildState::Succeeded, "");
    let failed = child(ChildState::Failed, "");
    assert_eq!(
        supervisor.session_is_alive("a", &running, &succeeded, None, None, 20),
        LivenessAnswer::Need(Probe::Check)
    );
    assert_eq!(
        supervisor.session_is_alive("a", &running, &succeeded, Some(true), None, 20),
        LivenessAnswer::Alive
    );
    assert_eq!(
        supervisor.logs_for_instance("a", 1),
        texts(&["[20] [INFO] SSH ControlMaster transitioned to detached background mode"])
    );
    // From now on the control master is judged by whether it answers.
    assert_eq!(
        supervisor.session_is_alive("a", &running, &running, None, None, 30),
        LivenessAnswer::Need(Probe::Check)
    );
    assert_eq!(
        supervisor.session_is_alive("a", &running, &failed, Some(false), None, 30),
        LivenessAnswer::Need(Probe::Tcp)
    );
    assert_eq!(
        supervisor.session_is_alive("a", &running, &failed, Some(false), Some(true), 30),
        LivenessAnswer::Alive
    );
    assert_eq!(
        supervisor.logs_for_instance("a", 1),
        texts(&["[30] [WARN] SSH ControlMaster check failed but local tunnel is still reachable"])
    );
    assert_eq!(
        supervisor.session_is_alive("a", &running, &failed, Some(false), Some(false), 40),
        LivenessAnswer::NotAlive
    );
    assert_eq!(
        supervisor.logs_for_instance("a", 1),
        texts(&["[40] [WARN] SSH ControlMaster is not reachable"])
    );
    assert!(supervisor.has_session("a"));
}

#[test]
fn monitor_without_a_session_stops() {
    let mut supervisor = Supervisor::new();
    let running = child(ChildState::Running, "");
    assert_eq!(
        supervisor.monitor_tick("a", &running, &running, None, None, 1, 0),
        MonitorDecision::Stop
    );
}

#[test]
fn monitor_retries_five_times_and_then_gives_up() {
    let mut supervisor = Supervisor::new();
    let running = child(ChildState::Running, "");
    let failed = child(ChildState::Failed, "broken pipe");
    for attempt in 1..=5u32 {
        if attempt == 1 {
            ready(&mut supervisor, "a", 10);
        } else {
            let started = supervisor.start_connect("a", true, false, false, 10);
            match started {
                StartDecision::Started { retry_attempt, .. } => assert_eq!(retry_attempt, attempt - 1),
                other => panic!("{other:?}"),
            }
            supervisor.complete_connect("a", session(true, false), &Vec::new(), 10);
            // A connect that succeeds forgets the retries; count them again.
            for _ in 1..attempt {
                supervisor.next_retry_attempt("a");
            }
        }
        assert_eq!(
            supervisor.monitor_tick("a", &running, &running, None, None, 20, 0),
            MonitorDecision::Continue
        );
        match supervisor.monitor_tick("a", &failed, &running, None, None, 30, 250) {
            MonitorDecision::Dropped(RetryDecision::Retry {
                teardown,
                status,
                attempt: counted,
                delay_ms,
            }) => {
                assert_eq!(counted, attempt);
                assert_eq!(teardown.len(), 9);
                assert_eq!(status.phase, DesktopSshPhase::Degraded);
                assert_eq!(
                    status.detail,
                    Some(
                        "Main SSH forward exited (exit status: 255): broken pipe. Reconnecting"
                            .to_string()
                    )
                );
                assert_eq!(status.retry_attempt, attempt);
                assert!(!status.requires_user_action);
                assert_eq!(delay_ms, (1000u64 << (attempt - 1)) + 350);
            }
            other => panic!("{other:?}"),
        }
        assert!(!supervisor.has_session("a"));
        assert!(!supervisor.is_monitoring("a"));
        assert_eq!(supervisor.current_retry_attempt("a"), attempt);
    }
    // The sixth drop in a row: the attempts are used up.
    supervisor.start_connect("a", true, false, false, 40);
    match supervisor.fail_connect("a", "connection refused", 50, 0) {
        FailureDecision::Dropped(RetryDecision::GiveUp { teardown, status }) => {
            assert_eq!(teardown.len(), 2);
            assert_eq!(status.phase, DesktopSshPhase::Error);
            assert_eq!(
                status.detail,
                Some("connection refused. Retry limit reached".to_string())
            );
            assert_eq!(status.retry_attempt, 6);
            assert!(status.requires_user_action);
        }
        other => panic!("{other:?}"),
    }
    assert!(!supervisor.is_connecting("a"));
    // A connect that the user asks for starts afresh.
    match supervisor.start_connect("a", true, true, false, 60) {
        StartDecision::Started { retry_attempt, .. } => assert_eq!(retry_attempt, 0),
        other => panic!("{other:?}"),
    }
    assert_eq!(supervisor.current_retry_attempt("a"), 0);
}

#[test]
fn failure_of_a_manual_connect_ends_in_error() {
    let mut supervisor = Supervisor::new();
    supervisor.start_connect("a", true, true, false, 10);
    match supervisor.fail_connect("a", "Unsupported remote OS: freebsd", 20, 0) {
        FailureDecision::Final { status } => {
            assert_eq!(status.phase, DesktopSshPhase::Error);
            assert_eq!(status.detail, Some("Unsupported remote OS: freebsd".to_string()));
            assert_eq!(status.retry_attempt, 0);
            assert!(status.requires_user_action);
        }
        other => panic!("{other:?}"),
    }
    assert!(!supervisor.is_connecting("a"));
    assert!(!supervisor.has_session("a"));
}

#[test]
fn failure_of_a_reconnect_counts_as_a_drop() {
    let mut supervisor = Supervisor::new();
    ready(&mut supervisor, "a", 10);
    let failed = child(ChildState::Failed, "");
    let running = child(ChildState::Running, "");
    supervisor.monitor_tick("a", &failed, &running, None, None, 20, 0);
    supervisor.start_connect("a", true, false, false, 30);
    match supervisor.fail_connect("a", "still down", 40, 1) {
        FailureDecision::Dropped(RetryDecision::Retry { status, attempt, delay_ms, .. }) => {
            assert_eq!(attempt, 2);
            assert_eq!(delay_ms, 2101);
            assert_eq!(status.phase, DesktopSshPhase::Degraded);
            assert_eq!(status.detail, Some("still down. Reconnecting".to_string()));
        }
        other => panic!("{other:?}"),
    }
}

#[test]
fn statuses_are_listed_for_the_saved_instances_sorted_by_id() {
    let mut supervisor = Supervisor::new();
    ready(&mut supervisor, "b", 10);
    supervisor.start_connect("zeta", true, true, false, 11);
    supervisor.append_log("not-saved", "x", 12);
    let listed = supervisor.statuses_with_defaults(&texts(&["zeta", "b", "a"]), 99);
    let summary: Vec<(&str, DesktopSshPhase, u64)> = listed
        .iter()
        .map(|s| (s.id.as_str(), s.phase, s.updated_at_ms))
        .collect();
    assert_eq!(
        summary,
        vec![
            ("a", DesktopSshPhase::Idle, 99),
            ("b", DesktopSshPhase::Ready, 10),
            ("zeta", DesktopSshPhase::ConfigResolved, 11),
        ]
    );
    assert_eq!(supervisor.statuses_with_defaults(&Vec::new(), 1), Vec::new());
}

#[test]
fn shutdown_takes_every_instance_down() {
    let mut supervisor = Supervisor::new();
    ready(&mut supervisor, "a", 10);
    supervisor.start_connect("b", true, true, false, 11);
    let plans = supervisor.shutdown_all();
    assert_eq!(plans.len(), 2);
    assert_eq!(plans[0].id, "a");
    assert_eq!(plans[0].teardown.len(), 9);
    assert_eq!(plans[1].id, "b");
    assert_eq!(
        plans[1].teardown,
        vec![TeardownAction::CancelConnectTask, TeardownAction::CancelMonitorTask]
    );
    for id in ["a", "b"] {
        assert!(!supervisor.has_session(id));
        assert!(!supervisor.is_connecting(id));
        assert!(!supervisor.is_monitoring(id));
    }
    assert_eq!(
        supervisor.status_snapshot_for_instance("a", 5),
        DesktopSshInstanceStatus::idle("a", 10)
    );
    assert_eq!(
        supervisor.status_snapshot_for_instance("b", 5).phase,
        DesktopSshPhase::ConfigResolved
    );
}
