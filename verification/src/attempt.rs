//! The executable step of a connect attempt.

use vstd::prelude::*;
use vstd::string::StringExecFns;
use crate::command::parse_ssh_command;
use crate::connect::ASKPASS_SCRIPT;
use crate::connect::ConnectAction;
use crate::connect::ConnectErrorKind;
use crate::connect::ConnectEvent;
use crate::connect::ConnectMachine;
use crate::connect::ConnectOutput;
use crate::connect::ConnectStage;
use crate::connect::announce;
use crate::connect::begun;
use crate::connect::connect_step;
use crate::connect::external_failure;
use crate::connect::fail;
use crate::connect::forward_failure_detail;
use crate::connect::forward_warning;
use crate::connect::next_forward;
use crate::connect::probe_error_kind;
use crate::connect::probe_error_text;
use crate::connect::probe_script_for;
use crate::connect::quiet;
use crate::connect::remote_run;
use crate::connect::stored_ssh_password;
use crate::connect::to_confirming;
use crate::connect::to_detecting;
use crate::connect::to_forwarding;
use crate::connect::to_probing_os;
use crate::connect::to_remote_server;
use crate::connect::to_spawning_forward;
use crate::connect::to_starting;
use crate::connect::to_tunnel_wait;
use crate::connect::unexpected;
use crate::connect::unreachable_detail;
use crate::connect::warned;
use crate::executor::control_master_operation;
use crate::executor::control_path_for_instance;
use crate::executor::extra_forward_outcome;
use crate::executor::remote_command_output;
use crate::executor::resolve_ssh_config;
use crate::executor::resolve_ssh_config_args;
use crate::executor::run_remote_command;
use crate::executor::spawn_extra_forward;
use crate::executor::spawn_main_forward;
use crate::executor::spawn_master_process;
use crate::hashing::hash_text_and_number;
use crate::hosts::build_display_label;
use crate::liveness::ChildState;
use crate::liveness::Notice;
use crate::model::DEFAULT_CONNECTION_TIMEOUT_SEC;
use crate::model::DEFAULT_READY_TIMEOUT_SEC;
use crate::model::DesktopSshInstance;
use crate::model::DesktopSshParsedCommand;
use crate::model::DesktopSshPortForwardType;
use crate::model::DesktopSshRemoteMode;
use crate::number::push_decimal;
use crate::probe::ProbeError;
use crate::probe::interpret_probe_output;
use crate::registry::SessionRecord;
use crate::remote::VERSION_SCRIPT;
use crate::remote::configured_openchamber_password;
use crate::remote::current_remote_openchamber_version;
use crate::remote::install_openchamber_managed;
use crate::remote::probe_remote_system_info;
use crate::remote::random_port_candidate;
use crate::remote::remote_command_exists;
use crate::remote::remote_command_exists_script;
use crate::remote::remote_server_running;
use crate::remote::start_remote_server_managed;
use crate::remote::started_port;
use crate::sanitize::sanitize_bind_host;
use crate::shell::push_text;
use crate::status::DesktopSshPhase;
use crate::status::StatusDraft;
use crate::supervisor::local_url;
use crate::text::from_chars;
use crate::text::is_text;
use crate::text::lowered;
use crate::text::push_chars;
use crate::text::push_str;
use crate::text::texts;
use crate::text::trimmed_str;

verus! {

type Step = (ConnectMachine, ConnectOutput);

fn silent(action: ConnectAction) -> (r: ConnectOutput)
    ensures
        r@ == quiet(action@),
{
    let statuses: Vec<StatusDraft> = Vec::new();
    assert(crate::model::views(statuses@) =~= Seq::<crate::status::StatusDraftView>::empty());
    ConnectOutput { statuses, notice: None, action }
}

fn announcing(phase: DesktopSshPhase, detail: &str, action: ConnectAction) -> (r: ConnectOutput)
    ensures
        r@ == announce(phase, detail@, action@),
{
    ConnectOutput {
        statuses: one_status(StatusDraft::plain(phase, String::from_str(detail))),
        notice: None,
        action,
    }
}

fn one_status(draft: StatusDraft) -> (r: Vec<StatusDraft>)
    ensures
        crate::model::views(r@) == seq![draft@],
{
    let mut statuses: Vec<StatusDraft> = Vec::new();
    statuses.push(draft);
    assert(crate::model::views(statuses@) =~= seq![draft@]);
    statuses
}

fn failing(m: ConnectMachine, kind: ConnectErrorKind, detail: String) -> (r: Step)
    ensures
        (r.0@, r.1@) == fail(m@, kind, detail@),
{
    let mut m = m;
    let action = ConnectAction::Fail {
        kind,
        detail,
        kill_forward: m.forward_spawned,
        kill_master: m.master_spawned,
    };
    m.stage = ConnectStage::Failed;
    (m, silent(action))
}

fn surprised(m: ConnectMachine) -> (r: Step)
    ensures
        (r.0@, r.1@) == unexpected(m@),
{
    failing(m, ConnectErrorKind::InternalTaskFailure, String::from_str("Unexpected event"))
}

fn remote_action(m: &ConnectMachine, script: &str, timeout_sec: u16) -> (r: ConnectAction)
    ensures
        r@ == remote_run(m@, script@, timeout_sec),
{
    ConnectAction::Run(run_remote_command(&m.parsed, m.control_path.as_str(), script, timeout_sec))
}

fn has_password(m: &ConnectMachine) -> (r: bool)
    ensures
        r == crate::remote::configured_password(m@.instance) is Some,
{
    configured_openchamber_password(&m.instance).is_some()
}

fn probe_script(m: &ConnectMachine, port: u16) -> (r: String)
    ensures
        r@ == probe_script_for(m@, port),
{
    match configured_openchamber_password(&m.instance) {
        Some(p) => probe_remote_system_info(port, Some(p.as_str())),
        None => probe_remote_system_info(port, None),
    }
}

fn probe_error_message(e: ProbeError) -> (r: String)
    ensures
        r@ == probe_error_text(e),
{
    let mut out: Vec<char> = Vec::new();
    match e {
        ProbeError::RemoteAuthRejected { auth_status } => {
            push_str(
                &mut out,
                "Remote OpenChamber requires UI authentication and configured password was rejected (auth status ",
            );
            push_decimal(&mut out, auth_status as u64);
            push_str(&mut out, ")");
        },
        ProbeError::RemoteAuthRequired => {
            push_str(
                &mut out,
                "Remote OpenChamber requires UI authentication on /api/system/info; configure OpenChamber UI password",
            );
        },
        ProbeError::RemoteProbeFailed { info_status, health_status } => {
            push_str(&mut out, "Remote OpenChamber probe failed (info status ");
            push_decimal(&mut out, info_status as u64);
            push_str(&mut out, ", health status ");
            push_decimal(&mut out, health_status as u64);
            push_str(&mut out, ")");
        },
    }
    assert(out@ =~= probe_error_text(e));
    from_chars(&out)
}

fn probe_error_to_kind(e: ProbeError) -> (r: ConnectErrorKind)
    ensures
        r == probe_error_kind(e),
{
    match e {
        ProbeError::RemoteAuthRejected { .. } => ConnectErrorKind::RemoteAuthRejected,
        ProbeError::RemoteAuthRequired => ConnectErrorKind::RemoteAuthRequired,
        ProbeError::RemoteProbeFailed { .. } => ConnectErrorKind::RemoteProbeFailed,
    }
}

fn external_failure_text(what: &str) -> (r: String)
    ensures
        r@ == external_failure(what@),
{
    String::from_str("External OpenChamber server probe failed on configured remote port: ").concat(
        what,
    )
}

fn ssh_password_of(instance: &DesktopSshInstance) -> (r: Option<String>)
    ensures
        crate::text::opt_text(r) == stored_ssh_password(instance@),
{
    match &instance.auth.ssh_password {
        Some(secret) => if secret.enabled {
            crate::model::copy_opt_string(&secret.value)
        } else {
            None
        },
        None => None,
    }
}

fn go_probing_os(m: ConnectMachine) -> (r: Step)
    ensures
        (r.0@, r.1@) == to_probing_os(m@),
{
    let mut m = m;
    let action = remote_action(&m, "uname -s", m.instance.connection_timeout_sec);
    m.stage = ConnectStage::ProbingOs;
    (m, announcing(DesktopSshPhase::RemoteProbe, "Probing remote platform", action))
}

fn go_forwarding(m: ConnectMachine) -> (r: Step)
    ensures
        (r.0@, r.1@) == to_forwarding(m@),
{
    let mut m = m;
    let statuses = one_status(
        StatusDraft {
            phase: DesktopSshPhase::Forwarding,
            detail: Some(String::from_str("Setting up port forwards")),
            local_url: None,
            local_port: None,
            remote_port: Some(m.remote_port),
            started_by_us: m.started_by_us,
            retry_attempt: 0,
            requires_user_action: false,
        },
    );
    let preferred: u16 = match m.instance.local_forward.preferred_local_port {
        Some(p) => p,
        None => 0,
    };
    if preferred != 0 {
        let host = sanitize_bind_host(m.instance.local_forward.bind_host.as_str());
        m.stage = ConnectStage::CheckingPort;
        m.local_port = preferred;
        (
            m,
            ConnectOutput {
                statuses,
                notice: None,
                action: ConnectAction::CheckPort { host, port: preferred },
            },
        )
    } else {
        m.stage = ConnectStage::PickingPort;
        (m, ConnectOutput { statuses, notice: None, action: ConnectAction::PickPort })
    }
}

fn go_starting(m: ConnectMachine) -> (r: Step)
    ensures
        (r.0@, r.1@) == to_starting(m@),
{
    let mut m = m;
    let desired: u16 = match m.instance.remote_openchamber.preferred_port {
        Some(port) => port,
        None => random_port_candidate(m.port_hash),
    };
    let script = start_remote_server_managed(&m.instance, desired);
    let action = remote_action(&m, script.as_str(), DEFAULT_CONNECTION_TIMEOUT_SEC);
    m.stage = ConnectStage::StartingServer;
    m.desired_port = desired;
    (
        m,
        announcing(DesktopSshPhase::ServerStarting, "Starting managed OpenChamber server", action),
    )
}

fn go_detecting(m: ConnectMachine) -> (r: Step)
    ensures
        (r.0@, r.1@) == to_detecting(m@),
{
    let mut m = m;
    match m.instance.remote_openchamber.preferred_port {
        Some(port) => {
            let script = probe_script(&m, port);
            let action = remote_action(&m, script.as_str(), DEFAULT_CONNECTION_TIMEOUT_SEC);
            m.stage = ConnectStage::DetectingServer;
            m.remote_port = port;
            (
                m,
                announcing(
                    DesktopSshPhase::ServerDetecting,
                    "Detecting managed OpenChamber server",
                    action,
                ),
            )
        },
        None => {
            let (next, out) = go_starting(m);
            let mut statuses = one_status(
                StatusDraft::plain(
                    DesktopSshPhase::ServerDetecting,
                    String::from_str("Detecting managed OpenChamber server"),
                ),
            );
            let ghost first = crate::model::views(statuses@);
            let ghost rest = crate::model::views(out.statuses@);
            let mut later = out.statuses;
            statuses.append(&mut later);
            assert(crate::model::views(statuses@) =~= first + rest);
            (next, ConnectOutput { statuses, notice: out.notice, action: out.action })
        },
    }
}

fn go_confirming(m: ConnectMachine) -> (r: Step)
    ensures
        (r.0@, r.1@) == to_confirming(m@),
{
    let mut m = m;
    let script = probe_script(&m, m.remote_port);
    let action = remote_action(&m, script.as_str(), DEFAULT_CONNECTION_TIMEOUT_SEC);
    m.stage = ConnectStage::ConfirmingServer;
    (m, silent(action))
}

fn go_remote_server(m: ConnectMachine) -> (r: Step)
    ensures
        (r.0@, r.1@) == to_remote_server(m@),
{
    let mut m = m;
    match m.instance.remote_openchamber.mode {
        DesktopSshRemoteMode::External => match m.instance.remote_openchamber.preferred_port {
            None => failing(
                m,
                ConnectErrorKind::InvalidInstance,
                String::from_str("External mode requires a preferred remote OpenChamber port"),
            ),
            Some(port) => {
                let script = probe_script(&m, port);
                let action = remote_action(&m, script.as_str(), DEFAULT_CONNECTION_TIMEOUT_SEC);
                m.stage = ConnectStage::ExternalProbe;
                m.remote_port = port;
                let status = StatusDraft {
                    phase: DesktopSshPhase::ServerDetecting,
                    detail: Some(String::from_str("Probing external OpenChamber server")),
                    local_url: None,
                    local_port: None,
                    remote_port: Some(port),
                    started_by_us: false,
                    retry_attempt: 0,
                    requires_user_action: false,
                };
                (m, ConnectOutput { statuses: one_status(status), notice: None, action })
            },
        },
        DesktopSshRemoteMode::Managed => {
            let action = remote_action(&m, VERSION_SCRIPT, DEFAULT_CONNECTION_TIMEOUT_SEC);
            m.stage = ConnectStage::ReadingVersion;
            (
                m,
                announcing(
                    DesktopSshPhase::RemoteProbe,
                    "Checking remote OpenChamber installation",
                    action,
                ),
            )
        },
    }
}

fn go_checking_bun(m: ConnectMachine, phase: DesktopSshPhase, detail: String) -> (r: Step)
    ensures
        (r.0@, r.1@) == crate::connect::to_checking_bun(m@, phase, detail@),
{
    let mut m = m;
    let script = remote_command_exists_script("bun");
    let action = remote_action(&m, script.as_str(), DEFAULT_CONNECTION_TIMEOUT_SEC);
    m.stage = ConnectStage::CheckingBun;
    (
        m,
        ConnectOutput {
            statuses: one_status(StatusDraft::plain(phase, detail)),
            notice: None,
            action,
        },
    )
}

fn go_spawning_forward(m: ConnectMachine) -> (r: Step)
    ensures
        (r.0@, r.1@) == to_spawning_forward(m@),
{
    let mut m = m;
    let host = sanitize_bind_host(m.instance.local_forward.bind_host.as_str());
    let argv = spawn_main_forward(
        &m.parsed,
        m.control_path.as_str(),
        host.as_str(),
        m.local_port,
        m.remote_port,
    );
    m.stage = ConnectStage::SpawningForward;
    (m, silent(ConnectAction::SpawnForward(argv)))
}

fn go_tunnel_wait(m: ConnectMachine) -> (r: Step)
    ensures
        (r.0@, r.1@) == to_tunnel_wait(m@),
{
    let mut m = m;
    m.stage = ConnectStage::TunnelClock;
    (m, silent(ConnectAction::Clock { restart: true }))
}

fn warning_text(id: &str, what: &str) -> (r: String)
    ensures
        r@ == forward_warning(id@, what@),
{
    String::from_str(id).concat(": ").concat(what)
}

fn go_next_forward(machine: ConnectMachine, from: usize) -> (r: Step)
    ensures
        (r.0@, r.1@) == next_forward(machine@, from as int),
{
    let ghost start = machine@;
    let mut m = machine;
    let mut i: usize = from;
    while i < m.instance.port_forwards.len()
        invariant
            start == machine@,
            next_forward(start, from as int) == next_forward(m@, i as int),
        decreases m.instance.port_forwards.len() - i,
    {
        let ghost before = m@;
        assert(before.instance.port_forwards[i as int] == m.instance.port_forwards@[i as int]@);
        if m.instance.port_forwards[i].enabled {
            match spawn_extra_forward(
                &m.parsed,
                m.control_path.as_str(),
                &m.instance.port_forwards[i],
            ) {
                Ok(argv) => {
                    m.stage = ConnectStage::ExtraForward;
                    m.forward_index = i;
                    return (m, silent(ConnectAction::Run(argv)));
                },
                Err(e) => {
                    let warning = warning_text(
                        m.instance.port_forwards[i].id.as_str(),
                        e.message().as_str(),
                    );
                    push_text(&mut m.warnings, warning);
                },
            }
        }
        i += 1;
    }
    go_tunnel_wait(m)
}

fn add_warning(m: ConnectMachine, what: &str) -> (r: ConnectMachine)
    requires
        crate::connect::has_current_forward(m@),
    ensures
        r@ == warned(m@, what@),
{
    let mut m = m;
    assert(m@.instance.port_forwards[m.forward_index as int] == m.instance.port_forwards@[m.forward_index as int]@);
    let warning = warning_text(m.instance.port_forwards[m.forward_index].id.as_str(), what);
    push_text(&mut m.warnings, warning);
    m
}

fn probe_port(m: &ConnectMachine) -> (r: Option<u16>)
    requires
        crate::connect::has_current_forward(m@),
    ensures
        r == crate::connect::probe_port_of(crate::connect::current_forward(m@)),
{
    assert(m@.instance.port_forwards[m.forward_index as int] == m.instance.port_forwards@[m.forward_index as int]@);
    let f = &m.instance.port_forwards[m.forward_index];
    match f.forward_type {
        DesktopSshPortForwardType::Local => f.local_port,
        _ => None,
    }
}

/// The script that answers the prompts of the SSH client.
pub fn askpass_script_content() -> (r: String)
    ensures
        r@ == ASKPASS_SCRIPT@,
{
    String::from_str(ASKPASS_SCRIPT)
}

impl ConnectMachine {
    /// Begins an attempt to connect an instance: the configuration of its
    /// destination is asked for. `app_version` is the version of the
    /// service that the instance is to run; `now_ms` spreads the port that
    /// the service may be asked to listen on.
    pub fn begin(instance: DesktopSshInstance, app_version: &str, now_ms: u64) -> (r: (
        ConnectMachine,
        ConnectOutput,
    ))
        ensures
            (r.0@, r.1@) == begun(instance@, app_version@, now_ms),
    {
        let parsed: Option<DesktopSshParsedCommand> = match &instance.ssh_parsed {
            Some(p) => Some(p.clone()),
            None => match parse_ssh_command(instance.ssh_command.as_str()) {
                Ok(p) => Some(p),
                Err(_) => None,
            },
        };
        let port_hash = hash_text_and_number(instance.id.as_str(), now_ms);
        let (parsed, valid) = match parsed {
            Some(p) => (p, true),
            None => (DesktopSshParsedCommand { destination: String::new(), args: Vec::new() }, false),
        };
        assert(!valid ==> texts(parsed.args@) =~= Seq::<Seq<char>>::empty());
        let m = ConnectMachine {
            instance,
            parsed,
            app_version: String::from_str(app_version),
            port_hash,
            stage: ConnectStage::Resolving,
            control_path: String::new(),
            askpass_path: String::new(),
            master_spawned: false,
            forward_spawned: false,
            has_bun: false,
            install_plan: Vec::new(),
            install_index: 0,
            remote_port: 0,
            desired_port: 0,
            started_by_us: false,
            local_port: 0,
            port_retried: false,
            main_forward_detached: false,
            forward_index: 0,
            warnings: Vec::new(),
        };
        assert(texts(m.install_plan@) =~= Seq::<Seq<char>>::empty());
        assert(texts(m.warnings@) =~= Seq::<Seq<char>>::empty());
        if valid {
            let action = ConnectAction::Run(resolve_ssh_config_args(&m.parsed));
            (m, silent(action))
        } else {
            failing(m, ConnectErrorKind::InvalidInstance, String::from_str("Invalid SSH command"))
        }
    }

    /// Takes what the last action brought and names the next action.
    pub fn step(self, event: ConnectEvent) -> (r: (ConnectMachine, ConnectOutput))
        ensures
            (r.0@, r.1@) == connect_step(self@, event@),
    {
        match self.stage {
            ConnectStage::Resolving => self.on_resolving(event),
            ConnectStage::Preparing => self.on_preparing(event),
            ConnectStage::SpawningMaster => self.on_spawning_master(event),
            ConnectStage::MasterClock => self.on_master_clock(event),
            ConnectStage::MasterCheck => self.on_master_check(event),
            ConnectStage::MasterPoll => self.on_master_poll(event),
            ConnectStage::MasterSleep => self.on_master_sleep(event),
            ConnectStage::ProbingOs => self.on_probing_os(event),
            ConnectStage::ExternalProbe => self.on_external_probe(event),
            ConnectStage::ReadingVersion => self.on_reading_version(event),
            ConnectStage::CheckingBun => self.on_checking_bun(event),
            ConnectStage::CheckingNpm => self.on_checking_npm(event),
            ConnectStage::Installing => self.on_installing(event),
            ConnectStage::DetectingServer => self.on_detecting(event),
            ConnectStage::StartingServer => self.on_starting(event),
            ConnectStage::ConfirmingServer => self.on_confirming(event),
            ConnectStage::PickingPort => self.on_picking_port(event),
            ConnectStage::CheckingPort => self.on_checking_port(event),
            ConnectStage::RepickingPort => self.on_repicking_port(event),
            ConnectStage::SpawningForward => self.on_spawning_forward(event),
            ConnectStage::SettlingForward => self.on_settling_forward(event),
            ConnectStage::PollingForward => self.on_polling_forward(event),
            ConnectStage::ExtraForward => self.on_extra_forward(event),
            ConnectStage::ExtraSettle => self.on_extra_settle(event),
            ConnectStage::ExtraProbe => self.on_extra_probe(event),
            ConnectStage::TunnelClock => self.on_tunnel_clock(event),
            ConnectStage::TunnelProbe => self.on_tunnel_probe(event),
            ConnectStage::TunnelSleep => self.on_tunnel_sleep(event),
            ConnectStage::Saving => self.on_saving(event),
            ConnectStage::Done => (self, silent(ConnectAction::Nothing)),
            ConnectStage::Failed => (self, silent(ConnectAction::Nothing)),
        }
    }

    fn on_resolving(self, event: ConnectEvent) -> (r: Step)
        ensures
            (r.0@, r.1@) == crate::connect::on_resolving(self@, event@),
    {
        let mut m = self;
        match event {
            ConnectEvent::Command(o) => match resolve_ssh_config(&o) {
                Err(complaint) => failing(m, ConnectErrorKind::SshConfigResolveFailed, complaint),
                Ok(_) => {
                    let action = ConnectAction::Prepare {
                        socket_name: control_path_for_instance(m.instance.id.as_str()),
                        askpass_script: String::from_str(ASKPASS_SCRIPT),
                    };
                    m.stage = ConnectStage::Preparing;
                    (m, announcing(DesktopSshPhase::AuthCheck, "Checking SSH connectivity", action))
                },
            },
            ConnectEvent::NotRun(why) => failing(m, ConnectErrorKind::SshConfigResolveFailed, why),
            _ => surprised(m),
        }
    }

    fn on_preparing(self, event: ConnectEvent) -> (r: Step)
        ensures
            (r.0@, r.1@) == crate::connect::on_preparing(self@, event@),
    {
        let mut m = self;
        match event {
            ConnectEvent::Prepared { control_path, askpass_path } => {
                let password = ssh_password_of(&m.instance);
                let launch = match &password {
                    Some(p) => spawn_master_process(
                        &m.parsed,
                        control_path.as_str(),
                        askpass_path.as_str(),
                        Some(p.as_str()),
                    ),
                    None => spawn_master_process(
                        &m.parsed,
                        control_path.as_str(),
                        askpass_path.as_str(),
                        None,
                    ),
                };
                let action = ConnectAction::SpawnMaster { argv: launch.argv, env: launch.env };
                m.stage = ConnectStage::SpawningMaster;
                m.control_path = control_path;
                m.askpass_path = askpass_path;
                (
                    m,
                    announcing(
                        DesktopSshPhase::MasterConnecting,
                        "Establishing SSH ControlMaster",
                        action,
                    ),
                )
            },
            ConnectEvent::PrepareFailed(why) => failing(
                m,
                ConnectErrorKind::InternalTaskFailure,
                why,
            ),
            _ => surprised(m),
        }
    }

    fn on_spawning_master(self, event: ConnectEvent) -> (r: Step)
        ensures
            (r.0@, r.1@) == crate::connect::on_spawning_master(self@, event@),
    {
        let mut m = self;
        match event {
            ConnectEvent::Spawned => {
                m.stage = ConnectStage::MasterClock;
                m.master_spawned = true;
                (m, silent(ConnectAction::Clock { restart: true }))
            },
            ConnectEvent::SpawnFailed(_) => {
                let detail = String::from_str("failed to start SSH ControlMaster for ").concat(
                    m.parsed.destination.as_str(),
                );
                failing(m, ConnectErrorKind::ControlMasterExitedEarly, detail)
            },
            _ => surprised(m),
        }
    }

    fn on_master_clock(self, event: ConnectEvent) -> (r: Step)
        ensures
            (r.0@, r.1@) == crate::connect::on_master_clock(self@, event@),
    {
        let mut m = self;
        match event {
            ConnectEvent::Elapsed(ms) => {
                let limit: u64 = (m.instance.connection_timeout_sec as u64) * 1000;
                if ms >= limit {
                    failing(
                        m,
                        ConnectErrorKind::ControlMasterTimeout,
                        String::from_str("SSH ControlMaster connection timed out"),
                    )
                } else {
                    let action = ConnectAction::Run(
                        control_master_operation(&m.parsed, m.control_path.as_str(), "check"),
                    );
                    m.stage = ConnectStage::MasterCheck;
                    (m, silent(action))
                }
            },
            _ => surprised(m),
        }
    }

    fn on_master_check(self, event: ConnectEvent) -> (r: Step)
        ensures
            (r.0@, r.1@) == crate::connect::on_master_check(self@, event@),
    {
        let mut m = self;
        match event {
            ConnectEvent::Command(o) => {
                if o.code == 0 {
                    go_probing_os(m)
                } else {
                    m.stage = ConnectStage::MasterPoll;
                    (m, silent(ConnectAction::PollMaster))
                }
            },
            ConnectEvent::NotRun(why) => failing(m, ConnectErrorKind::InternalTaskFailure, why),
            _ => surprised(m),
        }
    }

    fn on_master_poll(self, event: ConnectEvent) -> (r: Step)
        ensures
            (r.0@, r.1@) == crate::connect::on_master_poll(self@, event@),
    {
        let mut m = self;
        match event {
            ConnectEvent::Child(c) => {
                let running = match c.state {
                    ChildState::Running => true,
                    _ => false,
                };
                if running {
                    m.stage = ConnectStage::MasterSleep;
                    (m, silent(ConnectAction::Sleep(250)))
                } else {
                    let complaint = trimmed_str(c.stderr.as_str());
                    let detail = if complaint.len() == 0 {
                        String::from_str("SSH master process exited before ready (status: ").concat(
                            c.status.as_str(),
                        ).concat(")")
                    } else {
                        from_chars(&complaint)
                    };
                    failing(m, ConnectErrorKind::ControlMasterExitedEarly, detail)
                }
            },
            _ => surprised(m),
        }
    }

    fn on_master_sleep(self, event: ConnectEvent) -> (r: Step)
        ensures
            (r.0@, r.1@) == crate::connect::on_master_sleep(self@, event@),
    {
        let mut m = self;
        match event {
            ConnectEvent::Slept => {
                m.stage = ConnectStage::MasterClock;
                (m, silent(ConnectAction::Clock { restart: false }))
            },
            _ => surprised(m),
        }
    }

    fn on_probing_os(self, event: ConnectEvent) -> (r: Step)
        ensures
            (r.0@, r.1@) == crate::connect::on_probing_os(self@, event@),
    {
        let m = self;
        match event {
            ConnectEvent::Command(o) => match remote_command_output(&o) {
                Err(complaint) => failing(m, ConnectErrorKind::RemoteProbeFailed, complaint),
                Ok(out) => {
                    let name = lowered(&trimmed_str(out.as_str()));
                    if is_text(&name, "linux") || is_text(&name, "darwin") {
                        go_remote_server(m)
                    } else {
                        let mut detail: Vec<char> = Vec::new();
                        push_str(&mut detail, "Unsupported remote OS: ");
                        push_chars(&mut detail, &name);
                        failing(m, ConnectErrorKind::UnsupportedRemoteOS, from_chars(&detail))
                    }
                },
            },
            ConnectEvent::NotRun(why) => failing(m, ConnectErrorKind::RemoteProbeFailed, why),
            _ => surprised(m),
        }
    }

    fn on_external_probe(self, event: ConnectEvent) -> (r: Step)
        ensures
            (r.0@, r.1@) == crate::connect::on_external_probe(self@, event@),
    {
        let mut m = self;
        match event {
            ConnectEvent::Command(o) => match remote_command_output(&o) {
                Err(complaint) => failing(
                    m,
                    ConnectErrorKind::RemoteProbeFailed,
                    external_failure_text(complaint.as_str()),
                ),
                Ok(out) => match interpret_probe_output(out.as_str(), has_password(&m)) {
                    Err(pe) => failing(
                        m,
                        probe_error_to_kind(pe),
                        external_failure_text(probe_error_message(pe).as_str()),
                    ),
                    Ok(_) => {
                        m.started_by_us = false;
                        go_forwarding(m)
                    },
                },
            },
            ConnectEvent::NotRun(why) => failing(
                m,
                ConnectErrorKind::RemoteProbeFailed,
                external_failure_text(why.as_str()),
            ),
            _ => surprised(m),
        }
    }

    fn on_reading_version(self, event: ConnectEvent) -> (r: Step)
        ensures
            (r.0@, r.1@) == crate::connect::on_reading_version(self@, event@),
    {
        let m = self;
        let installed = match &event {
            ConnectEvent::Command(o) => current_remote_openchamber_version(Some(o)),
            ConnectEvent::NotRun(_) => current_remote_openchamber_version(None),
            _ => {
                return surprised(m);
            },
        };
        match installed {
            None => go_checking_bun(
                m,
                DesktopSshPhase::Installing,
                String::from_str("Installing OpenChamber on remote host"),
            ),
            Some(version) => {
                if version == m.app_version {
                    go_detecting(m)
                } else {
                    let detail = String::from_str("Updating remote OpenChamber from ").concat(
                        version.as_str(),
                    ).concat(" to ").concat(m.app_version.as_str());
                    go_checking_bun(m, DesktopSshPhase::Updating, detail)
                }
            },
        }
    }

    fn on_checking_bun(self, event: ConnectEvent) -> (r: Step)
        ensures
            (r.0@, r.1@) == crate::connect::on_checking_bun(self@, event@),
    {
        let mut m = self;
        let found = match &event {
            ConnectEvent::Command(o) => remote_command_exists(Some(o)),
            ConnectEvent::NotRun(_) => remote_command_exists(None),
            _ => {
                return surprised(m);
            },
        };
        let script = remote_command_exists_script("npm");
        let action = remote_action(&m, script.as_str(), DEFAULT_CONNECTION_TIMEOUT_SEC);
        m.stage = ConnectStage::CheckingNpm;
        m.has_bun = found;
        (m, silent(action))
    }

    fn on_checking_npm(self, event: ConnectEvent) -> (r: Step)
        ensures
            (r.0@, r.1@) == crate::connect::on_checking_npm(self@, event@),
    {
        let mut m = self;
        let found = match &event {
            ConnectEvent::Command(o) => remote_command_exists(Some(o)),
            ConnectEvent::NotRun(_) => remote_command_exists(None),
            _ => {
                return surprised(m);
            },
        };
        match install_openchamber_managed(
            m.app_version.as_str(),
            m.instance.remote_openchamber.install_method,
            m.has_bun,
            found,
        ) {
            Err(_) => failing(
                m,
                ConnectErrorKind::NoRemotePackageManager,
                String::from_str("Remote host has neither bun nor npm available"),
            ),
            Ok(plan) => {
                assert(plan.len() > 0);
                assert(texts(plan@)[0] == plan@[0]@);
                let action = remote_action(&m, plan[0].as_str(), DEFAULT_CONNECTION_TIMEOUT_SEC);
                m.stage = ConnectStage::Installing;
                m.install_plan = plan;
                m.install_index = 0;
                (m, silent(action))
            },
        }
    }

    fn on_installing(self, event: ConnectEvent) -> (r: Step)
        ensures
            (r.0@, r.1@) == crate::connect::on_installing(self@, event@),
    {
        let mut m = self;
        let complaint: Option<String> = match event {
            ConnectEvent::Command(o) => match remote_command_output(&o) {
                Ok(_) => None,
                Err(c) => Some(c),
            },
            ConnectEvent::NotRun(why) => Some(why),
            _ => {
                return surprised(m);
            },
        };
        assert(crate::connect::install_complaint(event@) == Some(crate::text::opt_text(complaint)));
        match complaint {
            None => go_detecting(m),
            Some(c) => {
                assert(m@.install_plan.len() == m.install_plan.len());
                if m.install_index < usize::MAX && m.install_index + 1 < m.install_plan.len() {
                    let next = m.install_index + 1;
                    assert(texts(m.install_plan@)[next as int] == m.install_plan@[next as int]@);
                    let action = remote_action(
                        &m,
                        m.install_plan[next].as_str(),
                        DEFAULT_CONNECTION_TIMEOUT_SEC,
                    );
                    m.install_index = next;
                    (m, silent(action))
                } else {
                    failing(m, ConnectErrorKind::RemoteInstallFailed, c)
                }
            },
        }
    }

    fn on_detecting(self, event: ConnectEvent) -> (r: Step)
        ensures
            (r.0@, r.1@) == crate::connect::on_detecting(self@, event@),
    {
        let m = self;
        let password = has_password(&m);
        let running = match &event {
            ConnectEvent::Command(o) => remote_server_running(Some(o), password),
            ConnectEvent::NotRun(_) => remote_server_running(None, password),
            _ => {
                return surprised(m);
            },
        };
        if running {
            go_confirming(m)
        } else {
            go_starting(m)
        }
    }

    fn on_starting(self, event: ConnectEvent) -> (r: Step)
        ensures
            (r.0@, r.1@) == crate::connect::on_starting(self@, event@),
    {
        let mut m = self;
        match event {
            ConnectEvent::Command(o) => match remote_command_output(&o) {
                Err(complaint) => failing(m, ConnectErrorKind::RemoteServerStartFailed, complaint),
                Ok(out) => {
                    m.remote_port = started_port(out.as_str(), m.desired_port);
                    m.started_by_us = true;
                    go_confirming(m)
                },
            },
            ConnectEvent::NotRun(why) => failing(m, ConnectErrorKind::RemoteServerStartFailed, why),
            _ => surprised(m),
        }
    }

    fn on_confirming(self, event: ConnectEvent) -> (r: Step)
        ensures
            (r.0@, r.1@) == crate::connect::on_confirming(self@, event@),
    {
        let m = self;
        let password = has_password(&m);
        let running = match &event {
            ConnectEvent::Command(o) => remote_server_running(Some(o), password),
            ConnectEvent::NotRun(_) => remote_server_running(None, password),
            _ => {
                return surprised(m);
            },
        };
        if running {
            go_forwarding(m)
        } else {
            failing(
                m,
                ConnectErrorKind::RemoteServerStartFailed,
                String::from_str("Managed OpenChamber server failed to become reachable"),
            )
        }
    }

    fn on_picking_port(self, event: ConnectEvent) -> (r: Step)
        ensures
            (r.0@, r.1@) == crate::connect::on_picking_port(self@, event@),
    {
        let mut m = self;
        match event {
            ConnectEvent::PortPicked(Some(port)) => {
                let host = sanitize_bind_host(m.instance.local_forward.bind_host.as_str());
                m.stage = ConnectStage::CheckingPort;
                m.local_port = port;
                (m, silent(ConnectAction::CheckPort { host, port }))
            },
            ConnectEvent::PortPicked(None) => failing(
                m,
                ConnectErrorKind::LocalPortUnavailable,
                String::from_str("No local port is available"),
            ),
            _ => surprised(m),
        }
    }

    fn on_checking_port(self, event: ConnectEvent) -> (r: Step)
        ensures
            (r.0@, r.1@) == crate::connect::on_checking_port(self@, event@),
    {
        let mut m = self;
        match event {
            ConnectEvent::PortAvailable(true) => go_spawning_forward(m),
            ConnectEvent::PortAvailable(false) => {
                m.stage = ConnectStage::RepickingPort;
                (m, silent(ConnectAction::PickPort))
            },
            _ => surprised(m),
        }
    }

    fn on_repicking_port(self, event: ConnectEvent) -> (r: Step)
        ensures
            (r.0@, r.1@) == crate::connect::on_repicking_port(self@, event@),
    {
        let mut m = self;
        match event {
            ConnectEvent::PortPicked(Some(port)) => {
                m.local_port = port;
                go_spawning_forward(m)
            },
            ConnectEvent::PortPicked(None) => failing(
                m,
                ConnectErrorKind::LocalPortUnavailable,
                String::from_str("No local port is available"),
            ),
            _ => surprised(m),
        }
    }

    fn on_spawning_forward(self, event: ConnectEvent) -> (r: Step)
        ensures
            (r.0@, r.1@) == crate::connect::on_spawning_forward(self@, event@),
    {
        let mut m = self;
        match event {
            ConnectEvent::Spawned => {
                m.stage = ConnectStage::SettlingForward;
                m.forward_spawned = true;
                (m, silent(ConnectAction::Sleep(250)))
            },
            ConnectEvent::SpawnFailed(_) => {
                let mut detail: Vec<char> = Vec::new();
                push_str(&mut detail, "Failed to start main SSH forward on local port ");
                push_decimal(&mut detail, m.local_port as u64);
                failing(m, ConnectErrorKind::TunnelNotReady, from_chars(&detail))
            },
            _ => surprised(m),
        }
    }

    fn on_settling_forward(self, event: ConnectEvent) -> (r: Step)
        ensures
            (r.0@, r.1@) == crate::connect::on_settling_forward(self@, event@),
    {
        let mut m = self;
        match event {
            ConnectEvent::Slept => {
                m.stage = ConnectStage::PollingForward;
                (m, silent(ConnectAction::PollForward))
            },
            _ => surprised(m),
        }
    }

    fn on_polling_forward(self, event: ConnectEvent) -> (r: Step)
        ensures
            (r.0@, r.1@) == crate::connect::on_polling_forward(self@, event@),
    {
        let mut m = self;
        match event {
            ConnectEvent::Child(c) => match c.state {
                ChildState::Running => go_next_forward(m, 0),
                ChildState::Succeeded => {
                    m.main_forward_detached = true;
                    let (next, out) = go_next_forward(m, 0);
                    (
                        next,
                        ConnectOutput {
                            statuses: out.statuses,
                            notice: Some(Notice::ForwardDetached),
                            action: out.action,
                        },
                    )
                },
                ChildState::Failed => {
                    if m.port_retried {
                        let mut detail: Vec<char> = Vec::new();
                        push_str(&mut detail, "Failed to start main port forward (status: ");
                        push_str(&mut detail, c.status.as_str());
                        push_str(&mut detail, "): ");
                        push_chars(&mut detail, &trimmed_str(c.stderr.as_str()));
                        assert(detail@ =~= forward_failure_detail(c@));
                        failing(m, ConnectErrorKind::LocalPortUnavailable, from_chars(&detail))
                    } else {
                        m.stage = ConnectStage::RepickingPort;
                        m.port_retried = true;
                        m.forward_spawned = false;
                        (m, silent(ConnectAction::PickPort))
                    }
                },
            },
            _ => surprised(m),
        }
    }

    fn on_extra_forward(self, event: ConnectEvent) -> (r: Step)
        ensures
            (r.0@, r.1@) == crate::connect::on_extra_forward(self@, event@),
    {
        let mut m = self;
        if m.forward_index >= m.instance.port_forwards.len() {
            return surprised(m);
        }
        let index = m.forward_index;
        assert(m@.instance.port_forwards[index as int] == m.instance.port_forwards@[index as int]@);
        match event {
            ConnectEvent::Command(o) => {
                match extra_forward_outcome(m.instance.port_forwards[index].id.as_str(), &o) {
                    Some(complaint) => {
                        let m = add_warning(m, complaint.as_str());
                        go_next_forward(m, index + 1)
                    },
                    None => match probe_port(&m) {
                        Some(_) => {
                            m.stage = ConnectStage::ExtraSettle;
                            (m, silent(ConnectAction::Sleep(100)))
                        },
                        None => go_next_forward(m, index + 1),
                    },
                }
            },
            ConnectEvent::NotRun(_) => {
                let what = String::from_str("Failed to configure extra SSH forward ").concat(
                    m.instance.port_forwards[index].id.as_str(),
                );
                let m = add_warning(m, what.as_str());
                go_next_forward(m, index + 1)
            },
            _ => surprised(m),
        }
    }

    fn on_extra_settle(self, event: ConnectEvent) -> (r: Step)
        ensures
            (r.0@, r.1@) == crate::connect::on_extra_settle(self@, event@),
    {
        let mut m = self;
        if m.forward_index >= m.instance.port_forwards.len() {
            return surprised(m);
        }
        match (event, probe_port(&m)) {
            (ConnectEvent::Slept, Some(port)) => {
                m.stage = ConnectStage::ExtraProbe;
                (m, silent(ConnectAction::ProbeTcp(port)))
            },
            _ => surprised(m),
        }
    }

    fn on_extra_probe(self, event: ConnectEvent) -> (r: Step)
        ensures
            (r.0@, r.1@) == crate::connect::on_extra_probe(self@, event@),
    {
        let m = self;
        if m.forward_index >= m.instance.port_forwards.len() {
            return surprised(m);
        }
        let index = m.forward_index;
        match (event, probe_port(&m)) {
            (ConnectEvent::Reachable(true), Some(_)) => go_next_forward(m, index + 1),
            (ConnectEvent::Reachable(false), Some(port)) => {
                let mut what: Vec<char> = Vec::new();
                push_str(&mut what, "local listener 127.0.0.1:");
                push_decimal(&mut what, port as u64);
                push_str(&mut what, " is not reachable");
                assert(what@ =~= unreachable_detail(port));
                let m = add_warning(m, from_chars(&what).as_str());
                go_next_forward(m, index + 1)
            },
            _ => surprised(m),
        }
    }

    fn on_tunnel_clock(self, event: ConnectEvent) -> (r: Step)
        ensures
            (r.0@, r.1@) == crate::connect::on_tunnel_clock(self@, event@),
    {
        let mut m = self;
        match event {
            ConnectEvent::Elapsed(ms) => {
                if ms >= DEFAULT_READY_TIMEOUT_SEC * 1000 {
                    failing(
                        m,
                        ConnectErrorKind::TunnelNotReady,
                        String::from_str("Timed out waiting for forwarded OpenChamber health"),
                    )
                } else {
                    let url = local_url(m.local_port).concat("/health");
                    m.stage = ConnectStage::TunnelProbe;
                    (m, silent(ConnectAction::ProbeHealth { url }))
                }
            },
            _ => surprised(m),
        }
    }

    fn on_tunnel_probe(self, event: ConnectEvent) -> (r: Step)
        ensures
            (r.0@, r.1@) == crate::connect::on_tunnel_probe(self@, event@),
    {
        let mut m = self;
        match event {
            ConnectEvent::Health(status) => {
                let ready = match status {
                    Some(s) => (200 <= s && s <= 299) || s == 401,
                    None => false,
                };
                if ready {
                    let persist_port = match m.instance.local_forward.preferred_local_port {
                        Some(p) => if p == m.local_port {
                            None
                        } else {
                            Some(m.local_port)
                        },
                        None => Some(m.local_port),
                    };
                    let action = ConnectAction::Save {
                        label: build_display_label(&m.instance),
                        local_url: local_url(m.local_port),
                        persist_port,
                    };
                    m.stage = ConnectStage::Saving;
                    (m, silent(action))
                } else {
                    m.stage = ConnectStage::TunnelSleep;
                    (m, silent(ConnectAction::Sleep(250)))
                }
            },
            _ => surprised(m),
        }
    }

    fn on_tunnel_sleep(self, event: ConnectEvent) -> (r: Step)
        ensures
            (r.0@, r.1@) == crate::connect::on_tunnel_sleep(self@, event@),
    {
        let mut m = self;
        match event {
            ConnectEvent::Slept => {
                m.stage = ConnectStage::TunnelClock;
                (m, silent(ConnectAction::Clock { restart: false }))
            },
            _ => surprised(m),
        }
    }

    fn on_saving(self, event: ConnectEvent) -> (r: Step)
        ensures
            (r.0@, r.1@) == crate::connect::on_saving(self@, event@),
    {
        let mut m = self;
        match event {
            ConnectEvent::Saved => {
                let managed = match m.instance.remote_openchamber.mode {
                    DesktopSshRemoteMode::Managed => true,
                    DesktopSshRemoteMode::External => false,
                };
                let session = SessionRecord {
                    parsed: m.parsed.clone(),
                    control_path: m.control_path.clone(),
                    askpass_path: m.askpass_path.clone(),
                    local_port: m.local_port,
                    remote_port: m.remote_port,
                    started_by_us: m.started_by_us,
                    managed,
                    keep_running: m.instance.remote_openchamber.keep_running,
                    master_detached: false,
                    main_forward_detached: m.main_forward_detached,
                };
                let warnings = crate::model::copy_strings(&m.warnings);
                m.stage = ConnectStage::Done;
                (m, silent(ConnectAction::Finish { session, warnings }))
            },
            _ => surprised(m),
        }
    }
}

} // verus!
