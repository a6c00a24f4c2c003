//! One attempt to connect an instance, as a state machine.
//!
//! The machine never acts. Each step takes what the last action brought
//! and names the next action; whoever drives the machine performs it.
//! This file holds the model: the states, the events, the actions and the
//! transition function. The executable step follows it word for word.

use vstd::prelude::*;
use crate::command::parse_command;
use crate::executor::CommandOutcome;
use crate::executor::CommandOutcomeView;
use crate::executor::control_socket_name;
use crate::executor::extra_forward_argv;
use crate::executor::extra_forward_verdict;
use crate::executor::forward_error_text;
use crate::executor::main_forward_options;
use crate::executor::master_environment;
use crate::executor::master_options;
use crate::executor::operation_options;
use crate::executor::remote_options;
use crate::executor::remote_output;
use crate::executor::remote_shell_command;
use crate::executor::resolve_args;
use crate::executor::resolved_config;
use crate::executor::ssh_argv;
use crate::hashing::seeded_hash;
use crate::hosts::display_label;
use crate::liveness::ChildReport;
use crate::liveness::ChildReportView;
use crate::liveness::ChildState;
use crate::liveness::Notice;
use crate::model::DEFAULT_CONNECTION_TIMEOUT_SEC;
use crate::model::DEFAULT_READY_TIMEOUT_SEC;
use crate::model::DesktopSshInstance;
use crate::model::DesktopSshParsedCommand;
use crate::model::DesktopSshPortForwardType;
use crate::model::DesktopSshRemoteMode;
use crate::model::InstanceView;
use crate::model::ParsedCommandView;
use crate::model::PortForwardView;
use crate::number::decimal;
use crate::probe::ProbeError;
use crate::probe::probe_outcome;
use crate::registry::SessionRecord;
use crate::registry::SessionView;
use crate::remote::VERSION_SCRIPT;
use crate::remote::command_found;
use crate::remote::command_probe_script;
use crate::remote::configured_password;
use crate::remote::install_commands;
use crate::remote::login_payload;
use crate::remote::port_candidate;
use crate::remote::probe_script_text;
use crate::remote::reported_version;
use crate::remote::server_answers;
use crate::remote::start_script_text;
use crate::remote::started_port_of;
use crate::sanitize::bind_host_of;
use crate::status::DesktopSshPhase;
use crate::status::StatusDraft;
use crate::status::StatusDraftView;
use crate::status::plain_draft;
use crate::supervisor::local_url_of;
use crate::text::lower;
use crate::text::texts;
use crate::text::trim;

verus! {

/// Where an attempt stands: each stage names what it waits for.
#[derive(Clone, Copy, Debug, PartialEq, Eq, Structural)]
pub enum ConnectStage {
    /// The resolved configuration of the destination.
    Resolving,
    /// The session directory and the prompt helper.
    Preparing,
    /// The start of the control master.
    SpawningMaster,
    /// The time spent waiting for the control master.
    MasterClock,
    /// The answer of the control master to `check`.
    MasterCheck,
    /// A look at the control master's process.
    MasterPoll,
    /// The end of a pause in the wait for the control master.
    MasterSleep,
    /// The name of the remote system.
    ProbingOs,
    /// The probe of a service that the supervisor does not own.
    ExternalProbe,
    /// The version of the installed service.
    ReadingVersion,
    /// Whether the remote host has bun.
    CheckingBun,
    /// Whether the remote host has npm.
    CheckingNpm,
    /// The end of an install command.
    Installing,
    /// The probe of the preferred remote port.
    DetectingServer,
    /// The start of the service.
    StartingServer,
    /// The probe of the port the service is to listen on.
    ConfirmingServer,
    /// A free local port.
    PickingPort,
    /// Whether the local port can be bound.
    CheckingPort,
    /// A free local port, after the first choice could not be used.
    RepickingPort,
    /// The start of the anchor forward.
    SpawningForward,
    /// The end of the pause that lets the anchor forward settle.
    SettlingForward,
    /// A look at the anchor forward's process.
    PollingForward,
    /// The answer to the request for a supplementary forward.
    ExtraForward,
    /// The end of the pause that lets a supplementary forward settle.
    ExtraSettle,
    /// Whether the local end of a supplementary forward accepts a connection.
    ExtraProbe,
    /// The time spent waiting for the tunnel.
    TunnelClock,
    /// The answer of the service through the tunnel.
    TunnelProbe,
    /// The end of a pause in the wait for the tunnel.
    TunnelSleep,
    /// The settings document, brought up to date.
    Saving,
    /// Nothing: the session is there.
    Done,
    /// Nothing: the attempt has failed.
    Failed,
}

/// Why an attempt fails.
#[derive(Clone, Copy, Debug, PartialEq, Eq, Structural)]
pub enum ConnectErrorKind {
    InvalidInstance,
    SshConfigResolveFailed,
    ControlMasterTimeout,
    ControlMasterExitedEarly,
    UnsupportedRemoteOS,
    NoRemotePackageManager,
    RemoteInstallFailed,
    RemoteAuthRequired,
    RemoteAuthRejected,
    RemoteProbeFailed,
    RemoteServerStartFailed,
    LocalPortUnavailable,
    TunnelNotReady,
    InternalTaskFailure,
}

/// What an action brought.
#[derive(Debug, PartialEq, Eq)]
pub enum ConnectEvent {
    /// The SSH client ran and ended.
    Command(CommandOutcome),
    /// The SSH client could not be run; the text says why.
    NotRun(String),
    /// The session directory is there, the stale control socket is gone and
    /// the prompt helper is written.
    Prepared { control_path: String, askpass_path: String },
    /// The session could not be prepared.
    PrepareFailed(String),
    /// The helper process runs.
    Spawned,
    /// The helper process could not be started.
    SpawnFailed(String),
    /// Milliseconds since the clock was last restarted.
    Elapsed(u64),
    /// A look at the helper process.
    Child(ChildReport),
    /// The pause is over.
    Slept,
    /// A free local port, or none to be had.
    PortPicked(Option<u16>),
    /// Whether the local port can be bound.
    PortAvailable(bool),
    /// Whether the local port accepts a connection.
    Reachable(bool),
    /// The HTTP status of the service's answer, if it answered.
    Health(Option<u16>),
    /// The settings document is up to date, as far as it could be.
    Saved,
}

pub enum EventView {
    Command(CommandOutcomeView),
    NotRun(Seq<char>),
    Prepared { control_path: Seq<char>, askpass_path: Seq<char> },
    PrepareFailed(Seq<char>),
    Spawned,
    SpawnFailed(Seq<char>),
    Elapsed(u64),
    Child(ChildReportView),
    Slept,
    PortPicked(Option<u16>),
    PortAvailable(bool),
    Reachable(bool),
    Health(Option<u16>),
    Saved,
}

impl View for ConnectEvent {
    type V = EventView;

    open spec fn view(&self) -> EventView {
        match self {
            ConnectEvent::Command(o) => EventView::Command(o@),
            ConnectEvent::NotRun(m) => EventView::NotRun(m@),
            ConnectEvent::Prepared { control_path, askpass_path } => EventView::Prepared {
                control_path: control_path@,
                askpass_path: askpass_path@,
            },
            ConnectEvent::PrepareFailed(m) => EventView::PrepareFailed(m@),
            ConnectEvent::Spawned => EventView::Spawned,
            ConnectEvent::SpawnFailed(m) => EventView::SpawnFailed(m@),
            ConnectEvent::Elapsed(ms) => EventView::Elapsed(*ms),
            ConnectEvent::Child(c) => EventView::Child(c@),
            ConnectEvent::Slept => EventView::Slept,
            ConnectEvent::PortPicked(p) => EventView::PortPicked(*p),
            ConnectEvent::PortAvailable(b) => EventView::PortAvailable(*b),
            ConnectEvent::Reachable(b) => EventView::Reachable(*b),
            ConnectEvent::Health(s) => EventView::Health(*s),
            ConnectEvent::Saved => EventView::Saved,
        }
    }
}

/// What is to be done next.
#[derive(Debug, PartialEq, Eq)]
pub enum ConnectAction {
    /// Run the SSH client with these arguments and wait for it.
    Run(Vec<String>),
    /// Make the session directory, remove a stale control socket of this
    /// name from the temporary directory, and write the prompt helper.
    Prepare { socket_name: String, askpass_script: String },
    /// Start the control master.
    SpawnMaster { argv: Vec<String>, env: Vec<(String, String)> },
    /// Tell the time since the clock was restarted; restart it first if asked.
    Clock { restart: bool },
    /// Look at the control master's process.
    PollMaster,
    /// Pause for so many milliseconds.
    Sleep(u64),
    /// Find a free local port.
    PickPort,
    /// Tell whether the port can be bound on the host.
    CheckPort { host: String, port: u16 },
    /// Start the anchor forward.
    SpawnForward(Vec<String>),
    /// Look at the anchor forward's process.
    PollForward,
    /// Tell whether the local port accepts a connection within half a second.
    ProbeTcp(u16),
    /// Ask the service for its health, waiting a second at most.
    ProbeHealth { url: String },
    /// Record the address of the tunnel with the host entry of the
    /// instance, and its local port with the instance if it is new.
    Save { label: String, local_url: String, persist_port: Option<u16> },
    /// Hand the session to the supervisor.
    Finish { session: SessionRecord, warnings: Vec<String> },
    /// Kill what the attempt has started and report the failure to the
    /// supervisor.
    Fail { kind: ConnectErrorKind, detail: String, kill_forward: bool, kill_master: bool },
    /// Nothing: the attempt is over.
    Nothing,
}

pub enum ActionView {
    Run(Seq<Seq<char>>),
    Prepare { socket_name: Seq<char>, askpass_script: Seq<char> },
    SpawnMaster { argv: Seq<Seq<char>>, env: Seq<(Seq<char>, Seq<char>)> },
    Clock { restart: bool },
    PollMaster,
    Sleep(u64),
    PickPort,
    CheckPort { host: Seq<char>, port: u16 },
    SpawnForward(Seq<Seq<char>>),
    PollForward,
    ProbeTcp(u16),
    ProbeHealth { url: Seq<char> },
    Save { label: Seq<char>, local_url: Seq<char>, persist_port: Option<u16> },
    Finish { session: SessionView, warnings: Seq<Seq<char>> },
    Fail { kind: ConnectErrorKind, detail: Seq<char>, kill_forward: bool, kill_master: bool },
    Nothing,
}

impl View for ConnectAction {
    type V = ActionView;

    open spec fn view(&self) -> ActionView {
        match self {
            ConnectAction::Run(argv) => ActionView::Run(texts(argv@)),
            ConnectAction::Prepare { socket_name, askpass_script } => ActionView::Prepare {
                socket_name: socket_name@,
                askpass_script: askpass_script@,
            },
            ConnectAction::SpawnMaster { argv, env } => ActionView::SpawnMaster {
                argv: texts(argv@),
                env: crate::executor::pairs(env@),
            },
            ConnectAction::Clock { restart } => ActionView::Clock { restart: *restart },
            ConnectAction::PollMaster => ActionView::PollMaster,
            ConnectAction::Sleep(ms) => ActionView::Sleep(*ms),
            ConnectAction::PickPort => ActionView::PickPort,
            ConnectAction::CheckPort { host, port } => ActionView::CheckPort {
                host: host@,
                port: *port,
            },
            ConnectAction::SpawnForward(argv) => ActionView::SpawnForward(texts(argv@)),
            ConnectAction::PollForward => ActionView::PollForward,
            ConnectAction::ProbeTcp(p) => ActionView::ProbeTcp(*p),
            ConnectAction::ProbeHealth { url } => ActionView::ProbeHealth { url: url@ },
            ConnectAction::Save { label, local_url, persist_port } => ActionView::Save {
                label: label@,
                local_url: local_url@,
                persist_port: *persist_port,
            },
            ConnectAction::Finish { session, warnings } => ActionView::Finish {
                session: session@,
                warnings: texts(warnings@),
            },
            ConnectAction::Fail { kind, detail, kill_forward, kill_master } => ActionView::Fail {
                kind: *kind,
                detail: detail@,
                kill_forward: *kill_forward,
                kill_master: *kill_master,
            },
            ConnectAction::Nothing => ActionView::Nothing,
        }
    }
}

/// What a step yields: the statuses to announce, in order, a notice to
/// log, and the next action.
#[derive(Debug, PartialEq, Eq)]
pub struct ConnectOutput {
    pub statuses: Vec<StatusDraft>,
    pub notice: Option<Notice>,
    pub action: ConnectAction,
}

pub struct OutputView {
    pub statuses: Seq<StatusDraftView>,
    pub notice: Option<Notice>,
    pub action: ActionView,
}

impl View for ConnectOutput {
    type V = OutputView;

    open spec fn view(&self) -> OutputView {
        OutputView {
            statuses: crate::model::views(self.statuses@),
            notice: self.notice,
            action: self.action@,
        }
    }
}

/// An attempt to connect an instance.
#[derive(Debug, PartialEq, Eq)]
pub struct ConnectMachine {
    pub instance: DesktopSshInstance,
    pub parsed: DesktopSshParsedCommand,
    /// The version of the service that the instance is to run.
    pub app_version: String,
    /// What spreads the port that the service is asked to listen on.
    pub port_hash: u64,
    pub stage: ConnectStage,
    pub control_path: String,
    pub askpass_path: String,
    pub master_spawned: bool,
    pub forward_spawned: bool,
    pub has_bun: bool,
    pub install_plan: Vec<String>,
    pub install_index: usize,
    pub remote_port: u16,
    pub desired_port: u16,
    pub started_by_us: bool,
    pub local_port: u16,
    pub port_retried: bool,
    pub main_forward_detached: bool,
    pub forward_index: usize,
    pub warnings: Vec<String>,
}

pub struct MachineView {
    pub instance: InstanceView,
    pub parsed: ParsedCommandView,
    pub app_version: Seq<char>,
    pub port_hash: u64,
    pub stage: ConnectStage,
    pub control_path: Seq<char>,
    pub askpass_path: Seq<char>,
    pub master_spawned: bool,
    pub forward_spawned: bool,
    pub has_bun: bool,
    pub install_plan: Seq<Seq<char>>,
    pub install_index: usize,
    pub remote_port: u16,
    pub desired_port: u16,
    pub started_by_us: bool,
    pub local_port: u16,
    pub port_retried: bool,
    pub main_forward_detached: bool,
    pub forward_index: usize,
    pub warnings: Seq<Seq<char>>,
}

impl View for ConnectMachine {
    type V = MachineView;

    open spec fn view(&self) -> MachineView {
        MachineView {
            instance: self.instance@,
            parsed: self.parsed@,
            app_version: self.app_version@,
            port_hash: self.port_hash,
            stage: self.stage,
            control_path: self.control_path@,
            askpass_path: self.askpass_path@,
            master_spawned: self.master_spawned,
            forward_spawned: self.forward_spawned,
            has_bun: self.has_bun,
            install_plan: texts(self.install_plan@),
            install_index: self.install_index,
            remote_port: self.remote_port,
            desired_port: self.desired_port,
            started_by_us: self.started_by_us,
            local_port: self.local_port,
            port_retried: self.port_retried,
            main_forward_detached: self.main_forward_detached,
            forward_index: self.forward_index,
            warnings: texts(self.warnings@),
        }
    }
}

/// The script that answers the prompts of the SSH client: it hands out the
/// secret in its environment for a password or passphrase prompt, says yes
/// to a host key prompt, and asks the user for anything else.
pub const ASKPASS_SCRIPT: &'static str =
    "#!/bin/bash\nPROMPT=\"$1\"\nLOWER=\"$(printf '%s' \"$PROMPT\" | tr '[:upper:]' '[:lower:]')\"\n\nif [[ -n \"$OPENCHAMBER_SSH_ASKPASS_VALUE\" ]]; then\n  if [[ \"$LOWER\" == *\"password\"* || \"$LOWER\" == *\"passphrase\"* ]]; then\n    printf '%s\\n' \"$OPENCHAMBER_SSH_ASKPASS_VALUE\"\n    exit 0\n  fi\nfi\n\nif [[ \"$PROMPT\" == *\"yes/no\"* ]]; then\n  printf '%s\\n' \"yes\"\n  exit 0\nfi\n\n/usr/bin/osascript <<'APPLESCRIPT' \"$PROMPT\"\non run argv\n  set promptText to item 1 of argv\n\n  try\n    set response to display dialog promptText default answer \"\" with hidden answer buttons {\"Cancel\", \"OK\"} default button \"OK\"\n    return text returned of response\n  on error\n    error number -128\n  end try\nend run\nAPPLESCRIPT\n";

/// A step that announces nothing.
pub open spec fn quiet(action: ActionView) -> OutputView {
    OutputView { statuses: Seq::empty(), notice: None, action }
}

/// A step that announces a phase.
pub open spec fn announce(phase: DesktopSshPhase, detail: Seq<char>, action: ActionView)
    -> OutputView {
    OutputView { statuses: seq![plain_draft(phase, detail)], notice: None, action }
}

/// The attempt fails: what it has started is to be killed.
pub open spec fn fail(m: MachineView, kind: ConnectErrorKind, detail: Seq<char>) -> (
    MachineView,
    OutputView,
) {
    (
        MachineView { stage: ConnectStage::Failed, ..m },
        quiet(
            ActionView::Fail {
                kind,
                detail,
                kill_forward: m.forward_spawned,
                kill_master: m.master_spawned,
            },
        ),
    )
}

/// An event that the stage does not wait for ends the attempt.
pub open spec fn unexpected(m: MachineView) -> (MachineView, OutputView) {
    fail(m, ConnectErrorKind::InternalTaskFailure, "Unexpected event"@)
}

/// The arguments that run a script on the remote host of the attempt.
pub open spec fn remote_run(m: MachineView, script: Seq<char>, timeout_sec: u16) -> ActionView {
    ActionView::Run(
        ssh_argv(
            m.parsed,
            remote_options(m.control_path, timeout_sec),
            Some(remote_shell_command(script)),
        ),
    )
}

/// The password of the SSH connection that the instance stores, if it is
/// enabled.
pub open spec fn stored_ssh_password(i: InstanceView) -> Option<Seq<char>> {
    match i.auth.ssh_password {
        Some(secret) => if secret.enabled {
            secret.value
        } else {
            None
        },
        None => None,
    }
}

/// The script that probes the service of the attempt on a port.
pub open spec fn probe_script_for(m: MachineView, port: u16) -> Seq<char> {
    probe_script_text(
        port,
        configured_password(m.instance) is Some,
        login_payload(configured_password(m.instance)),
    )
}

/// The command as the attempt uses it: the one saved with the instance,
/// or else the instance's command, parsed.
pub open spec fn command_of(i: InstanceView) -> Option<ParsedCommandView> {
    match i.ssh_parsed {
        Some(p) => Some(p),
        None => match parse_command(i.ssh_command) {
            Ok(p) => Some(p),
            Err(_) => None,
        },
    }
}

/// The attempt before its first step.
pub open spec fn fresh_machine(
    instance: InstanceView,
    parsed: ParsedCommandView,
    app_version: Seq<char>,
    now_ms: u64,
) -> MachineView {
    MachineView {
        instance,
        parsed,
        app_version,
        port_hash: seeded_hash(instance.id, now_ms),
        stage: ConnectStage::Resolving,
        control_path: Seq::empty(),
        askpass_path: Seq::empty(),
        master_spawned: false,
        forward_spawned: false,
        has_bun: false,
        install_plan: Seq::empty(),
        install_index: 0,
        remote_port: 0,
        desired_port: 0,
        started_by_us: false,
        local_port: 0,
        port_retried: false,
        main_forward_detached: false,
        forward_index: 0,
        warnings: Seq::empty(),
    }
}

/// The first step of an attempt: the configuration of the destination is
/// asked for. An instance whose command does not validate fails at once.
pub open spec fn begun(instance: InstanceView, app_version: Seq<char>, now_ms: u64) -> (
    MachineView,
    OutputView,
) {
    match command_of(instance) {
        Some(parsed) => (
            fresh_machine(instance, parsed, app_version, now_ms),
            quiet(ActionView::Run(resolve_args(parsed))),
        ),
        None => fail(
            fresh_machine(
                instance,
                ParsedCommandView { destination: Seq::empty(), args: Seq::empty() },
                app_version,
                now_ms,
            ),
            ConnectErrorKind::InvalidInstance,
            "Invalid SSH command"@,
        ),
    }
}

pub open spec fn on_resolving(m: MachineView, e: EventView) -> (MachineView, OutputView) {
    match e {
        EventView::Command(o) => match resolved_config(o) {
            Err(complaint) => fail(m, ConnectErrorKind::SshConfigResolveFailed, complaint),
            Ok(_) => (
                MachineView { stage: ConnectStage::Preparing, ..m },
                announce(
                    DesktopSshPhase::AuthCheck,
                    "Checking SSH connectivity"@,
                    ActionView::Prepare {
                        socket_name: control_socket_name(m.instance.id),
                        askpass_script: ASKPASS_SCRIPT@,
                    },
                ),
            ),
        },
        EventView::NotRun(why) => fail(m, ConnectErrorKind::SshConfigResolveFailed, why),
        _ => unexpected(m),
    }
}

pub open spec fn on_preparing(m: MachineView, e: EventView) -> (MachineView, OutputView) {
    match e {
        EventView::Prepared { control_path, askpass_path } => (
            MachineView { stage: ConnectStage::SpawningMaster, control_path, askpass_path, ..m },
            announce(
                DesktopSshPhase::MasterConnecting,
                "Establishing SSH ControlMaster"@,
                ActionView::SpawnMaster {
                    argv: ssh_argv(m.parsed, master_options(control_path), None),
                    env: master_environment(askpass_path, stored_ssh_password(m.instance)),
                },
            ),
        ),
        EventView::PrepareFailed(why) => fail(m, ConnectErrorKind::InternalTaskFailure, why),
        _ => unexpected(m),
    }
}

pub open spec fn on_spawning_master(m: MachineView, e: EventView) -> (MachineView, OutputView) {
    match e {
        EventView::Spawned => (
            MachineView { stage: ConnectStage::MasterClock, master_spawned: true, ..m },
            quiet(ActionView::Clock { restart: true }),
        ),
        EventView::SpawnFailed(_) => fail(
            m,
            ConnectErrorKind::ControlMasterExitedEarly,
            "failed to start SSH ControlMaster for "@ + m.parsed.destination,
        ),
        _ => unexpected(m),
    }
}

/// The time allowed for the control master to become ready, in milliseconds.
pub open spec fn master_timeout_ms(m: MachineView) -> int {
    m.instance.connection_timeout_sec * 1000
}

pub open spec fn on_master_clock(m: MachineView, e: EventView) -> (MachineView, OutputView) {
    match e {
        EventView::Elapsed(ms) => if ms >= master_timeout_ms(m) {
            fail(
                m,
                ConnectErrorKind::ControlMasterTimeout,
                "SSH ControlMaster connection timed out"@,
            )
        } else {
            (
                MachineView { stage: ConnectStage::MasterCheck, ..m },
                quiet(
                    ActionView::Run(
                        ssh_argv(m.parsed, operation_options(m.control_path, "check"@), None),
                    ),
                ),
            )
        },
        _ => unexpected(m),
    }
}

/// The control master is ready: the remote system is asked for its name.
pub open spec fn to_probing_os(m: MachineView) -> (MachineView, OutputView) {
    (
        MachineView { stage: ConnectStage::ProbingOs, ..m },
        OutputView {
            statuses: seq![plain_draft(DesktopSshPhase::RemoteProbe, "Probing remote platform"@)],
            notice: None,
            action: remote_run(m, "uname -s"@, m.instance.connection_timeout_sec),
        },
    )
}

pub open spec fn on_master_check(m: MachineView, e: EventView) -> (MachineView, OutputView) {
    match e {
        EventView::Command(o) => if o.code == 0 {
            to_probing_os(m)
        } else {
            (MachineView { stage: ConnectStage::MasterPoll, ..m }, quiet(ActionView::PollMaster))
        },
        EventView::NotRun(why) => fail(m, ConnectErrorKind::InternalTaskFailure, why),
        _ => unexpected(m),
    }
}

/// What is said of a control master that ended before it was ready: what
/// it complained of, or else how it ended.
pub open spec fn early_exit_detail(c: ChildReportView) -> Seq<char> {
    if trim(c.stderr).len() == 0 {
        "SSH master process exited before ready (status: "@ + c.status + ")"@
    } else {
        trim(c.stderr)
    }
}

pub open spec fn on_master_poll(m: MachineView, e: EventView) -> (MachineView, OutputView) {
    match e {
        EventView::Child(c) => if c.state == ChildState::Running {
            (MachineView { stage: ConnectStage::MasterSleep, ..m }, quiet(ActionView::Sleep(250)))
        } else {
            fail(m, ConnectErrorKind::ControlMasterExitedEarly, early_exit_detail(c))
        },
        _ => unexpected(m),
    }
}

pub open spec fn on_master_sleep(m: MachineView, e: EventView) -> (MachineView, OutputView) {
    match e {
        EventView::Slept => (
            MachineView { stage: ConnectStage::MasterClock, ..m },
            quiet(ActionView::Clock { restart: false }),
        ),
        _ => unexpected(m),
    }
}

/// Whether the remote system is one that the service runs on.
pub open spec fn is_supported_os(name: Seq<char>) -> bool {
    name == "linux"@ || name == "darwin"@
}

/// The remote system is supported: the service is looked for.
pub open spec fn to_remote_server(m: MachineView) -> (MachineView, OutputView) {
    match m.instance.remote_openchamber.mode {
        DesktopSshRemoteMode::External => match m.instance.remote_openchamber.preferred_port {
            None => fail(
                m,
                ConnectErrorKind::InvalidInstance,
                "External mode requires a preferred remote OpenChamber port"@,
            ),
            Some(port) => (
                MachineView { stage: ConnectStage::ExternalProbe, remote_port: port, ..m },
                OutputView {
                    statuses: seq![
                        StatusDraftView {
                            remote_port: Some(port),
                            ..plain_draft(
                                DesktopSshPhase::ServerDetecting,
                                "Probing external OpenChamber server"@,
                            )
                        },
                    ],
                    notice: None,
                    action: remote_run(
                        m,
                        probe_script_for(m, port),
                        DEFAULT_CONNECTION_TIMEOUT_SEC,
                    ),
                },
            ),
        },
        DesktopSshRemoteMode::Managed => (
            MachineView { stage: ConnectStage::ReadingVersion, ..m },
            OutputView {
                statuses: seq![
                    plain_draft(
                        DesktopSshPhase::RemoteProbe,
                        "Checking remote OpenChamber installation"@,
                    ),
                ],
                notice: None,
                action: remote_run(m, VERSION_SCRIPT@, DEFAULT_CONNECTION_TIMEOUT_SEC),
            },
        ),
    }
}

pub open spec fn on_probing_os(m: MachineView, e: EventView) -> (MachineView, OutputView) {
    match e {
        EventView::Command(o) => match remote_output(o) {
            Err(complaint) => fail(m, ConnectErrorKind::RemoteProbeFailed, complaint),
            Ok(out) => if is_supported_os(lower(trim(out))) {
                to_remote_server(m)
            } else {
                fail(
                    m,
                    ConnectErrorKind::UnsupportedRemoteOS,
                    "Unsupported remote OS: "@ + lower(trim(out)),
                )
            },
        },
        EventView::NotRun(why) => fail(m, ConnectErrorKind::RemoteProbeFailed, why),
        _ => unexpected(m),
    }
}

/// The sentence for a probe that did not find a usable service.
pub open spec fn probe_error_text(e: ProbeError) -> Seq<char> {
    match e {
        ProbeError::RemoteAuthRejected { auth_status } =>
            "Remote OpenChamber requires UI authentication and configured password was rejected (auth status "@
                + decimal(auth_status as nat) + ")"@,
        ProbeError::RemoteAuthRequired =>
            "Remote OpenChamber requires UI authentication on /api/system/info; configure OpenChamber UI password"@,
        ProbeError::RemoteProbeFailed { info_status, health_status } =>
            "Remote OpenChamber probe failed (info status "@ + decimal(info_status as nat)
                + ", health status "@ + decimal(health_status as nat) + ")"@,
    }
}

/// The kind of failure that a probe error stands for.
pub open spec fn probe_error_kind(e: ProbeError) -> ConnectErrorKind {
    match e {
        ProbeError::RemoteAuthRejected { .. } => ConnectErrorKind::RemoteAuthRejected,
        ProbeError::RemoteAuthRequired => ConnectErrorKind::RemoteAuthRequired,
        ProbeError::RemoteProbeFailed { .. } => ConnectErrorKind::RemoteProbeFailed,
    }
}

/// What opens the sentence for a failed probe of a service that the
/// supervisor does not own.
pub open spec fn external_failure(what: Seq<char>) -> Seq<char> {
    "External OpenChamber server probe failed on configured remote port: "@ + what
}

pub open spec fn on_external_probe(m: MachineView, e: EventView) -> (MachineView, OutputView) {
    match e {
        EventView::Command(o) => match remote_output(o) {
            Err(complaint) => fail(
                m,
                ConnectErrorKind::RemoteProbeFailed,
                external_failure(complaint),
            ),
            Ok(out) => match probe_outcome(out, configured_password(m.instance) is Some) {
                Err(pe) => fail(m, probe_error_kind(pe), external_failure(probe_error_text(pe))),
                Ok(_) => to_forwarding(MachineView { started_by_us: false, ..m }),
            },
        },
        EventView::NotRun(why) => fail(
            m,
            ConnectErrorKind::RemoteProbeFailed,
            external_failure(why),
        ),
        _ => unexpected(m),
    }
}

/// The outcome of a command that may not have run.
pub open spec fn outcome_of(e: EventView) -> Option<Option<CommandOutcomeView>> {
    match e {
        EventView::Command(o) => Some(Some(o)),
        EventView::NotRun(_) => Some(None),
        _ => None,
    }
}

/// The service is to be installed: the remote host is asked for bun.
pub open spec fn to_checking_bun(m: MachineView, phase: DesktopSshPhase, detail: Seq<char>) -> (
    MachineView,
    OutputView,
) {
    (
        MachineView { stage: ConnectStage::CheckingBun, ..m },
        OutputView {
            statuses: seq![plain_draft(phase, detail)],
            notice: None,
            action: remote_run(m, command_probe_script("bun"@), DEFAULT_CONNECTION_TIMEOUT_SEC),
        },
    )
}

pub open spec fn on_reading_version(m: MachineView, e: EventView) -> (MachineView, OutputView) {
    match outcome_of(e) {
        None => unexpected(m),
        Some(outcome) => match reported_version(outcome) {
            None => to_checking_bun(
                m,
                DesktopSshPhase::Installing,
                "Installing OpenChamber on remote host"@,
            ),
            Some(installed) => if installed == m.app_version {
                to_detecting(m)
            } else {
                to_checking_bun(
                    m,
                    DesktopSshPhase::Updating,
                    "Updating remote OpenChamber from "@ + installed + " to "@ + m.app_version,
                )
            },
        },
    }
}

pub open spec fn on_checking_bun(m: MachineView, e: EventView) -> (MachineView, OutputView) {
    match outcome_of(e) {
        None => unexpected(m),
        Some(outcome) => (
            MachineView { stage: ConnectStage::CheckingNpm, has_bun: command_found(outcome), ..m },
            quiet(remote_run(m, command_probe_script("npm"@), DEFAULT_CONNECTION_TIMEOUT_SEC)),
        ),
    }
}

pub open spec fn on_checking_npm(m: MachineView, e: EventView) -> (MachineView, OutputView) {
    match outcome_of(e) {
        None => unexpected(m),
        Some(outcome) => {
            let plan = install_commands(
                m.app_version,
                m.instance.remote_openchamber.install_method,
                m.has_bun,
                command_found(outcome),
            );
            if plan.len() == 0 {
                fail(
                    m,
                    ConnectErrorKind::NoRemotePackageManager,
                    "Remote host has neither bun nor npm available"@,
                )
            } else {
                (
                    MachineView {
                        stage: ConnectStage::Installing,
                        install_plan: plan,
                        install_index: 0,
                        ..m
                    },
                    quiet(remote_run(m, plan[0], DEFAULT_CONNECTION_TIMEOUT_SEC)),
                )
            }
        },
    }
}

/// What an install command that has ended complains of, if it failed.
pub open spec fn install_complaint(e: EventView) -> Option<Option<Seq<char>>> {
    match e {
        EventView::Command(o) => match remote_output(o) {
            Ok(_) => Some(None),
            Err(c) => Some(Some(c)),
        },
        EventView::NotRun(why) => Some(Some(why)),
        _ => None,
    }
}

pub open spec fn on_installing(m: MachineView, e: EventView) -> (MachineView, OutputView) {
    match install_complaint(e) {
        None => unexpected(m),
        Some(None) => to_detecting(m),
        Some(Some(complaint)) => if m.install_index + 1 < m.install_plan.len() {
            (
                MachineView { install_index: (m.install_index + 1) as usize, ..m },
                quiet(
                    remote_run(
                        m,
                        m.install_plan[m.install_index + 1],
                        DEFAULT_CONNECTION_TIMEOUT_SEC,
                    ),
                ),
            )
        } else {
            fail(m, ConnectErrorKind::RemoteInstallFailed, complaint)
        },
    }
}

/// The status that says that the service is looked for.
pub open spec fn detecting_draft() -> StatusDraftView {
    plain_draft(DesktopSshPhase::ServerDetecting, "Detecting managed OpenChamber server"@)
}

/// A step with a status put in front of those it announces.
pub open spec fn preceded(draft: StatusDraftView, step: (MachineView, OutputView)) -> (
    MachineView,
    OutputView,
) {
    (step.0, OutputView { statuses: seq![draft] + step.1.statuses, ..step.1 })
}

/// The service is installed: it is looked for on the preferred port, and
/// started where none is preferred.
pub open spec fn to_detecting(m: MachineView) -> (MachineView, OutputView) {
    match m.instance.remote_openchamber.preferred_port {
        Some(port) => (
            MachineView { stage: ConnectStage::DetectingServer, remote_port: port, ..m },
            OutputView {
                statuses: seq![detecting_draft()],
                notice: None,
                action: remote_run(m, probe_script_for(m, port), DEFAULT_CONNECTION_TIMEOUT_SEC),
            },
        ),
        None => preceded(detecting_draft(), to_starting(m)),
    }
}

/// The port that the service is asked to listen on: the preferred one, or
/// one spread over the upper ports.
pub open spec fn desired_port_of(m: MachineView) -> u16 {
    match m.instance.remote_openchamber.preferred_port {
        Some(port) => port,
        None => port_candidate(m.port_hash),
    }
}

/// The service does not run: it is started.
pub open spec fn to_starting(m: MachineView) -> (MachineView, OutputView) {
    (
        MachineView {
            stage: ConnectStage::StartingServer,
            desired_port: desired_port_of(m),
            ..m
        },
        OutputView {
            statuses: seq![
                plain_draft(
                    DesktopSshPhase::ServerStarting,
                    "Starting managed OpenChamber server"@,
                ),
            ],
            notice: None,
            action: remote_run(
                m,
                start_script_text(configured_password(m.instance), desired_port_of(m)),
                DEFAULT_CONNECTION_TIMEOUT_SEC,
            ),
        },
    )
}

/// The service is probed on the port it is to listen on.
pub open spec fn to_confirming(m: MachineView) -> (MachineView, OutputView) {
    (
        MachineView { stage: ConnectStage::ConfirmingServer, ..m },
        quiet(remote_run(m, probe_script_for(m, m.remote_port), DEFAULT_CONNECTION_TIMEOUT_SEC)),
    )
}

pub open spec fn on_detecting(m: MachineView, e: EventView) -> (MachineView, OutputView) {
    match outcome_of(e) {
        None => unexpected(m),
        Some(outcome) => if server_answers(outcome, configured_password(m.instance) is Some) {
            to_confirming(m)
        } else {
            to_starting(m)
        },
    }
}

pub open spec fn on_starting(m: MachineView, e: EventView) -> (MachineView, OutputView) {
    match e {
        EventView::Command(o) => match remote_output(o) {
            Err(complaint) => fail(m, ConnectErrorKind::RemoteServerStartFailed, complaint),
            Ok(out) => to_confirming(
                MachineView {
                    remote_port: started_port_of(out, m.desired_port),
                    started_by_us: true,
                    ..m
                },
            ),
        },
        EventView::NotRun(why) => fail(m, ConnectErrorKind::RemoteServerStartFailed, why),
        _ => unexpected(m),
    }
}

pub open spec fn on_confirming(m: MachineView, e: EventView) -> (MachineView, OutputView) {
    match outcome_of(e) {
        None => unexpected(m),
        Some(outcome) => if server_answers(outcome, configured_password(m.instance) is Some) {
            to_forwarding(m)
        } else {
            fail(
                m,
                ConnectErrorKind::RemoteServerStartFailed,
                "Managed OpenChamber server failed to become reachable"@,
            )
        },
    }
}

/// The address that the anchor forward binds to.
pub open spec fn bind_host(m: MachineView) -> Seq<char> {
    bind_host_of(m.instance.local_forward.bind_host)
}

/// The local port that the instance prefers, if it names one.
pub open spec fn preferred_local_port(m: MachineView) -> Option<u16> {
    match m.instance.local_forward.preferred_local_port {
        Some(p) => if p == 0 {
            None
        } else {
            Some(p)
        },
        None => None,
    }
}

/// The service answers: the forwards are set up, the local port first.
pub open spec fn to_forwarding(m: MachineView) -> (MachineView, OutputView) {
    let statuses = seq![
        StatusDraftView {
            remote_port: Some(m.remote_port),
            started_by_us: m.started_by_us,
            ..plain_draft(DesktopSshPhase::Forwarding, "Setting up port forwards"@)
        },
    ];
    match preferred_local_port(m) {
        Some(port) => (
            MachineView { stage: ConnectStage::CheckingPort, local_port: port, ..m },
            OutputView {
                statuses,
                notice: None,
                action: ActionView::CheckPort { host: bind_host(m), port },
            },
        ),
        None => (
            MachineView { stage: ConnectStage::PickingPort, ..m },
            OutputView { statuses, notice: None, action: ActionView::PickPort },
        ),
    }
}

pub open spec fn on_picking_port(m: MachineView, e: EventView) -> (MachineView, OutputView) {
    match e {
        EventView::PortPicked(Some(port)) => (
            MachineView { stage: ConnectStage::CheckingPort, local_port: port, ..m },
            quiet(ActionView::CheckPort { host: bind_host(m), port }),
        ),
        EventView::PortPicked(None) => fail(
            m,
            ConnectErrorKind::LocalPortUnavailable,
            "No local port is available"@,
        ),
        _ => unexpected(m),
    }
}

/// The anchor forward is started on the local port.
pub open spec fn to_spawning_forward(m: MachineView) -> (MachineView, OutputView) {
    (
        MachineView { stage: ConnectStage::SpawningForward, ..m },
        quiet(
            ActionView::SpawnForward(
                ssh_argv(
                    m.parsed,
                    main_forward_options(m.control_path, bind_host(m), m.local_port, m.remote_port),
                    None,
                ),
            ),
        ),
    )
}

pub open spec fn on_checking_port(m: MachineView, e: EventView) -> (MachineView, OutputView) {
    match e {
        EventView::PortAvailable(true) => to_spawning_forward(m),
        EventView::PortAvailable(false) => (
            MachineView { stage: ConnectStage::RepickingPort, ..m },
            quiet(ActionView::PickPort),
        ),
        _ => unexpected(m),
    }
}

pub open spec fn on_repicking_port(m: MachineView, e: EventView) -> (MachineView, OutputView) {
    match e {
        EventView::PortPicked(Some(port)) => to_spawning_forward(
            MachineView { local_port: port, ..m },
        ),
        EventView::PortPicked(None) => fail(
            m,
            ConnectErrorKind::LocalPortUnavailable,
            "No local port is available"@,
        ),
        _ => unexpected(m),
    }
}

pub open spec fn on_spawning_forward(m: MachineView, e: EventView) -> (MachineView, OutputView) {
    match e {
        EventView::Spawned => (
            MachineView { stage: ConnectStage::SettlingForward, forward_spawned: true, ..m },
            quiet(ActionView::Sleep(250)),
        ),
        EventView::SpawnFailed(_) => fail(
            m,
            ConnectErrorKind::TunnelNotReady,
            "Failed to start main SSH forward on local port "@ + decimal(m.local_port as nat),
        ),
        _ => unexpected(m),
    }
}

pub open spec fn on_settling_forward(m: MachineView, e: EventView) -> (MachineView, OutputView) {
    match e {
        EventView::Slept => (
            MachineView { stage: ConnectStage::PollingForward, ..m },
            quiet(ActionView::PollForward),
        ),
        _ => unexpected(m),
    }
}

/// What is said of an anchor forward that failed.
pub open spec fn forward_failure_detail(c: ChildReportView) -> Seq<char> {
    "Failed to start main port forward (status: "@ + c.status + "): "@ + trim(c.stderr)
}

pub open spec fn on_polling_forward(m: MachineView, e: EventView) -> (MachineView, OutputView) {
    match e {
        EventView::Child(c) => match c.state {
            ChildState::Running => next_forward(m, 0),
            ChildState::Succeeded => {
                let r = next_forward(MachineView { main_forward_detached: true, ..m }, 0);
                (r.0, OutputView { notice: Some(Notice::ForwardDetached), ..r.1 })
            },
            ChildState::Failed => if m.port_retried {
                fail(m, ConnectErrorKind::LocalPortUnavailable, forward_failure_detail(c))
            } else {
                (
                    MachineView {
                        stage: ConnectStage::RepickingPort,
                        port_retried: true,
                        forward_spawned: false,
                        ..m
                    },
                    quiet(ActionView::PickPort),
                )
            },
        },
        _ => unexpected(m),
    }
}

/// A warning about a supplementary forward.
pub open spec fn forward_warning(id: Seq<char>, what: Seq<char>) -> Seq<char> {
    id + ": "@ + what
}

/// The wait for the tunnel begins.
pub open spec fn to_tunnel_wait(m: MachineView) -> (MachineView, OutputView) {
    (
        MachineView { stage: ConnectStage::TunnelClock, ..m },
        quiet(ActionView::Clock { restart: true }),
    )
}

/// The supplementary forwards from the `from`th on are asked for: those
/// that are switched off are passed over, one that lacks a port leaves a
/// warning, and the first that can be asked for is. When none is left, the
/// wait for the tunnel begins.
pub open spec fn next_forward(m: MachineView, from: int) -> (MachineView, OutputView)
    decreases m.instance.port_forwards.len() - from,
{
    if from < 0 || from >= m.instance.port_forwards.len() {
        to_tunnel_wait(m)
    } else {
        let f = m.instance.port_forwards[from];
        if !f.enabled {
            next_forward(m, from + 1)
        } else {
            match extra_forward_argv(m.parsed, m.control_path, f) {
                Err(e) => next_forward(
                    MachineView {
                        warnings: m.warnings.push(forward_warning(f.id, forward_error_text(e))),
                        ..m
                    },
                    from + 1,
                ),
                Ok(argv) => (
                    MachineView {
                        stage: ConnectStage::ExtraForward,
                        forward_index: from as usize,
                        ..m
                    },
                    quiet(ActionView::Run(argv)),
                ),
            }
        }
    }
}

/// The supplementary forward that the attempt is busy with.
pub open spec fn current_forward(m: MachineView) -> PortForwardView {
    m.instance.port_forwards[m.forward_index as int]
}

/// Whether the attempt is busy with a supplementary forward that exists.
pub open spec fn has_current_forward(m: MachineView) -> bool {
    m.forward_index < m.instance.port_forwards.len()
}

/// The local port to probe after a supplementary forward was set up: that
/// of a local forward.
pub open spec fn probe_port_of(f: PortForwardView) -> Option<u16> {
    if f.forward_type == DesktopSshPortForwardType::Local {
        f.local_port
    } else {
        None
    }
}

/// The attempt with one more warning about the forward it is busy with.
pub open spec fn warned(m: MachineView, what: Seq<char>) -> MachineView {
    MachineView { warnings: m.warnings.push(forward_warning(current_forward(m).id, what)), ..m }
}

pub open spec fn on_extra_forward(m: MachineView, e: EventView) -> (MachineView, OutputView) {
    if !has_current_forward(m) {
        unexpected(m)
    } else {
        match e {
            EventView::Command(o) => match extra_forward_verdict(current_forward(m).id, o) {
                Some(complaint) => next_forward(warned(m, complaint), m.forward_index + 1),
                None => match probe_port_of(current_forward(m)) {
                    Some(_) => (
                        MachineView { stage: ConnectStage::ExtraSettle, ..m },
                        quiet(ActionView::Sleep(100)),
                    ),
                    None => next_forward(m, m.forward_index + 1),
                },
            },
            EventView::NotRun(_) => next_forward(
                warned(m, "Failed to configure extra SSH forward "@ + current_forward(m).id),
                m.forward_index + 1,
            ),
            _ => unexpected(m),
        }
    }
}

pub open spec fn on_extra_settle(m: MachineView, e: EventView) -> (MachineView, OutputView) {
    if !has_current_forward(m) {
        unexpected(m)
    } else {
        match (e, probe_port_of(current_forward(m))) {
            (EventView::Slept, Some(port)) => (
                MachineView { stage: ConnectStage::ExtraProbe, ..m },
                quiet(ActionView::ProbeTcp(port)),
            ),
            _ => unexpected(m),
        }
    }
}

/// What is said of a local forward whose listener cannot be reached.
pub open spec fn unreachable_detail(port: u16) -> Seq<char> {
    "local listener 127.0.0.1:"@ + decimal(port as nat) + " is not reachable"@
}

pub open spec fn on_extra_probe(m: MachineView, e: EventView) -> (MachineView, OutputView) {
    if !has_current_forward(m) {
        unexpected(m)
    } else {
        match (e, probe_port_of(current_forward(m))) {
            (EventView::Reachable(true), Some(_)) => next_forward(m, m.forward_index + 1),
            (EventView::Reachable(false), Some(port)) => next_forward(
                warned(m, unreachable_detail(port)),
                m.forward_index + 1,
            ),
            _ => unexpected(m),
        }
    }
}

/// The address at which the service is asked for its health.
pub open spec fn health_url(m: MachineView) -> Seq<char> {
    local_url_of(m.local_port) + "/health"@
}

pub open spec fn on_tunnel_clock(m: MachineView, e: EventView) -> (MachineView, OutputView) {
    match e {
        EventView::Elapsed(ms) => if ms >= DEFAULT_READY_TIMEOUT_SEC * 1000 {
            fail(
                m,
                ConnectErrorKind::TunnelNotReady,
                "Timed out waiting for forwarded OpenChamber health"@,
            )
        } else {
            (
                MachineView { stage: ConnectStage::TunnelProbe, ..m },
                quiet(ActionView::ProbeHealth { url: health_url(m) }),
            )
        },
        _ => unexpected(m),
    }
}

/// Whether an answer through the tunnel shows that the service is there:
/// a success, or the demand to log in.
pub open spec fn tunnel_is_ready(status: Option<u16>) -> bool {
    match status {
        Some(s) => 200 <= s <= 299 || s == 401,
        None => false,
    }
}

/// The local port to save with the instance: the one in use, unless it is
/// the one that is saved already.
pub open spec fn port_to_persist(m: MachineView) -> Option<u16> {
    if m.instance.local_forward.preferred_local_port == Some(m.local_port) {
        None
    } else {
        Some(m.local_port)
    }
}

pub open spec fn on_tunnel_probe(m: MachineView, e: EventView) -> (MachineView, OutputView) {
    match e {
        EventView::Health(status) => if tunnel_is_ready(status) {
            (
                MachineView { stage: ConnectStage::Saving, ..m },
                quiet(
                    ActionView::Save {
                        label: display_label(m.instance),
                        local_url: local_url_of(m.local_port),
                        persist_port: port_to_persist(m),
                    },
                ),
            )
        } else {
            (MachineView { stage: ConnectStage::TunnelSleep, ..m }, quiet(ActionView::Sleep(250)))
        },
        _ => unexpected(m),
    }
}

pub open spec fn on_tunnel_sleep(m: MachineView, e: EventView) -> (MachineView, OutputView) {
    match e {
        EventView::Slept => (
            MachineView { stage: ConnectStage::TunnelClock, ..m },
            quiet(ActionView::Clock { restart: false }),
        ),
        _ => unexpected(m),
    }
}

/// The session that the attempt has built.
pub open spec fn session_of(m: MachineView) -> SessionView {
    SessionView {
        parsed: m.parsed,
        control_path: m.control_path,
        askpass_path: m.askpass_path,
        local_port: m.local_port,
        remote_port: m.remote_port,
        started_by_us: m.started_by_us,
        managed: m.instance.remote_openchamber.mode == DesktopSshRemoteMode::Managed,
        keep_running: m.instance.remote_openchamber.keep_running,
        master_detached: false,
        main_forward_detached: m.main_forward_detached,
    }
}

pub open spec fn on_saving(m: MachineView, e: EventView) -> (MachineView, OutputView) {
    match e {
        EventView::Saved => (
            MachineView { stage: ConnectStage::Done, ..m },
            quiet(ActionView::Finish { session: session_of(m), warnings: m.warnings }),
        ),
        _ => unexpected(m),
    }
}

/// The step of an attempt: what an event leaves of the machine, and what
/// is to be announced and done next.
pub open spec fn connect_step(m: MachineView, e: EventView) -> (MachineView, OutputView) {
    match m.stage {
        ConnectStage::Resolving => on_resolving(m, e),
        ConnectStage::Preparing => on_preparing(m, e),
        ConnectStage::SpawningMaster => on_spawning_master(m, e),
        ConnectStage::MasterClock => on_master_clock(m, e),
        ConnectStage::MasterCheck => on_master_check(m, e),
        ConnectStage::MasterPoll => on_master_poll(m, e),
        ConnectStage::MasterSleep => on_master_sleep(m, e),
        ConnectStage::ProbingOs => on_probing_os(m, e),
        ConnectStage::ExternalProbe => on_external_probe(m, e),
        ConnectStage::ReadingVersion => on_reading_version(m, e),
        ConnectStage::CheckingBun => on_checking_bun(m, e),
        ConnectStage::CheckingNpm => on_checking_npm(m, e),
        ConnectStage::Installing => on_installing(m, e),
        ConnectStage::DetectingServer => on_detecting(m, e),
        ConnectStage::StartingServer => on_starting(m, e),
        ConnectStage::ConfirmingServer => on_confirming(m, e),
        ConnectStage::PickingPort => on_picking_port(m, e),
        ConnectStage::CheckingPort => on_checking_port(m, e),
        ConnectStage::RepickingPort => on_repicking_port(m, e),
        ConnectStage::SpawningForward => on_spawning_forward(m, e),
        ConnectStage::SettlingForward => on_settling_forward(m, e),
        ConnectStage::PollingForward => on_polling_forward(m, e),
        ConnectStage::ExtraForward => on_extra_forward(m, e),
        ConnectStage::ExtraSettle => on_extra_settle(m, e),
        ConnectStage::ExtraProbe => on_extra_probe(m, e),
        ConnectStage::TunnelClock => on_tunnel_clock(m, e),
        ConnectStage::TunnelProbe => on_tunnel_probe(m, e),
        ConnectStage::TunnelSleep => on_tunnel_sleep(m, e),
        ConnectStage::Saving => on_saving(m, e),
        ConnectStage::Done => (m, quiet(ActionView::Nothing)),
        ConnectStage::Failed => (m, quiet(ActionView::Nothing)),
    }
}

} // verus!
