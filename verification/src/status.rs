//! The status of an instance as the interface sees it, and the log lines
//! that record it.

use vstd::prelude::*;
use vstd::string::StringExecFns;
use crate::model::copy_opt_string;
use crate::number::decimal;
use crate::number::push_decimal;
use crate::text::from_chars;
use crate::text::opt_text;
use crate::text::push_str;

verus! {

/// A node of the state machine that drives an instance.
#[derive(Clone, Copy, Debug, PartialEq, Eq, Structural)]
pub enum DesktopSshPhase {
    Idle,
    ConfigResolved,
    AuthCheck,
    MasterConnecting,
    RemoteProbe,
    Installing,
    Updating,
    ServerDetecting,
    ServerStarting,
    Forwarding,
    Ready,
    Degraded,
    Error,
}

/// The name of a phase on the wire.
pub open spec fn phase_name(phase: DesktopSshPhase) -> Seq<char> {
    match phase {
        DesktopSshPhase::Idle => "idle"@,
        DesktopSshPhase::ConfigResolved => "config_resolved"@,
        DesktopSshPhase::AuthCheck => "auth_check"@,
        DesktopSshPhase::MasterConnecting => "master_connecting"@,
        DesktopSshPhase::RemoteProbe => "remote_probe"@,
        DesktopSshPhase::Installing => "installing"@,
        DesktopSshPhase::Updating => "updating"@,
        DesktopSshPhase::ServerDetecting => "server_detecting"@,
        DesktopSshPhase::ServerStarting => "server_starting"@,
        DesktopSshPhase::Forwarding => "forwarding"@,
        DesktopSshPhase::Ready => "ready"@,
        DesktopSshPhase::Degraded => "degraded"@,
        DesktopSshPhase::Error => "error"@,
    }
}

impl DesktopSshPhase {
    /// The name of the phase on the wire.
    pub fn wire_name(&self) -> (r: &'static str)
        ensures
            r@ == phase_name(*self),
    {
        match self {
            DesktopSshPhase::Idle => "idle",
            DesktopSshPhase::ConfigResolved => "config_resolved",
            DesktopSshPhase::AuthCheck => "auth_check",
            DesktopSshPhase::MasterConnecting => "master_connecting",
            DesktopSshPhase::RemoteProbe => "remote_probe",
            DesktopSshPhase::Installing => "installing",
            DesktopSshPhase::Updating => "updating",
            DesktopSshPhase::ServerDetecting => "server_detecting",
            DesktopSshPhase::ServerStarting => "server_starting",
            DesktopSshPhase::Forwarding => "forwarding",
            DesktopSshPhase::Ready => "ready",
            DesktopSshPhase::Degraded => "degraded",
            DesktopSshPhase::Error => "error",
        }
    }
}

/// How much a log line matters.
#[derive(Clone, Copy, Debug, PartialEq, Eq, Structural)]
pub enum LogLevel {
    Info,
    Warn,
    Error,
}

/// The name of a level in a log line.
pub open spec fn level_name(level: LogLevel) -> Seq<char> {
    match level {
        LogLevel::Info => "INFO"@,
        LogLevel::Warn => "WARN"@,
        LogLevel::Error => "ERROR"@,
    }
}

impl LogLevel {
    /// The name of the level in a log line.
    pub fn name(&self) -> (r: &'static str)
        ensures
            r@ == level_name(*self),
    {
        match self {
            LogLevel::Info => "INFO",
            LogLevel::Warn => "WARN",
            LogLevel::Error => "ERROR",
        }
    }
}

/// The level at which a change to a phase is logged.
pub open spec fn phase_level(phase: DesktopSshPhase) -> LogLevel {
    match phase {
        DesktopSshPhase::Error => LogLevel::Error,
        DesktopSshPhase::Degraded => LogLevel::Warn,
        _ => LogLevel::Info,
    }
}

/// The level at which a change to a phase is logged.
pub fn level_for_phase(phase: DesktopSshPhase) -> (r: LogLevel)
    ensures
        r == phase_level(phase),
{
    match phase {
        DesktopSshPhase::Error => LogLevel::Error,
        DesktopSshPhase::Degraded => LogLevel::Warn,
        _ => LogLevel::Info,
    }
}

/// The status of an instance.
#[derive(Debug, PartialEq, Eq)]
pub struct DesktopSshInstanceStatus {
    pub id: String,
    pub phase: DesktopSshPhase,
    pub detail: Option<String>,
    pub local_url: Option<String>,
    pub local_port: Option<u16>,
    pub remote_port: Option<u16>,
    pub started_by_us: bool,
    pub retry_attempt: u32,
    pub requires_user_action: bool,
    pub updated_at_ms: u64,
}

pub struct StatusView {
    pub id: Seq<char>,
    pub phase: DesktopSshPhase,
    pub detail: Option<Seq<char>>,
    pub local_url: Option<Seq<char>>,
    pub local_port: Option<u16>,
    pub remote_port: Option<u16>,
    pub started_by_us: bool,
    pub retry_attempt: u32,
    pub requires_user_action: bool,
    pub updated_at_ms: u64,
}

impl View for DesktopSshInstanceStatus {
    type V = StatusView;

    open spec fn view(&self) -> StatusView {
        StatusView {
            id: self.id@,
            phase: self.phase,
            detail: opt_text(self.detail),
            local_url: opt_text(self.local_url),
            local_port: self.local_port,
            remote_port: self.remote_port,
            started_by_us: self.started_by_us,
            retry_attempt: self.retry_attempt,
            requires_user_action: self.requires_user_action,
            updated_at_ms: self.updated_at_ms,
        }
    }
}

impl Clone for DesktopSshInstanceStatus {
    fn clone(&self) -> (r: Self)
        ensures
            r@ == self@,
    {
        DesktopSshInstanceStatus {
            id: self.id.clone(),
            phase: self.phase,
            detail: copy_opt_string(&self.detail),
            local_url: copy_opt_string(&self.local_url),
            local_port: self.local_port,
            remote_port: self.remote_port,
            started_by_us: self.started_by_us,
            retry_attempt: self.retry_attempt,
            requires_user_action: self.requires_user_action,
            updated_at_ms: self.updated_at_ms,
        }
    }
}

/// The status of an instance of which nothing is known yet.
pub open spec fn idle_status(id: Seq<char>, now_ms: u64) -> StatusView {
    StatusView {
        id,
        phase: DesktopSshPhase::Idle,
        detail: None,
        local_url: None,
        local_port: None,
        remote_port: None,
        started_by_us: false,
        retry_attempt: 0,
        requires_user_action: false,
        updated_at_ms: now_ms,
    }
}

impl DesktopSshInstanceStatus {
    /// The status of an instance of which nothing is known yet.
    pub fn idle(id: &str, now_ms: u64) -> (r: Self)
        ensures
            r@ == idle_status(id@, now_ms),
    {
        DesktopSshInstanceStatus {
            id: String::from_str(id),
            phase: DesktopSshPhase::Idle,
            detail: None,
            local_url: None,
            local_port: None,
            remote_port: None,
            started_by_us: false,
            retry_attempt: 0,
            requires_user_action: false,
            updated_at_ms: now_ms,
        }
    }
}

/// What a status is to become, before it is stamped with the instance and
/// the time.
#[derive(Debug, PartialEq, Eq)]
pub struct StatusDraft {
    pub phase: DesktopSshPhase,
    pub detail: Option<String>,
    pub local_url: Option<String>,
    pub local_port: Option<u16>,
    pub remote_port: Option<u16>,
    pub started_by_us: bool,
    pub retry_attempt: u32,
    pub requires_user_action: bool,
}

pub struct StatusDraftView {
    pub phase: DesktopSshPhase,
    pub detail: Option<Seq<char>>,
    pub local_url: Option<Seq<char>>,
    pub local_port: Option<u16>,
    pub remote_port: Option<u16>,
    pub started_by_us: bool,
    pub retry_attempt: u32,
    pub requires_user_action: bool,
}

impl View for StatusDraft {
    type V = StatusDraftView;

    open spec fn view(&self) -> StatusDraftView {
        StatusDraftView {
            phase: self.phase,
            detail: opt_text(self.detail),
            local_url: opt_text(self.local_url),
            local_port: self.local_port,
            remote_port: self.remote_port,
            started_by_us: self.started_by_us,
            retry_attempt: self.retry_attempt,
            requires_user_action: self.requires_user_action,
        }
    }
}

/// A draft that carries a phase and a sentence and nothing else.
pub open spec fn plain_draft(phase: DesktopSshPhase, detail: Seq<char>) -> StatusDraftView {
    StatusDraftView {
        phase,
        detail: Some(detail),
        local_url: None,
        local_port: None,
        remote_port: None,
        started_by_us: false,
        retry_attempt: 0,
        requires_user_action: false,
    }
}

/// The draft of a failure that the user has to look at.
pub open spec fn error_draft(detail: Seq<char>, retry_attempt: u32) -> StatusDraftView {
    StatusDraftView {
        phase: DesktopSshPhase::Error,
        detail: Some(detail),
        local_url: None,
        local_port: None,
        remote_port: None,
        started_by_us: false,
        retry_attempt,
        requires_user_action: true,
    }
}

impl StatusDraft {
    /// A draft that carries a phase and a sentence and nothing else.
    pub fn plain(phase: DesktopSshPhase, detail: String) -> (r: Self)
        ensures
            r@ == plain_draft(phase, detail@),
    {
        StatusDraft {
            phase,
            detail: Some(detail),
            local_url: None,
            local_port: None,
            remote_port: None,
            started_by_us: false,
            retry_attempt: 0,
            requires_user_action: false,
        }
    }

    /// The draft of a failure that the user has to look at.
    pub fn error(detail: String, retry_attempt: u32) -> (r: Self)
        ensures
            r@ == error_draft(detail@, retry_attempt),
    {
        StatusDraft {
            phase: DesktopSshPhase::Error,
            detail: Some(detail),
            local_url: None,
            local_port: None,
            remote_port: None,
            started_by_us: false,
            retry_attempt,
            requires_user_action: true,
        }
    }
}

/// The status that a draft becomes for an instance at a time.
pub open spec fn stamped(d: StatusDraftView, id: Seq<char>, at_ms: u64) -> StatusView {
    StatusView {
        id,
        phase: d.phase,
        detail: d.detail,
        local_url: d.local_url,
        local_port: d.local_port,
        remote_port: d.remote_port,
        started_by_us: d.started_by_us,
        retry_attempt: d.retry_attempt,
        requires_user_action: d.requires_user_action,
        updated_at_ms: at_ms,
    }
}

/// A line of the log: the time, the level, the message.
pub open spec fn log_line(now_ms: u64, level: LogLevel, message: Seq<char>) -> Seq<char> {
    "["@ + decimal(now_ms as nat) + "] ["@ + level_name(level) + "] "@ + message
}

/// Writes a line of the log.
pub fn format_log_line(now_ms: u64, level: LogLevel, message: &str) -> (r: String)
    ensures
        r@ == log_line(now_ms, level, message@),
{
    let mut out: Vec<char> = Vec::new();
    push_str(&mut out, "[");
    push_decimal(&mut out, now_ms);
    push_str(&mut out, "] [");
    push_str(&mut out, level.name());
    push_str(&mut out, "] ");
    push_str(&mut out, message);
    assert(out@ =~= log_line(now_ms, level, message@));
    from_chars(&out)
}

/// How a boolean is written in a log line.
pub open spec fn bool_text(b: bool) -> Seq<char> {
    if b {
        "true"@
    } else {
        "false"@
    }
}

/// The message that records a change of status. It names the phase, the
/// detail, the retry and whether the user has to act, and nothing else of
/// the status.
pub open spec fn status_message(d: StatusDraftView) -> Seq<char> {
    "phase=\""@ + phase_name(d.phase) + "\" detail="@ + (match d.detail {
        Some(t) => t,
        None => Seq::empty(),
    }) + " retry="@ + decimal(d.retry_attempt as nat) + " requires_user_action="@ + bool_text(
        d.requires_user_action,
    )
}

/// Writes the message that records a change of status.
pub fn status_log_message(draft: &StatusDraft) -> (r: String)
    ensures
        r@ == status_message(draft@),
{
    let mut out: Vec<char> = Vec::new();
    push_str(&mut out, "phase=\"");
    push_str(&mut out, draft.phase.wire_name());
    push_str(&mut out, "\" detail=");
    match &draft.detail {
        Some(t) => {
            push_str(&mut out, t.as_str());
        },
        None => {},
    }
    push_str(&mut out, " retry=");
    push_decimal(&mut out, draft.retry_attempt as u64);
    push_str(&mut out, " requires_user_action=");
    push_str(&mut out, if draft.requires_user_action {
        "true"
    } else {
        "false"
    });
    assert(out@ =~= status_message(draft@));
    from_chars(&out)
}

/// The line that opens a connection attempt in the log.
pub open spec fn attempt_separator(connect_attempt: u32, retry_attempt: u32) -> Seq<char> {
    "---------------- attempt #"@ + decimal(connect_attempt as nat) + " ("@ + (if retry_attempt
        > 0 {
        "retry "@ + decimal(retry_attempt as nat)
    } else {
        "manual"@
    }) + ") ----------------"@
}

/// Writes the line that opens a connection attempt in the log.
pub fn attempt_separator_line(connect_attempt: u32, retry_attempt: u32) -> (r: String)
    ensures
        r@ == attempt_separator(connect_attempt, retry_attempt),
{
    let mut out: Vec<char> = Vec::new();
    push_str(&mut out, "---------------- attempt #");
    push_decimal(&mut out, connect_attempt as u64);
    push_str(&mut out, " (");
    if retry_attempt > 0 {
        push_str(&mut out, "retry ");
        push_decimal(&mut out, retry_attempt as u64);
    } else {
        push_str(&mut out, "manual");
    }
    push_str(&mut out, ") ----------------");
    assert(out@ =~= attempt_separator(connect_attempt, retry_attempt));
    from_chars(&out)
}

} // verus!
