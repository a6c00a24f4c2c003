//! Whether a session is still alive, and when to try again after it has
//! dropped.
//!
//! A helper process that has exited with success has gone to the
//! background: that is a detach, not a failure. From then on the control
//! master is judged by whether it answers, and, failing that, by whether
//! the tunnel's local port still accepts connections.

use vstd::prelude::*;
use vstd::string::StringExecFns;
use crate::model::DEFAULT_RECONNECT_MAX_ATTEMPTS;
use crate::status::LogLevel;
use crate::text::from_chars;
use crate::text::push_chars;
use crate::text::push_str;
use crate::text::trim;
use crate::text::trimmed_str;

verus! {

/// Whether a helper process runs, and how it ended if it does not.
#[derive(Clone, Copy, Debug, PartialEq, Eq, Structural)]
pub enum ChildState {
    Running,
    Succeeded,
    Failed,
}

/// What a look at a helper process found.
#[derive(Debug, PartialEq, Eq)]
pub struct ChildReport {
    pub state: ChildState,
    /// How the process ended, in words; empty while it runs.
    pub status: String,
    /// What the process wrote to its error stream.
    pub stderr: String,
}

pub struct ChildReportView {
    pub state: ChildState,
    pub status: Seq<char>,
    pub stderr: Seq<char>,
}

impl View for ChildReport {
    type V = ChildReportView;

    open spec fn view(&self) -> ChildReportView {
        ChildReportView { state: self.state, status: self.status@, stderr: self.stderr@ }
    }
}

/// Which helpers of a session have gone to the background.
#[derive(Clone, Copy, Debug, PartialEq, Eq, Structural)]
pub struct SessionFlags {
    pub master_detached: bool,
    pub main_forward_detached: bool,
}

/// What has to be found out before the session can be judged.
#[derive(Clone, Copy, Debug, PartialEq, Eq, Structural)]
pub enum Probe {
    /// Whether the control master answers `check`.
    Check,
    /// Whether the tunnel's local port accepts a connection.
    Tcp,
}

/// Why a session counts as dropped.
#[derive(Clone, Copy, Debug, PartialEq, Eq, Structural)]
pub enum DropKind {
    TunnelDropped,
    ControlMasterLost,
}

/// Something worth a log line that is no failure.
#[derive(Clone, Copy, Debug, PartialEq, Eq, Structural)]
pub enum Notice {
    ForwardDetached,
    MasterDetached,
    TunnelStillReachable,
}

/// The log line of a notice.
pub open spec fn notice_text(n: Notice) -> Seq<char> {
    match n {
        Notice::ForwardDetached => "Main tunnel helper exited after ControlMaster handoff"@,
        Notice::MasterDetached => "SSH ControlMaster transitioned to detached background mode"@,
        Notice::TunnelStillReachable =>
            "SSH ControlMaster check failed but local tunnel is still reachable"@,
    }
}

/// The level of the log line of a notice: a detach is information, the
/// fallback is a warning.
pub open spec fn notice_level(n: Notice) -> LogLevel {
    match n {
        Notice::TunnelStillReachable => LogLevel::Warn,
        _ => LogLevel::Info,
    }
}

impl Notice {
    /// The log line of the notice.
    pub fn text(&self) -> (r: &'static str)
        ensures
            r@ == notice_text(*self),
    {
        match self {
            Notice::ForwardDetached => "Main tunnel helper exited after ControlMaster handoff",
            Notice::MasterDetached => "SSH ControlMaster transitioned to detached background mode",
            Notice::TunnelStillReachable =>
                "SSH ControlMaster check failed but local tunnel is still reachable",
        }
    }

    /// The level of the log line of the notice.
    pub fn level(&self) -> (r: LogLevel)
        ensures
            r == notice_level(*self),
    {
        match self {
            Notice::TunnelStillReachable => LogLevel::Warn,
            _ => LogLevel::Info,
        }
    }
}

/// The judgement on a session.
#[derive(Debug, PartialEq, Eq)]
pub enum Assessment {
    /// More has to be found out first.
    Need(Probe),
    /// The session is alive; the flags are to be kept.
    Alive { flags: SessionFlags, notices: Vec<Notice> },
    /// The session has dropped.
    Dropped { flags: SessionFlags, kind: DropKind, reason: String, notices: Vec<Notice> },
}

pub enum AssessmentView {
    Need(Probe),
    Alive { flags: SessionFlags, notices: Seq<Notice> },
    Dropped { flags: SessionFlags, kind: DropKind, reason: Seq<char>, notices: Seq<Notice> },
}

impl View for Assessment {
    type V = AssessmentView;

    open spec fn view(&self) -> AssessmentView {
        match self {
            Assessment::Need(p) => AssessmentView::Need(*p),
            Assessment::Alive { flags, notices } => AssessmentView::Alive {
                flags: *flags,
                notices: notices@,
            },
            Assessment::Dropped { flags, kind, reason, notices } => AssessmentView::Dropped {
                flags: *flags,
                kind: *kind,
                reason: reason@,
                notices: notices@,
            },
        }
    }
}

/// How a helper that has ended is described: what it is, how it ended,
/// and what it complained of, if anything.
pub open spec fn exit_reason(what: Seq<char>, c: ChildReportView) -> Seq<char> {
    what + " ("@ + c.status + ")"@ + if trim(c.stderr).len() == 0 {
        Seq::empty()
    } else {
        ": "@ + trim(c.stderr)
    }
}

/// The judgement on the control master, once the anchor forward is known
/// not to have failed.
pub open spec fn master_assessment(
    flags: SessionFlags,
    notices: Seq<Notice>,
    master: ChildReportView,
    check: Option<bool>,
    tcp: Option<bool>,
) -> AssessmentView {
    if !flags.master_detached && master.state == ChildState::Running {
        AssessmentView::Alive { flags, notices }
    } else {
        match check {
            None => AssessmentView::Need(Probe::Check),
            Some(true) => if !flags.master_detached && master.state == ChildState::Succeeded {
                AssessmentView::Alive {
                    flags: SessionFlags {
                        master_detached: true,
                        main_forward_detached: flags.main_forward_detached,
                    },
                    notices: notices.push(Notice::MasterDetached),
                }
            } else {
                AssessmentView::Alive { flags, notices }
            },
            Some(false) => match tcp {
                None => AssessmentView::Need(Probe::Tcp),
                Some(true) => AssessmentView::Alive {
                    flags,
                    notices: notices.push(Notice::TunnelStillReachable),
                },
                Some(false) => AssessmentView::Dropped {
                    flags,
                    kind: DropKind::ControlMasterLost,
                    reason: if flags.master_detached {
                        "SSH ControlMaster is not reachable"@
                    } else {
                        exit_reason("SSH ControlMaster exited"@, master)
                    },
                    notices,
                },
            },
        }
    }
}

/// The judgement on a session from what is known of it.
///
/// An anchor forward that ended with a failure drops the tunnel; one that
/// ended with success has detached. A control master that runs is alive.
/// One that has ended or detached is alive if it answers `check`, and
/// detaches if it ended with success; if it does not answer, the session
/// is alive as long as the tunnel's local port accepts a connection, and
/// the control master is lost otherwise.
pub open spec fn assessment(
    flags: SessionFlags,
    anchor: ChildReportView,
    master: ChildReportView,
    check: Option<bool>,
    tcp: Option<bool>,
) -> AssessmentView {
    if !flags.main_forward_detached && anchor.state == ChildState::Failed {
        AssessmentView::Dropped {
            flags,
            kind: DropKind::TunnelDropped,
            reason: exit_reason("Main SSH forward exited"@, anchor),
            notices: Seq::empty(),
        }
    } else if !flags.main_forward_detached && anchor.state == ChildState::Succeeded {
        master_assessment(
            SessionFlags { master_detached: flags.master_detached, main_forward_detached: true },
            seq![Notice::ForwardDetached],
            master,
            check,
            tcp,
        )
    } else {
        master_assessment(flags, Seq::empty(), master, check, tcp)
    }
}

fn describe_exit(what: &str, c: &ChildReport) -> (r: String)
    ensures
        r@ == exit_reason(what@, c@),
{
    let mut out: Vec<char> = Vec::new();
    push_str(&mut out, what);
    push_str(&mut out, " (");
    push_str(&mut out, c.status.as_str());
    push_str(&mut out, ")");
    let complaint = trimmed_str(c.stderr.as_str());
    if complaint.len() > 0 {
        push_str(&mut out, ": ");
        push_chars(&mut out, &complaint);
    }
    assert(out@ =~= exit_reason(what@, c@));
    from_chars(&out)
}

/// Judges a session. While the judgement needs a probe that has not been
/// made (`check` or `tcp` is `None`), it says so and changes nothing; the
/// caller makes the probe and asks again.
pub fn assess_session(
    flags: SessionFlags,
    anchor: &ChildReport,
    master: &ChildReport,
    check: Option<bool>,
    tcp: Option<bool>,
) -> (r: Assessment)
    ensures
        r@ == assessment(flags, anchor@, master@, check, tcp),
{
    let mut flags = flags;
    let mut notices: Vec<Notice> = Vec::new();
    if !flags.main_forward_detached {
        match anchor.state {
            ChildState::Failed => {
                return Assessment::Dropped {
                    flags,
                    kind: DropKind::TunnelDropped,
                    reason: describe_exit("Main SSH forward exited", anchor),
                    notices,
                };
            },
            ChildState::Succeeded => {
                flags.main_forward_detached = true;
                notices.push(Notice::ForwardDetached);
                assert(notices@ =~= seq![Notice::ForwardDetached]);
            },
            ChildState::Running => {},
        }
    }
    let running = match master.state {
        ChildState::Running => true,
        _ => false,
    };
    if !flags.master_detached && running {
        return Assessment::Alive { flags, notices };
    }
    match check {
        None => Assessment::Need(Probe::Check),
        Some(true) => {
            let succeeded = match master.state {
                ChildState::Succeeded => true,
                _ => false,
            };
            if !flags.master_detached && succeeded {
                flags.master_detached = true;
                notices.push(Notice::MasterDetached);
            }
            Assessment::Alive { flags, notices }
        },
        Some(false) => match tcp {
            None => Assessment::Need(Probe::Tcp),
            Some(true) => {
                notices.push(Notice::TunnelStillReachable);
                Assessment::Alive { flags, notices }
            },
            Some(false) => {
                let reason = if flags.master_detached {
                    String::from_str("SSH ControlMaster is not reachable")
                } else {
                    describe_exit("SSH ControlMaster exited", master)
                };
                Assessment::Dropped { flags, kind: DropKind::ControlMasterLost, reason, notices }
            },
        },
    }
}

/// Two to the power of `n`.
pub open spec fn pow2(n: nat) -> nat
    decreases n,
{
    if n == 0 {
        1
    } else {
        2 * pow2((n - 1) as nat)
    }
}

/// The wait before the `attempt`th reconnect, without jitter: a second for
/// the first, doubling with each attempt, half a minute at most.
pub open spec fn backoff_ms(attempt: u32) -> nat {
    let doubled = pow2(
        if attempt > 0 {
            (attempt - 1) as nat
        } else {
            0
        },
    ) * 1000;
    if doubled < 30000 {
        doubled
    } else {
        30000
    }
}

/// The jitter added to a wait: between 100 and 799 milliseconds.
pub open spec fn jitter_ms(seed: u64) -> nat {
    (100 + seed % 700) as nat
}

/// The wait before the `attempt`th reconnect.
pub open spec fn reconnect_delay(attempt: u32, seed: u64) -> nat {
    backoff_ms(attempt) + jitter_ms(seed)
}

/// Powers of two grow.
pub proof fn lemma_pow2_grows(a: nat, b: nat)
    requires
        a <= b,
    ensures
        0 < pow2(a) <= pow2(b),
    decreases b,
{
    if b > 0 {
        if a < b {
            lemma_pow2_grows(a, (b - 1) as nat);
        } else {
            lemma_pow2_grows((a - 1) as nat, (b - 1) as nat);
        }
    }
}

/// Computes the wait before the `attempt`th reconnect, in milliseconds.
pub fn reconnect_delay_ms(attempt: u32, seed: u64) -> (r: u64)
    ensures
        r == reconnect_delay(attempt, seed),
{
    let exponent: u32 = if attempt > 0 {
        attempt - 1
    } else {
        0
    };
    let mut base: u64 = 1000;
    let mut i: u32 = 0;
    assert(pow2(0) == 1);
    while i < exponent && base < 30000
        invariant
            i <= exponent,
            base == pow2(i as nat) * 1000,
            base < 60000,
        decreases exponent - i,
    {
        assert(pow2((i + 1) as nat) == 2 * pow2(i as nat));
        base = base * 2;
        i += 1;
    }
    proof {
        lemma_pow2_grows(i as nat, exponent as nat);
        assert(pow2(i as nat) * 1000 <= pow2(exponent as nat) * 1000) by (nonlinear_arith)
            requires
                pow2(i as nat) <= pow2(exponent as nat),
        ;
    }
    let capped: u64 = if base < 30000 {
        base
    } else {
        30000
    };
    capped + 100 + seed % 700
}

/// The wait before a reconnect lies between the doubled second, cut at
/// half a minute, and that plus 800 milliseconds; it never exceeds 30.8
/// seconds. Up to the last attempt that is made, nothing is cut: the wait
/// before the `k`th is at least `2^(k-1)` seconds.
pub proof fn lemma_retry_schedule(attempt: u32, seed: u64)
    requires
        attempt >= 1,
    ensures
        backoff_ms(attempt) <= reconnect_delay(attempt, seed) <= backoff_ms(attempt) + 800,
        reconnect_delay(attempt, seed) <= 30800,
        attempt <= DEFAULT_RECONNECT_MAX_ATTEMPTS ==> pow2((attempt - 1) as nat) * 1000
            <= reconnect_delay(attempt, seed) <= pow2((attempt - 1) as nat) * 1000 + 800,
{
    if attempt <= DEFAULT_RECONNECT_MAX_ATTEMPTS {
        reveal_with_fuel(pow2, 6);
        assert(pow2((attempt - 1) as nat) <= 16);
    }
}

} // verus!
