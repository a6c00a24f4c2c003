//! The supervisor's decisions: when a connect starts, what a finished or
//! failed attempt leaves behind, what the monitor does with a session that
//! has dropped, and how an instance is disconnected.

use vstd::prelude::*;
use vstd::string::StringExecFns;
use crate::journal::log_tail;
use crate::journal::next_status;
use crate::journal::record_log;
use crate::journal::record_status;
use crate::journal::tail_of;
use crate::journal::with_line;
use crate::journal::with_log;
use crate::journal::with_status;
use crate::liveness::Assessment;
use crate::liveness::AssessmentView;
use crate::liveness::ChildReport;
use crate::liveness::ChildReportView;
use crate::liveness::Notice;
use crate::liveness::Probe;
use crate::liveness::SessionFlags;
use crate::liveness::assess_session;
use crate::liveness::assessment;
use crate::liveness::notice_level;
use crate::liveness::notice_text;
use crate::liveness::reconnect_delay;
use crate::liveness::reconnect_delay_ms;
use crate::model::DEFAULT_RECONNECT_MAX_ATTEMPTS;
use crate::model::MAX_LOG_LINES_PER_INSTANCE;
use crate::model::copy_opt_string;
use crate::model::opt_view;
use crate::number::decimal;
use crate::number::push_decimal;
use crate::registry::InstanceRuntime;
use crate::registry::RuntimeView;
use crate::registry::SessionRecord;
use crate::registry::SessionView;
use crate::registry::Supervisor;
use crate::registry::coherent;
use crate::registry::time_goes_on;
use crate::status::DesktopSshInstanceStatus;
use crate::status::DesktopSshPhase;
use crate::status::LogLevel;
use crate::status::StatusDraft;
use crate::status::StatusDraftView;
use crate::status::StatusView;
use crate::status::attempt_separator;
use crate::status::attempt_separator_line;
use crate::status::error_draft;
use crate::status::idle_status;
use crate::status::log_line;
use crate::status::plain_draft;
use crate::teardown::TeardownAction;
use crate::teardown::TeardownActionView;
use crate::teardown::plan_teardown;
use crate::teardown::plan_view;
use crate::teardown::teardown_plan;
use crate::text::from_chars;
use crate::text::opt_text;
use crate::text::push_chars;
use crate::text::push_str;
use crate::text::texts;

verus! {

/// A counter after one more count; it stays at its largest value.
pub open spec fn counted(n: u32) -> u32 {
    if n < u32::MAX {
        (n + 1) as u32
    } else {
        n
    }
}

fn count(n: u32) -> (r: u32)
    ensures
        r == counted(n),
{
    if n < u32::MAX {
        n + 1
    } else {
        n
    }
}

/// A record with the log lines of some notices.
pub open spec fn with_notices(r: RuntimeView, notices: Seq<Notice>, now_ms: u64) -> RuntimeView
    decreases notices.len(),
{
    if notices.len() == 0 {
        r
    } else {
        with_log(
            with_notices(r, notices.drop_last(), now_ms),
            now_ms,
            notice_level(notices.last()),
            notice_text(notices.last()),
        )
    }
}

/// Logging does not touch anything but the log.
pub proof fn lemma_with_notices_keeps(r: RuntimeView, notices: Seq<Notice>, now_ms: u64)
    ensures
        with_notices(r, notices, now_ms) == (RuntimeView {
            log: with_notices(r, notices, now_ms).log,
            ..r
        }),
    decreases notices.len(),
{
    if notices.len() > 0 {
        lemma_with_notices_keeps(r, notices.drop_last(), now_ms);
    }
}

fn record_notices(record: &mut InstanceRuntime, notices: &Vec<Notice>, now_ms: u64)
    requires
        old(record)@.log.len() <= MAX_LOG_LINES_PER_INSTANCE,
    ensures
        final(record)@ == with_notices(old(record)@, notices@, now_ms),
        final(record)@.log.len() <= MAX_LOG_LINES_PER_INSTANCE,
{
    let mut i: usize = 0;
    assert(notices@.take(0) =~= Seq::<Notice>::empty());
    while i < notices.len()
        invariant
            i <= notices.len(),
            record@ == with_notices(old(record)@, notices@.take(i as int), now_ms),
            record@.log.len() <= MAX_LOG_LINES_PER_INSTANCE,
        decreases notices.len() - i,
    {
        let ghost upto = notices@.take(i + 1);
        assert(upto.drop_last() =~= notices@.take(i as int));
        assert(upto.last() == notices@[i as int]);
        record_log(record, now_ms, notices[i].level(), notices[i].text());
        i += 1;
    }
    assert(notices@.take(notices.len() as int) =~= notices@);
}

/// What the supervisor does about a session that has dropped, or about an
/// attempt to reconnect that has failed.
#[derive(Debug, PartialEq, Eq)]
pub enum RetryDecision {
    /// The attempts are used up: the instance is in error and the user has
    /// to act.
    GiveUp { teardown: Vec<TeardownAction>, status: DesktopSshInstanceStatus },
    /// The instance is degraded; connect again after the delay.
    Retry {
        teardown: Vec<TeardownAction>,
        status: DesktopSshInstanceStatus,
        attempt: u32,
        delay_ms: u64,
    },
}

pub enum RetryDecisionView {
    GiveUp { teardown: Seq<TeardownActionView>, status: StatusView },
    Retry { teardown: Seq<TeardownActionView>, status: StatusView, attempt: u32, delay_ms: u64 },
}

impl View for RetryDecision {
    type V = RetryDecisionView;

    open spec fn view(&self) -> RetryDecisionView {
        match self {
            RetryDecision::GiveUp { teardown, status } => RetryDecisionView::GiveUp {
                teardown: plan_view(teardown@),
                status: status@,
            },
            RetryDecision::Retry { teardown, status, attempt, delay_ms } => RetryDecisionView::Retry {
                teardown: plan_view(teardown@),
                status: status@,
                attempt: *attempt,
                delay_ms: *delay_ms,
            },
        }
    }
}

/// A record without its session and its tasks.
pub open spec fn released(r: RuntimeView) -> RuntimeView {
    RuntimeView { session: None, connecting: false, monitoring: false, ..r }
}

/// The draft of the status of an instance that waits to reconnect.
pub open spec fn degraded_draft(reason: Seq<char>, attempt: u32) -> StatusDraftView {
    StatusDraftView {
        phase: DesktopSshPhase::Degraded,
        detail: Some(reason + ". Reconnecting"@),
        local_url: None,
        local_port: None,
        remote_port: None,
        started_by_us: false,
        retry_attempt: attempt,
        requires_user_action: false,
    }
}

/// The draft of the status that a drop leaves: degraded while attempts
/// are left, in error once they are used up.
pub open spec fn drop_draft(reason: Seq<char>, attempt: u32) -> StatusDraftView {
    if attempt > DEFAULT_RECONNECT_MAX_ATTEMPTS {
        error_draft(reason + ". Retry limit reached"@, attempt)
    } else {
        degraded_draft(reason, attempt)
    }
}

/// What a drop leaves of a record: the session and the tasks are gone,
/// the drop is counted, and the status says whether another attempt
/// follows.
pub open spec fn after_drop(r: RuntimeView, reason: Seq<char>, now_ms: u64) -> RuntimeView {
    let attempt = counted(r.reconnect_attempts);
    with_status(
        RuntimeView { reconnect_attempts: attempt, ..released(r) },
        drop_draft(reason, attempt),
        now_ms,
    )
}

/// Once five attempts to reconnect have been made, the next drop ends in
/// error, and the user has to act. Until then a drop leaves the instance
/// degraded, with the attempt counted.
pub proof fn lemma_retry_limit(r: RuntimeView, reason: Seq<char>, now_ms: u64)
    ensures
        r.reconnect_attempts >= DEFAULT_RECONNECT_MAX_ATTEMPTS ==> after_drop(
            r,
            reason,
            now_ms,
        ).status->0.phase == DesktopSshPhase::Error && after_drop(
            r,
            reason,
            now_ms,
        ).status->0.requires_user_action,
        r.reconnect_attempts < DEFAULT_RECONNECT_MAX_ATTEMPTS ==> after_drop(
            r,
            reason,
            now_ms,
        ).status->0.phase == DesktopSshPhase::Degraded && after_drop(
            r,
            reason,
            now_ms,
        ).status->0.retry_attempt == r.reconnect_attempts + 1,
        after_drop(r, reason, now_ms).session is None,
        !after_drop(r, reason, now_ms).connecting,
        !after_drop(r, reason, now_ms).monitoring,
{
}

/// What the supervisor does about a drop.
pub open spec fn drop_decision(r: RuntimeView, reason: Seq<char>, now_ms: u64, seed: u64)
    -> RetryDecisionView {
    let attempt = counted(r.reconnect_attempts);
    let status = after_drop(r, reason, now_ms).status->0;
    if attempt > DEFAULT_RECONNECT_MAX_ATTEMPTS {
        RetryDecisionView::GiveUp { teardown: teardown_plan(r.session), status }
    } else {
        RetryDecisionView::Retry {
            teardown: teardown_plan(r.session),
            status,
            attempt,
            delay_ms: reconnect_delay(attempt, seed) as u64,
        }
    }
}

fn record_drop(record: &mut InstanceRuntime, reason: &str, now_ms: u64, seed: u64) -> (r:
    RetryDecision)
    requires
        old(record)@.log.len() <= MAX_LOG_LINES_PER_INSTANCE,
    ensures
        final(record)@ == after_drop(old(record)@, reason@, now_ms),
        r@ == drop_decision(old(record)@, reason@, now_ms, seed),
        final(record)@.log.len() <= MAX_LOG_LINES_PER_INSTANCE,
        old(record)@.status matches Some(s) ==> s.updated_at_ms <= final(record)@.status->0.updated_at_ms,
{
    let teardown = plan_teardown(&record.session);
    let attempt = count(record.reconnect_attempts);
    record.session = None;
    record.connecting = false;
    record.monitoring = false;
    record.reconnect_attempts = attempt;
    if attempt > DEFAULT_RECONNECT_MAX_ATTEMPTS {
        let detail = String::from_str(reason).concat(". Retry limit reached");
        let status = record_status(record, StatusDraft::error(detail, attempt), now_ms);
        RetryDecision::GiveUp { teardown, status }
    } else {
        let draft = StatusDraft {
            phase: DesktopSshPhase::Degraded,
            detail: Some(String::from_str(reason).concat(". Reconnecting")),
            local_url: None,
            local_port: None,
            remote_port: None,
            started_by_us: false,
            retry_attempt: attempt,
            requires_user_action: false,
        };
        let status = record_status(record, draft, now_ms);
        proof {
            crate::liveness::lemma_retry_schedule(attempt, seed);
        }
        RetryDecision::Retry { teardown, status, attempt, delay_ms: reconnect_delay_ms(attempt, seed) }
    }
}

/// How a request to connect is answered.
#[derive(Debug, PartialEq, Eq)]
pub enum StartDecision {
    /// The instance is not among the saved ones.
    NotFound,
    /// A connect task runs already; nothing is started.
    AlreadyConnecting,
    /// The session is alive; its status is announced again.
    Reused { status: DesktopSshInstanceStatus },
    /// What is left of an earlier session is taken down, and a connect
    /// task starts.
    Started {
        teardown: Vec<TeardownAction>,
        status: DesktopSshInstanceStatus,
        connect_attempt: u32,
        retry_attempt: u32,
    },
}

pub enum StartDecisionView {
    NotFound,
    AlreadyConnecting,
    Reused { status: StatusView },
    Started {
        teardown: Seq<TeardownActionView>,
        status: StatusView,
        connect_attempt: u32,
        retry_attempt: u32,
    },
}

impl View for StartDecision {
    type V = StartDecisionView;

    open spec fn view(&self) -> StartDecisionView {
        match self {
            StartDecision::NotFound => StartDecisionView::NotFound,
            StartDecision::AlreadyConnecting => StartDecisionView::AlreadyConnecting,
            StartDecision::Reused { status } => StartDecisionView::Reused { status: status@ },
            StartDecision::Started { teardown, status, connect_attempt, retry_attempt } =>
                StartDecisionView::Started {
                teardown: plan_view(teardown@),
                status: status@,
                connect_attempt: *connect_attempt,
                retry_attempt: *retry_attempt,
            },
        }
    }
}

impl StartDecision {
    /// The complaint owed to the caller, if the request is refused.
    pub fn error(&self) -> (r: Option<String>)
        ensures
            opt_text(r) == if self@ is NotFound {
                Some("SSH instance not found"@)
            } else {
                None
            },
    {
        match self {
            StartDecision::NotFound => Some(String::from_str("SSH instance not found")),
            _ => None,
        }
    }
}

/// The draft that announces a live session again.
pub open spec fn reuse_draft(s: StatusView) -> StatusDraftView {
    StatusDraftView {
        phase: DesktopSshPhase::Ready,
        detail: Some("SSH session already active"@),
        local_url: s.local_url,
        local_port: s.local_port,
        remote_port: s.remote_port,
        started_by_us: s.started_by_us,
        retry_attempt: s.retry_attempt,
        requires_user_action: false,
    }
}

/// Whether a request to connect finds a session to use again.
pub open spec fn reuses_session(r: RuntimeView, alive: bool) -> bool {
    alive && r.session is Some && r.status is Some
}

/// The retries that count for a connect: none when the user asked for it.
pub open spec fn retries_for(r: RuntimeView, manual: bool) -> u32 {
    if manual {
        0
    } else {
        r.reconnect_attempts
    }
}

/// What a request to connect leaves of a record.
pub open spec fn after_start(r: RuntimeView, found: bool, manual: bool, alive: bool, now_ms: u64)
    -> RuntimeView {
    if !found {
        r
    } else if r.connecting {
        with_log(r, now_ms, LogLevel::Info, "Connection already in progress"@)
    } else if reuses_session(r, alive) {
        with_log(
            with_status(r, reuse_draft(r.status->0), now_ms),
            now_ms,
            LogLevel::Info,
            "Connection already active; reusing existing SSH session"@,
        )
    } else {
        let retry = retries_for(r, manual);
        let attempt = counted(r.connect_attempts);
        let logged = with_log(
            with_line(r, log_line(now_ms, LogLevel::Info, attempt_separator(attempt, retry))),
            now_ms,
            LogLevel::Info,
            "Starting SSH connection"@,
        );
        with_status(
            RuntimeView {
                session: None,
                connecting: true,
                monitoring: false,
                reconnect_attempts: retry,
                connect_attempts: attempt,
                ..logged
            },
            plain_draft(DesktopSshPhase::ConfigResolved, "Resolving SSH command"@),
            now_ms,
        )
    }
}

/// How a request to connect is answered.
pub open spec fn start_decision(
    r: RuntimeView,
    found: bool,
    manual: bool,
    alive: bool,
    now_ms: u64,
) -> StartDecisionView {
    if !found {
        StartDecisionView::NotFound
    } else if r.connecting {
        StartDecisionView::AlreadyConnecting
    } else if reuses_session(r, alive) {
        StartDecisionView::Reused { status: next_status(r, reuse_draft(r.status->0), now_ms) }
    } else {
        StartDecisionView::Started {
            teardown: teardown_plan(r.session),
            status: after_start(r, found, manual, alive, now_ms).status->0,
            connect_attempt: counted(r.connect_attempts),
            retry_attempt: retries_for(r, manual),
        }
    }
}

/// What a look at a session found.
#[derive(Clone, Copy, Debug, PartialEq, Eq, Structural)]
pub enum LivenessAnswer {
    /// A probe has to be made first.
    Need(Probe),
    Alive,
    NotAlive,
}

/// The flags of a session.
pub open spec fn flags_of(s: SessionView) -> SessionFlags {
    SessionFlags {
        master_detached: s.master_detached,
        main_forward_detached: s.main_forward_detached,
    }
}

/// A session with new flags.
pub open spec fn with_flags(s: SessionView, flags: SessionFlags) -> SessionView {
    SessionView {
        master_detached: flags.master_detached,
        main_forward_detached: flags.main_forward_detached,
        ..s
    }
}

/// What a look at the session leaves of a record: the flags are brought
/// up to date and the notices are logged, and a drop is logged as a
/// warning. Nothing changes while a probe is still to be made, or when
/// there is no session.
pub open spec fn after_look(
    r: RuntimeView,
    anchor: ChildReportView,
    master: ChildReportView,
    check: Option<bool>,
    tcp: Option<bool>,
    now_ms: u64,
) -> RuntimeView {
    match r.session {
        None => r,
        Some(s) => match assessment(flags_of(s), anchor, master, check, tcp) {
            AssessmentView::Need(_) => r,
            AssessmentView::Alive { flags, notices } => with_notices(
                RuntimeView { session: Some(with_flags(s, flags)), ..r },
                notices,
                now_ms,
            ),
            AssessmentView::Dropped { flags, kind, reason, notices } => with_log(
                with_notices(
                    RuntimeView { session: Some(with_flags(s, flags)), ..r },
                    notices,
                    now_ms,
                ),
                now_ms,
                LogLevel::Warn,
                reason,
            ),
        },
    }
}

/// What a look at the session answers.
pub open spec fn look_answer(
    r: RuntimeView,
    anchor: ChildReportView,
    master: ChildReportView,
    check: Option<bool>,
    tcp: Option<bool>,
) -> LivenessAnswer {
    match r.session {
        None => LivenessAnswer::NotAlive,
        Some(s) => match assessment(flags_of(s), anchor, master, check, tcp) {
            AssessmentView::Need(p) => LivenessAnswer::Need(p),
            AssessmentView::Alive { .. } => LivenessAnswer::Alive,
            AssessmentView::Dropped { .. } => LivenessAnswer::NotAlive,
        },
    }
}

/// What the monitor does after a look at its session.
#[derive(Debug, PartialEq, Eq)]
pub enum MonitorDecision {
    /// There is no session to watch: the monitor ends.
    Stop,
    /// A probe has to be made first.
    Need(Probe),
    /// The session is alive: look again later.
    Continue,
    /// The session has dropped.
    Dropped(RetryDecision),
}

pub enum MonitorDecisionView {
    Stop,
    Need(Probe),
    Continue,
    Dropped(RetryDecisionView),
}

impl View for MonitorDecision {
    type V = MonitorDecisionView;

    open spec fn view(&self) -> MonitorDecisionView {
        match self {
            MonitorDecision::Stop => MonitorDecisionView::Stop,
            MonitorDecision::Need(p) => MonitorDecisionView::Need(*p),
            MonitorDecision::Continue => MonitorDecisionView::Continue,
            MonitorDecision::Dropped(d) => MonitorDecisionView::Dropped(d@),
        }
    }
}

/// What a round of the monitor leaves of a record.
pub open spec fn after_watch(
    r: RuntimeView,
    anchor: ChildReportView,
    master: ChildReportView,
    check: Option<bool>,
    tcp: Option<bool>,
    now_ms: u64,
) -> RuntimeView {
    match r.session {
        None => RuntimeView { monitoring: false, ..r },
        Some(s) => match assessment(flags_of(s), anchor, master, check, tcp) {
            AssessmentView::Dropped { flags, kind, reason, notices } => after_drop(
                after_look(r, anchor, master, check, tcp, now_ms),
                reason,
                now_ms,
            ),
            _ => after_look(r, anchor, master, check, tcp, now_ms),
        },
    }
}

/// What the monitor does after a look at its session.
pub open spec fn watch_decision(
    r: RuntimeView,
    anchor: ChildReportView,
    master: ChildReportView,
    check: Option<bool>,
    tcp: Option<bool>,
    now_ms: u64,
    seed: u64,
) -> MonitorDecisionView {
    match r.session {
        None => MonitorDecisionView::Stop,
        Some(s) => match assessment(flags_of(s), anchor, master, check, tcp) {
            AssessmentView::Need(p) => MonitorDecisionView::Need(p),
            AssessmentView::Alive { .. } => MonitorDecisionView::Continue,
            AssessmentView::Dropped { flags, kind, reason, notices } => MonitorDecisionView::Dropped(
                drop_decision(
                    after_look(r, anchor, master, check, tcp, now_ms),
                    reason,
                    now_ms,
                    seed,
                ),
            ),
        },
    }
}

/// What a failed attempt to connect leaves of a record. A failure of an
/// attempt that the user asked for ends in error. A failure of an attempt
/// to reconnect counts as one more drop.
pub open spec fn after_failure(r: RuntimeView, detail: Seq<char>, now_ms: u64) -> RuntimeView {
    if r.reconnect_attempts == 0 {
        with_status(released(r), error_draft(detail, 0), now_ms)
    } else {
        after_drop(r, detail, now_ms)
    }
}

/// What the supervisor does about a failed attempt to connect.
#[derive(Debug, PartialEq, Eq)]
pub enum FailureDecision {
    /// The instance is in error and the user has to act.
    Final { status: DesktopSshInstanceStatus },
    /// The failure counts as a drop.
    Dropped(RetryDecision),
}

pub enum FailureDecisionView {
    Final { status: StatusView },
    Dropped(RetryDecisionView),
}

impl View for FailureDecision {
    type V = FailureDecisionView;

    open spec fn view(&self) -> FailureDecisionView {
        match self {
            FailureDecision::Final { status } => FailureDecisionView::Final { status: status@ },
            FailureDecision::Dropped(d) => FailureDecisionView::Dropped(d@),
        }
    }
}

/// What the supervisor does about a failed attempt to connect.
pub open spec fn failure_decision(r: RuntimeView, detail: Seq<char>, now_ms: u64, seed: u64)
    -> FailureDecisionView {
    if r.reconnect_attempts == 0 {
        FailureDecisionView::Final { status: after_failure(r, detail, now_ms).status->0 }
    } else {
        FailureDecisionView::Dropped(drop_decision(r, detail, now_ms, seed))
    }
}

/// The sentence of the status of an instance that is ready.
pub open spec fn ready_detail(warnings: Seq<Seq<char>>) -> Seq<char> {
    if warnings.len() == 0 {
        "SSH instance is ready"@
    } else {
        "SSH instance is ready with forward warnings: "@ + joined(warnings)
    }
}

/// The texts joined by a semicolon and a space.
pub open spec fn joined(parts: Seq<Seq<char>>) -> Seq<char>
    decreases parts.len(),
{
    if parts.len() == 0 {
        Seq::empty()
    } else if parts.len() == 1 {
        parts[0]
    } else {
        joined(parts.drop_last()) + "; "@ + parts.last()
    }
}

/// The address under which the tunnel of a session is reached.
pub open spec fn local_url_of(local_port: u16) -> Seq<char> {
    "http://127.0.0.1:"@ + decimal(local_port as nat)
}

/// The draft of the status of an instance whose session is ready.
pub open spec fn ready_draft(s: SessionView, warnings: Seq<Seq<char>>) -> StatusDraftView {
    StatusDraftView {
        phase: DesktopSshPhase::Ready,
        detail: Some(ready_detail(warnings)),
        local_url: Some(local_url_of(s.local_port)),
        local_port: Some(s.local_port),
        remote_port: Some(s.remote_port),
        started_by_us: s.started_by_us,
        retry_attempt: 0,
        requires_user_action: false,
    }
}

/// What a finished attempt to connect leaves of a record: the session is
/// there, the retries are forgotten, the monitor watches, and the status
/// is ready.
pub open spec fn after_ready(
    r: RuntimeView,
    s: SessionView,
    warnings: Seq<Seq<char>>,
    now_ms: u64,
) -> RuntimeView {
    with_status(
        RuntimeView {
            session: Some(s),
            connecting: false,
            monitoring: true,
            reconnect_attempts: 0,
            ..r
        },
        ready_draft(s, warnings),
        now_ms,
    )
}

/// The draft of the status of an instance at rest.
pub open spec fn idle_draft() -> StatusDraftView {
    StatusDraftView {
        phase: DesktopSshPhase::Idle,
        detail: None,
        local_url: None,
        local_port: None,
        remote_port: None,
        started_by_us: false,
        retry_attempt: 0,
        requires_user_action: false,
    }
}

/// What a disconnect leaves of a record: no session, no task, no retries,
/// and the status idle.
pub open spec fn after_disconnect(r: RuntimeView, now_ms: u64) -> RuntimeView {
    with_status(RuntimeView { reconnect_attempts: 0, ..released(r) }, idle_draft(), now_ms)
}

/// What a step of a connect attempt leaves of a record: its status,
/// unless the record has a session or the step claims to be ready.
pub open spec fn after_progress(r: RuntimeView, d: StatusDraftView, now_ms: u64) -> RuntimeView {
    if d.phase == DesktopSshPhase::Ready || r.session is Some {
        r
    } else {
        with_status(r, d, now_ms)
    }
}

/// How an instance is taken down, and the status that says so.
#[derive(Debug, PartialEq, Eq)]
pub struct Disconnect {
    pub teardown: Vec<TeardownAction>,
    pub status: DesktopSshInstanceStatus,
}

fn join_warnings(warnings: &Vec<String>) -> (r: Vec<char>)
    ensures
        r@ == joined(texts(warnings@)),
{
    let mut out: Vec<char> = Vec::new();
    let mut i: usize = 0;
    assert(texts(warnings@).take(0) =~= Seq::<Seq<char>>::empty());
    while i < warnings.len()
        invariant
            i <= warnings.len(),
            out@ == joined(texts(warnings@).take(i as int)),
        decreases warnings.len() - i,
    {
        let ghost upto = texts(warnings@).take(i + 1);
        assert(upto.drop_last() =~= texts(warnings@).take(i as int));
        assert(upto.last() == warnings@[i as int]@);
        if i > 0 {
            push_str(&mut out, "; ");
        }
        push_str(&mut out, warnings[i].as_str());
        proof {
            if i > 0 {
                assert(out@ =~= joined(upto.drop_last()) + "; "@ + upto.last());
            } else {
                assert(out@ =~= upto[0]);
            }
        }
        i += 1;
    }
    assert(texts(warnings@).take(warnings.len() as int) =~= texts(warnings@));
    out
}

/// Writes the address under which the tunnel of a session is reached.
pub fn local_url(local_port: u16) -> (r: String)
    ensures
        r@ == local_url_of(local_port),
{
    let mut out: Vec<char> = Vec::new();
    push_str(&mut out, "http://127.0.0.1:");
    push_decimal(&mut out, local_port as u64);
    assert(out@ =~= local_url_of(local_port));
    from_chars(&out)
}

fn draft_ready(session: &SessionRecord, warnings: &Vec<String>) -> (r: StatusDraft)
    ensures
        r@ == ready_draft(session@, texts(warnings@)),
{
    let detail = if warnings.len() == 0 {
        String::from_str("SSH instance is ready")
    } else {
        let mut out: Vec<char> = Vec::new();
        push_str(&mut out, "SSH instance is ready with forward warnings: ");
        push_chars(&mut out, &join_warnings(warnings));
        assert(out@ =~= ready_detail(texts(warnings@)));
        from_chars(&out)
    };
    StatusDraft {
        phase: DesktopSshPhase::Ready,
        detail: Some(detail),
        local_url: Some(local_url(session.local_port)),
        local_port: Some(session.local_port),
        remote_port: Some(session.remote_port),
        started_by_us: session.started_by_us,
        retry_attempt: 0,
        requires_user_action: false,
    }
}

fn apply_assessment(record: &mut InstanceRuntime, verdict: &Assessment, now_ms: u64)
    requires
        old(record)@.session is Some,
        !(verdict@ is Need),
        coherent(old(record)@),
    ensures
        final(record)@ == match verdict@ {
            AssessmentView::Alive { flags, notices } => with_notices(
                RuntimeView {
                    session: Some(with_flags(old(record)@.session->0, flags)),
                    ..old(record)@
                },
                notices,
                now_ms,
            ),
            AssessmentView::Dropped { flags, kind, reason, notices } => with_log(
                with_notices(
                    RuntimeView {
                        session: Some(with_flags(old(record)@.session->0, flags)),
                        ..old(record)@
                    },
                    notices,
                    now_ms,
                ),
                now_ms,
                LogLevel::Warn,
                reason,
            ),
            AssessmentView::Need(_) => old(record)@,
        },
        coherent(final(record)@),
        final(record)@.id == old(record)@.id,
        final(record)@.status == old(record)@.status,
{
    let ghost start = record@;
    let session = record.session.take();
    match session {
        Some(session) => {
            let mut session = session;
            match verdict {
                Assessment::Alive { flags, notices } => {
                    session.master_detached = flags.master_detached;
                    session.main_forward_detached = flags.main_forward_detached;
                    record.session = Some(session);
                    let ghost flagged = record@;
                    record_notices(record, notices, now_ms);
                    proof {
                        lemma_with_notices_keeps(flagged, notices@, now_ms);
                    }
                },
                Assessment::Dropped { flags, kind, reason, notices } => {
                    session.master_detached = flags.master_detached;
                    session.main_forward_detached = flags.main_forward_detached;
                    record.session = Some(session);
                    let ghost flagged = record@;
                    record_notices(record, notices, now_ms);
                    record_log(record, now_ms, LogLevel::Warn, reason.as_str());
                    proof {
                        lemma_with_notices_keeps(flagged, notices@, now_ms);
                    }
                },
                Assessment::Need(_) => {},
            }
        },
        None => {},
    }
}

fn session_flags(record: &InstanceRuntime) -> (r: SessionFlags)
    requires
        record@.session is Some,
    ensures
        r == flags_of(record@.session->0),
{
    match &record.session {
        Some(s) => SessionFlags {
            master_detached: s.master_detached,
            main_forward_detached: s.main_forward_detached,
        },
        None => SessionFlags { master_detached: false, main_forward_detached: false },
    }
}

fn record_look(
    record: &mut InstanceRuntime,
    anchor: &ChildReport,
    master: &ChildReport,
    check: Option<bool>,
    tcp: Option<bool>,
    now_ms: u64,
) -> (r: LivenessAnswer)
    requires
        coherent(old(record)@),
    ensures
        final(record)@ == after_look(old(record)@, anchor@, master@, check, tcp, now_ms),
        r == look_answer(old(record)@, anchor@, master@, check, tcp),
        coherent(final(record)@),
        final(record)@.id == old(record)@.id,
        final(record)@.status == old(record)@.status,
{
    if record.session.is_none() {
        return LivenessAnswer::NotAlive;
    }
    let verdict = assess_session(session_flags(record), anchor, master, check, tcp);
    match &verdict {
        Assessment::Need(p) => LivenessAnswer::Need(*p),
        Assessment::Alive { .. } => {
            apply_assessment(record, &verdict, now_ms);
            LivenessAnswer::Alive
        },
        Assessment::Dropped { .. } => {
            apply_assessment(record, &verdict, now_ms);
            LivenessAnswer::NotAlive
        },
    }
}

fn record_watch(
    record: &mut InstanceRuntime,
    anchor: &ChildReport,
    master: &ChildReport,
    check: Option<bool>,
    tcp: Option<bool>,
    now_ms: u64,
    seed: u64,
) -> (r: MonitorDecision)
    requires
        coherent(old(record)@),
    ensures
        final(record)@ == after_watch(old(record)@, anchor@, master@, check, tcp, now_ms),
        r@ == watch_decision(old(record)@, anchor@, master@, check, tcp, now_ms, seed),
        coherent(final(record)@),
        final(record)@.id == old(record)@.id,
        old(record)@.status matches Some(s) ==> final(record)@.status is Some && s.updated_at_ms
            <= final(record)@.status->0.updated_at_ms,
{
    if record.session.is_none() {
        record.monitoring = false;
        return MonitorDecision::Stop;
    }
    let verdict = assess_session(session_flags(record), anchor, master, check, tcp);
    match &verdict {
        Assessment::Need(p) => MonitorDecision::Need(*p),
        Assessment::Alive { .. } => {
            apply_assessment(record, &verdict, now_ms);
            MonitorDecision::Continue
        },
        Assessment::Dropped { flags, kind, reason, notices } => {
            apply_assessment(record, &verdict, now_ms);
            MonitorDecision::Dropped(record_drop(record, reason.as_str(), now_ms, seed))
        },
    }
}

impl Supervisor {
    /// Whether nothing but what is remembered of `id` differs between two
    /// states of the memory.
    pub open spec fn only_changes(&self, before: &Supervisor, id: Seq<char>) -> bool {
        forall|other: Seq<char>| other != id ==> self.runtime(other) == before.runtime(other)
    }

    /// Appends a message to the log of an instance.
    pub fn append_log_with_level(&mut self, id: &str, level: LogLevel, message: &str, now_ms: u64)
        requires
            old(self).wf(),
        ensures
            final(self).wf(),
            final(self).runtime(id@) == with_log(old(self).runtime(id@), now_ms, level, message@),
            final(self).only_changes(old(self), id@),
            time_goes_on(old(self).runtime(id@), final(self).runtime(id@)),
    {
        let j = self.slot(id);
        let ghost before = self@;
        let mut record = self.lift(j);
        record_log(&mut record, now_ms, level, message);
        self.put(j, record, Ghost(before));
    }

    /// Appends a message to the log of an instance, as information.
    pub fn append_log(&mut self, id: &str, message: &str, now_ms: u64)
        requires
            old(self).wf(),
        ensures
            final(self).wf(),
            final(self).runtime(id@) == with_log(
                old(self).runtime(id@),
                now_ms,
                LogLevel::Info,
                message@,
            ),
            final(self).only_changes(old(self), id@),
            time_goes_on(old(self).runtime(id@), final(self).runtime(id@)),
    {
        self.append_log_with_level(id, LogLevel::Info, message, now_ms);
    }

    /// Opens a connection attempt in the log of an instance.
    pub fn append_attempt_separator(
        &mut self,
        id: &str,
        connect_attempt: u32,
        retry_attempt: u32,
        now_ms: u64,
    )
        requires
            old(self).wf(),
        ensures
            final(self).wf(),
            final(self).runtime(id@) == with_log(
                old(self).runtime(id@),
                now_ms,
                LogLevel::Info,
                attempt_separator(connect_attempt, retry_attempt),
            ),
            final(self).only_changes(old(self), id@),
            time_goes_on(old(self).runtime(id@), final(self).runtime(id@)),
    {
        let line = attempt_separator_line(connect_attempt, retry_attempt);
        self.append_log_with_level(id, LogLevel::Info, line.as_str(), now_ms);
    }

    /// The newest lines of the log of an instance: the last `limit`, or
    /// all of them when `limit` is 0.
    pub fn logs_for_instance(&self, id: &str, limit: usize) -> (r: Vec<String>)
        requires
            self.wf(),
        ensures
            texts(r@) == log_tail(self.runtime(id@).log, limit),
    {
        match self.find(id) {
            Some(j) => tail_of(&self.entries[j].log, limit),
            None => {
                let r: Vec<String> = Vec::new();
                assert(texts(r@) =~= Seq::<Seq<char>>::empty());
                r
            },
        }
    }

    /// Forgets the log of an instance.
    pub fn clear_logs_for_instance(&mut self, id: &str)
        requires
            old(self).wf(),
        ensures
            final(self).wf(),
            final(self).runtime(id@) == (RuntimeView {
                log: Seq::empty(),
                ..old(self).runtime(id@)
            }),
            final(self).only_changes(old(self), id@),
            time_goes_on(old(self).runtime(id@), final(self).runtime(id@)),
    {
        let j = self.slot(id);
        let ghost before = self@;
        let mut record = self.lift(j);
        record.log = Vec::new();
        assert(texts(record.log@) =~= Seq::<Seq<char>>::empty());
        self.put(j, record, Ghost(before));
    }

    /// The status of an instance; idle, as of now, when none has been set.
    pub fn status_snapshot_for_instance(&self, id: &str, now_ms: u64) -> (r:
        DesktopSshInstanceStatus)
        requires
            self.wf(),
        ensures
            r@ == match self.runtime(id@).status {
                Some(s) => s,
                None => idle_status(id@, now_ms),
            },
    {
        match self.find(id) {
            Some(j) => match &self.entries[j].status {
                Some(s) => s.clone(),
                None => DesktopSshInstanceStatus::idle(id, now_ms),
            },
            None => DesktopSshInstanceStatus::idle(id, now_ms),
        }
    }

    /// Whether an instance has a session.
    pub fn has_session(&self, id: &str) -> (r: bool)
        requires
            self.wf(),
        ensures
            r == self.runtime(id@).session is Some,
    {
        match self.find(id) {
            Some(j) => self.entries[j].session.is_some(),
            None => false,
        }
    }

    /// A copy of what is known of the session of an instance.
    pub fn session_snapshot(&self, id: &str) -> (r: Option<SessionRecord>)
        requires
            self.wf(),
        ensures
            opt_view(r) == self.runtime(id@).session,
    {
        match self.find(id) {
            Some(j) => match &self.entries[j].session {
                Some(s) => Some(s.clone()),
                None => None,
            },
            None => None,
        }
    }

    /// Whether a connect task runs for an instance.
    pub fn is_connecting(&self, id: &str) -> (r: bool)
        requires
            self.wf(),
        ensures
            r == self.runtime(id@).connecting,
    {
        match self.find(id) {
            Some(j) => self.entries[j].connecting,
            None => false,
        }
    }

    /// Whether a monitor task runs for an instance.
    pub fn is_monitoring(&self, id: &str) -> (r: bool)
        requires
            self.wf(),
        ensures
            r == self.runtime(id@).monitoring,
    {
        match self.find(id) {
            Some(j) => self.entries[j].monitoring,
            None => false,
        }
    }

    /// Forgets the retries of an instance.
    pub fn clear_retry_attempt(&mut self, id: &str)
        requires
            old(self).wf(),
        ensures
            final(self).wf(),
            final(self).runtime(id@) == (RuntimeView {
                reconnect_attempts: 0,
                ..old(self).runtime(id@)
            }),
            final(self).only_changes(old(self), id@),
            time_goes_on(old(self).runtime(id@), final(self).runtime(id@)),
    {
        let j = self.slot(id);
        let ghost before = self@;
        let mut record = self.lift(j);
        record.reconnect_attempts = 0;
        self.put(j, record, Ghost(before));
    }

    /// Counts one more retry of an instance and tells the count.
    pub fn next_retry_attempt(&mut self, id: &str) -> (r: u32)
        requires
            old(self).wf(),
        ensures
            final(self).wf(),
            r == counted(old(self).runtime(id@).reconnect_attempts),
            final(self).runtime(id@) == (RuntimeView {
                reconnect_attempts: r,
                ..old(self).runtime(id@)
            }),
            final(self).only_changes(old(self), id@),
            time_goes_on(old(self).runtime(id@), final(self).runtime(id@)),
    {
        let j = self.slot(id);
        let ghost before = self@;
        let mut record = self.lift(j);
        let next = count(record.reconnect_attempts);
        record.reconnect_attempts = next;
        self.put(j, record, Ghost(before));
        next
    }

    /// The retries of an instance so far.
    pub fn current_retry_attempt(&self, id: &str) -> (r: u32)
        requires
            self.wf(),
        ensures
            r == self.runtime(id@).reconnect_attempts,
    {
        match self.find(id) {
            Some(j) => self.entries[j].reconnect_attempts,
            None => 0,
        }
    }

    /// Counts one more connection attempt of an instance and tells the
    /// count.
    pub fn next_connect_attempt(&mut self, id: &str) -> (r: u32)
        requires
            old(self).wf(),
        ensures
            final(self).wf(),
            r == counted(old(self).runtime(id@).connect_attempts),
            final(self).runtime(id@) == (RuntimeView {
                connect_attempts: r,
                ..old(self).runtime(id@)
            }),
            final(self).only_changes(old(self), id@),
            time_goes_on(old(self).runtime(id@), final(self).runtime(id@)),
    {
        let j = self.slot(id);
        let ghost before = self@;
        let mut record = self.lift(j);
        let next = count(record.connect_attempts);
        record.connect_attempts = next;
        self.put(j, record, Ghost(before));
        next
    }

    /// Records the status of a step of a connect attempt. A step cannot
    /// make an instance ready, and changes nothing while a session exists.
    pub fn set_status(&mut self, id: &str, draft: StatusDraft, now_ms: u64) -> (r: Option<
        DesktopSshInstanceStatus,
    >)
        requires
            old(self).wf(),
        ensures
            final(self).wf(),
            final(self).runtime(id@) == after_progress(old(self).runtime(id@), draft@, now_ms),
            final(self).only_changes(old(self), id@),
            time_goes_on(old(self).runtime(id@), final(self).runtime(id@)),
            opt_view(r) == if draft@.phase == DesktopSshPhase::Ready || old(self).runtime(
                id@,
            ).session is Some {
                None
            } else {
                Some(next_status(old(self).runtime(id@), draft@, now_ms))
            },
    {
        let is_ready = match draft.phase {
            DesktopSshPhase::Ready => true,
            _ => false,
        };
        let j = self.slot(id);
        let ghost before = self@;
        let mut record = self.lift(j);
        let status = if is_ready || record.session.is_some() {
            None
        } else {
            Some(record_status(&mut record, draft, now_ms))
        };
        self.put(j, record, Ghost(before));
        status
    }

    /// Answers a request to connect an instance.
    ///
    /// `found` says whether the instance is among the saved ones, `manual`
    /// whether the user asked, and `alive` what the last look at the
    /// session found. A running connect task is left alone. A live session
    /// is announced again, with its address and ports. Otherwise what is
    /// left of an earlier session is taken down and a new attempt starts;
    /// one that the user asked for forgets the retries.
    pub fn start_connect(&mut self, id: &str, found: bool, manual: bool, alive: bool, now_ms: u64)
        -> (r: StartDecision)
        requires
            old(self).wf(),
        ensures
            final(self).wf(),
            final(self).runtime(id@) == after_start(
                old(self).runtime(id@),
                found,
                manual,
                alive,
                now_ms,
            ),
            final(self).only_changes(old(self), id@),
            time_goes_on(old(self).runtime(id@), final(self).runtime(id@)),
            r@ == start_decision(old(self).runtime(id@), found, manual, alive, now_ms),
    {
        let j = self.slot(id);
        let ghost before = self@;
        let mut record = self.lift(j);
        let decision = if !found {
            StartDecision::NotFound
        } else if record.connecting {
            record_log(&mut record, now_ms, LogLevel::Info, "Connection already in progress");
            StartDecision::AlreadyConnecting
        } else if alive && record.session.is_some() && record.status.is_some() {
            let draft = match &record.status {
                Some(s) => StatusDraft {
                    phase: DesktopSshPhase::Ready,
                    detail: Some(String::from_str("SSH session already active")),
                    local_url: copy_opt_string(&s.local_url),
                    local_port: s.local_port,
                    remote_port: s.remote_port,
                    started_by_us: s.started_by_us,
                    retry_attempt: s.retry_attempt,
                    requires_user_action: false,
                },
                None => StatusDraft::plain(DesktopSshPhase::Ready, String::new()),
            };
            let status = record_status(&mut record, draft, now_ms);
            record_log(
                &mut record,
                now_ms,
                LogLevel::Info,
                "Connection already active; reusing existing SSH session",
            );
            StartDecision::Reused { status }
        } else {
            let retry: u32 = if manual {
                0
            } else {
                record.reconnect_attempts
            };
            let attempt = count(record.connect_attempts);
            let separator = attempt_separator_line(attempt, retry);
            record_log(&mut record, now_ms, LogLevel::Info, separator.as_str());
            record_log(&mut record, now_ms, LogLevel::Info, "Starting SSH connection");
            let teardown = plan_teardown(&record.session);
            record.session = None;
            record.connecting = true;
            record.monitoring = false;
            record.reconnect_attempts = retry;
            record.connect_attempts = attempt;
            let status = record_status(
                &mut record,
                StatusDraft::plain(
                    DesktopSshPhase::ConfigResolved,
                    String::from_str("Resolving SSH command"),
                ),
                now_ms,
            );
            StartDecision::Started { teardown, status, connect_attempt: attempt, retry_attempt: retry }
        };
        self.put(j, record, Ghost(before));
        decision
    }

    /// Looks at the session of an instance and says whether it is alive.
    /// The reports on the two helpers come from the caller, and so do the
    /// answers of the probes, once they are asked for.
    pub fn session_is_alive(
        &mut self,
        id: &str,
        anchor: &ChildReport,
        master: &ChildReport,
        check: Option<bool>,
        tcp: Option<bool>,
        now_ms: u64,
    ) -> (r: LivenessAnswer)
        requires
            old(self).wf(),
        ensures
            final(self).wf(),
            final(self).runtime(id@) == after_look(
                old(self).runtime(id@),
                anchor@,
                master@,
                check,
                tcp,
                now_ms,
            ),
            final(self).only_changes(old(self), id@),
            time_goes_on(old(self).runtime(id@), final(self).runtime(id@)),
            r == look_answer(old(self).runtime(id@), anchor@, master@, check, tcp),
    {
        let j = self.slot(id);
        let ghost before = self@;
        let mut record = self.lift(j);
        let answer = record_look(&mut record, anchor, master, check, tcp, now_ms);
        self.put(j, record, Ghost(before));
        answer
    }

    /// Makes a round of the monitor of an instance: looks at the session
    /// and, if it has dropped, takes it down, counts the drop and decides
    /// whether to reconnect.
    pub fn monitor_tick(
        &mut self,
        id: &str,
        anchor: &ChildReport,
        master: &ChildReport,
        check: Option<bool>,
        tcp: Option<bool>,
        now_ms: u64,
        seed: u64,
    ) -> (r: MonitorDecision)
        requires
            old(self).wf(),
        ensures
            final(self).wf(),
            final(self).runtime(id@) == after_watch(
                old(self).runtime(id@),
                anchor@,
                master@,
                check,
                tcp,
                now_ms,
            ),
            final(self).only_changes(old(self), id@),
            time_goes_on(old(self).runtime(id@), final(self).runtime(id@)),
            r@ == watch_decision(old(self).runtime(id@), anchor@, master@, check, tcp, now_ms, seed),
    {
        let j = self.slot(id);
        let ghost before = self@;
        let mut record = self.lift(j);
        let decision = record_watch(&mut record, anchor, master, check, tcp, now_ms, seed);
        self.put(j, record, Ghost(before));
        decision
    }

    /// Records that an attempt to connect an instance has failed, and
    /// decides what follows.
    pub fn fail_connect(&mut self, id: &str, detail: &str, now_ms: u64, seed: u64) -> (r:
        FailureDecision)
        requires
            old(self).wf(),
        ensures
            final(self).wf(),
            final(self).runtime(id@) == after_failure(old(self).runtime(id@), detail@, now_ms),
            final(self).only_changes(old(self), id@),
            time_goes_on(old(self).runtime(id@), final(self).runtime(id@)),
            r@ == failure_decision(old(self).runtime(id@), detail@, now_ms, seed),
    {
        let j = self.slot(id);
        let ghost before = self@;
        let mut record = self.lift(j);
        let decision = if record.reconnect_attempts == 0 {
            record.session = None;
            record.connecting = false;
            record.monitoring = false;
            let status = record_status(
                &mut record,
                StatusDraft::error(String::from_str(detail), 0),
                now_ms,
            );
            FailureDecision::Final { status }
        } else {
            FailureDecision::Dropped(record_drop(&mut record, detail, now_ms, seed))
        };
        self.put(j, record, Ghost(before));
        decision
    }

    /// Records that an attempt to connect an instance has led to a
    /// session: the instance is ready, and a monitor is owed.
    pub fn complete_connect(
        &mut self,
        id: &str,
        session: SessionRecord,
        warnings: &Vec<String>,
        now_ms: u64,
    ) -> (r: DesktopSshInstanceStatus)
        requires
            old(self).wf(),
        ensures
            final(self).wf(),
            final(self).runtime(id@) == after_ready(
                old(self).runtime(id@),
                session@,
                texts(warnings@),
                now_ms,
            ),
            final(self).only_changes(old(self), id@),
            time_goes_on(old(self).runtime(id@), final(self).runtime(id@)),
            r@ == final(self).runtime(id@).status->0,
    {
        let j = self.slot(id);
        let ghost before = self@;
        let mut record = self.lift(j);
        let draft = draft_ready(&session, warnings);
        record.session = Some(session);
        record.connecting = false;
        record.monitoring = true;
        record.reconnect_attempts = 0;
        let status = record_status(&mut record, draft, now_ms);
        self.put(j, record, Ghost(before));
        status
    }

    /// Disconnects an instance on the user's request: its tasks and its
    /// session go, its retries are forgotten, and it is idle.
    pub fn disconnect_internal(&mut self, id: &str, now_ms: u64) -> (r: Disconnect)
        requires
            old(self).wf(),
        ensures
            final(self).wf(),
            final(self).runtime(id@) == after_disconnect(old(self).runtime(id@), now_ms),
            final(self).only_changes(old(self), id@),
            time_goes_on(old(self).runtime(id@), final(self).runtime(id@)),
            plan_view(r.teardown@) == teardown_plan(old(self).runtime(id@).session),
            r.status@ == final(self).runtime(id@).status->0,
            final(self).runtime(id@).session is None,
            !final(self).runtime(id@).connecting,
            !final(self).runtime(id@).monitoring,
    {
        let j = self.slot(id);
        let ghost before = self@;
        let mut record = self.lift(j);
        let teardown = plan_teardown(&record.session);
        record.session = None;
        record.connecting = false;
        record.monitoring = false;
        record.reconnect_attempts = 0;
        let draft = StatusDraft {
            phase: DesktopSshPhase::Idle,
            detail: None,
            local_url: None,
            local_port: None,
            remote_port: None,
            started_by_us: false,
            retry_attempt: 0,
            requires_user_action: false,
        };
        let status = record_status(&mut record, draft, now_ms);
        self.put(j, record, Ghost(before));
        Disconnect { teardown, status }
    }
}

} // verus!
