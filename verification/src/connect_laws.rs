//! What holds of every step of a connect attempt.

use vstd::prelude::*;
use crate::connect::ActionView;
use crate::connect::ConnectStage;
use crate::connect::EventView;
use crate::connect::MachineView;
use crate::connect::OutputView;
use crate::connect::connect_step;
use crate::connect::current_forward;
use crate::connect::forward_warning;
use crate::connect::has_current_forward;
use crate::connect::next_forward;
use crate::connect::probe_port_of;
use crate::connect::tunnel_is_ready;
use crate::connect::unreachable_detail;
use crate::connect::warned;
use crate::executor::extra_forward_argv;
use crate::executor::extra_forward_verdict;
use crate::executor::forward_error_text;
use crate::executor::resolved_config;
use crate::status::DesktopSshPhase;

verus! {

/// A phase that a step of an attempt may announce: one of those between
/// the start of the attempt and its end.
pub open spec fn is_progress_phase(phase: DesktopSshPhase) -> bool {
    phase == DesktopSshPhase::AuthCheck || phase == DesktopSshPhase::MasterConnecting || phase
        == DesktopSshPhase::RemoteProbe || phase == DesktopSshPhase::Installing || phase
        == DesktopSshPhase::Updating || phase == DesktopSshPhase::ServerDetecting || phase
        == DesktopSshPhase::ServerStarting || phase == DesktopSshPhase::Forwarding
}

/// The place of a phase in the order in which an attempt goes through
/// the phases.
pub open spec fn phase_rank(phase: DesktopSshPhase) -> nat {
    match phase {
        DesktopSshPhase::Idle => 0,
        DesktopSshPhase::ConfigResolved => 0,
        DesktopSshPhase::AuthCheck => 1,
        DesktopSshPhase::MasterConnecting => 2,
        DesktopSshPhase::RemoteProbe => 3,
        DesktopSshPhase::Installing => 4,
        DesktopSshPhase::Updating => 4,
        DesktopSshPhase::ServerDetecting => 5,
        DesktopSshPhase::ServerStarting => 6,
        DesktopSshPhase::Forwarding => 7,
        DesktopSshPhase::Ready => 8,
        DesktopSshPhase::Degraded => 8,
        DesktopSshPhase::Error => 8,
    }
}

/// How far an attempt has come when it is at a stage: the rank of the
/// phase that the stage belongs to.
pub open spec fn stage_rank(stage: ConnectStage) -> nat {
    match stage {
        ConnectStage::Resolving => 0,
        ConnectStage::Preparing => 1,
        ConnectStage::SpawningMaster => 2,
        ConnectStage::MasterClock => 2,
        ConnectStage::MasterCheck => 2,
        ConnectStage::MasterPoll => 2,
        ConnectStage::MasterSleep => 2,
        ConnectStage::ProbingOs => 3,
        ConnectStage::ReadingVersion => 3,
        ConnectStage::CheckingBun => 4,
        ConnectStage::CheckingNpm => 4,
        ConnectStage::Installing => 4,
        ConnectStage::ExternalProbe => 5,
        ConnectStage::DetectingServer => 5,
        ConnectStage::StartingServer => 6,
        ConnectStage::ConfirmingServer => 6,
        ConnectStage::PickingPort => 7,
        ConnectStage::CheckingPort => 7,
        ConnectStage::RepickingPort => 7,
        ConnectStage::SpawningForward => 7,
        ConnectStage::SettlingForward => 7,
        ConnectStage::PollingForward => 7,
        ConnectStage::ExtraForward => 7,
        ConnectStage::ExtraSettle => 7,
        ConnectStage::ExtraProbe => 7,
        ConnectStage::TunnelClock => 7,
        ConnectStage::TunnelProbe => 7,
        ConnectStage::TunnelSleep => 7,
        ConnectStage::Saving => 7,
        ConnectStage::Done => 8,
        ConnectStage::Failed => 8,
    }
}

/// Whether a step keeps to the order of the phases: it does not go back to
/// an earlier stage, what it announces is no earlier than the stage it
/// starts from and no later than the stage it ends at, and where it
/// announces two phases, the earlier comes first.
pub open spec fn keeps_order(m: MachineView, step: (MachineView, OutputView)) -> bool {
    &&& stage_rank(m.stage) <= stage_rank(step.0.stage)
    &&& forall|i: int|
        0 <= i < step.1.statuses.len() ==> stage_rank(m.stage) <= phase_rank(
            (#[trigger] step.1.statuses[i]).phase,
        ) <= stage_rank(step.0.stage)
    &&& forall|i: int, j: int|
        0 <= i < j < step.1.statuses.len() ==> phase_rank((#[trigger] step.1.statuses[i]).phase)
            < phase_rank((#[trigger] step.1.statuses[j]).phase)
}

/// Whether a step that fails asks for exactly what the attempt has started
/// to be killed, announces nothing, and ends the attempt.
pub open spec fn fails_cleanly(m: MachineView, step: (MachineView, OutputView)) -> bool {
    step.1.action is Fail ==> {
        &&& step.0.stage == ConnectStage::Failed
        &&& step.1.action->Fail_kill_master == m.master_spawned
        &&& step.1.action->Fail_kill_forward == m.forward_spawned
        &&& step.1.statuses.len() == 0
    }
}

/// Whether a step starts the control master only once the session has been
/// prepared, and prepares the session only once the configuration of the
/// destination has resolved.
pub open spec fn prepares_before_the_master(
    m: MachineView,
    e: EventView,
    step: (MachineView, OutputView),
) -> bool {
    &&& step.1.action is SpawnMaster ==> m.stage == ConnectStage::Preparing && e is Prepared
        && step.1.statuses.len() == 1 && step.1.statuses[0].phase
        == DesktopSshPhase::MasterConnecting
    &&& step.1.action is Prepare ==> m.stage == ConnectStage::Resolving && e is Command
        && resolved_config(e->Command_0) is Ok
}

/// Whether a step hands the session over only after the settings document
/// has been brought up to date, and that only after the service has
/// answered through the tunnel.
pub open spec fn hands_over_a_ready_tunnel(
    m: MachineView,
    e: EventView,
    step: (MachineView, OutputView),
) -> bool {
    &&& step.1.action is Finish ==> m.stage == ConnectStage::Saving && e is Saved && step.0.stage
        == ConnectStage::Done
    &&& step.1.action is Save ==> m.stage == ConnectStage::TunnelProbe && e is Health
        && tunnel_is_ready(e->Health_0)
}

/// Whether a step announces progress only: not that the instance is ready,
/// idle, degraded or in error.
pub open spec fn announces_progress(step: (MachineView, OutputView)) -> bool {
    forall|i: int|
        0 <= i < step.1.statuses.len() ==> is_progress_phase((#[trigger] step.1.statuses[i]).phase)
}

/// Whether a step is as the rules of an attempt want it.
pub open spec fn is_lawful(m: MachineView, e: EventView, step: (MachineView, OutputView)) -> bool {
    &&& keeps_order(m, step)
    &&& fails_cleanly(m, step)
    &&& prepares_before_the_master(m, e, step)
    &&& hands_over_a_ready_tunnel(m, e, step)
    &&& announces_progress(step)
}

/// Asking for the supplementary forwards never fails the attempt: either
/// one of them is asked for, or the wait for the tunnel begins. Warnings
/// are only ever added, and nothing is announced.
pub proof fn lemma_forwards_never_fail(m: MachineView, from: int)
    ensures
        next_forward(m, from).1.action is Run || next_forward(m, from).1.action == (
        ActionView::Clock { restart: true }),
        next_forward(m, from).0.stage == ConnectStage::ExtraForward || next_forward(m, from).0.stage
            == ConnectStage::TunnelClock,
        next_forward(m, from).1.statuses.len() == 0,
        next_forward(m, from).1.notice is None,
        m.warnings.is_prefix_of(next_forward(m, from).0.warnings),
        next_forward(m, from).0.master_spawned == m.master_spawned,
        next_forward(m, from).0.forward_spawned == m.forward_spawned,
        next_forward(m, from).0.instance == m.instance,
    decreases m.instance.port_forwards.len() - from,
{
    if 0 <= from < m.instance.port_forwards.len() {
        let f = m.instance.port_forwards[from];
        if !f.enabled {
            lemma_forwards_never_fail(m, from + 1);
        } else {
            match extra_forward_argv(m.parsed, m.control_path, f) {
                Err(e) => {
                    let with_warning = MachineView {
                        warnings: m.warnings.push(forward_warning(f.id, forward_error_text(e))),
                        ..m
                    };
                    lemma_forwards_never_fail(with_warning, from + 1);
                    assert(m.warnings.is_prefix_of(with_warning.warnings));
                },
                Ok(_) => {},
            }
        }
    }
}

/// While the attempt is busy with the supplementary forwards, a step asks
/// for the next of them, lets one settle, probes one, begins the wait for
/// the tunnel, or ends the attempt over an event that the stage does not
/// wait for. No answer to a request for a forward ends the attempt.
pub proof fn lemma_forwards_only_warn(m: MachineView, e: EventView)
    requires
        has_current_forward(m),
        m.stage == ConnectStage::ExtraForward || m.stage == ConnectStage::ExtraSettle || m.stage
            == ConnectStage::ExtraProbe,
    ensures
        connect_step(m, e).1.action is Run || connect_step(m, e).1.action is Clock
            || connect_step(m, e).1.action is Sleep || connect_step(m, e).1.action is ProbeTcp
            || connect_step(m, e) == crate::connect::unexpected(m),
        m.stage == ConnectStage::ExtraForward && (e is Command || e is NotRun) ==> !(connect_step(
            m,
            e,
        ).1.action is Fail),
        connect_step(m, e).1.statuses.len() == 0,
        stage_rank(connect_step(m, e).0.stage) >= 7,
        connect_step(m, e).0.stage != ConnectStage::Done,
{
    let next = m.forward_index + 1;
    lemma_forwards_never_fail(m, next);
    match e {
        EventView::Command(o) => {
            match extra_forward_verdict(current_forward(m).id, o) {
                Some(complaint) => {
                    lemma_forwards_never_fail(warned(m, complaint), next);
                },
                None => {},
            }
        },
        EventView::NotRun(_) => {
            lemma_forwards_never_fail(
                warned(m, "Failed to configure extra SSH forward "@ + current_forward(m).id),
                next,
            );
        },
        EventView::Reachable(false) => {
            match probe_port_of(current_forward(m)) {
                Some(port) => {
                    lemma_forwards_never_fail(warned(m, unreachable_detail(port)), next);
                },
                None => {},
            }
        },
        _ => {},
    }
}

proof fn lemma_lawful_until_the_master_answers(m: MachineView, e: EventView)
    ensures
        m.stage == ConnectStage::Resolving ==> is_lawful(m, e, crate::connect::on_resolving(m, e)),
        m.stage == ConnectStage::Preparing ==> is_lawful(m, e, crate::connect::on_preparing(m, e)),
        m.stage == ConnectStage::SpawningMaster ==> is_lawful(
            m,
            e,
            crate::connect::on_spawning_master(m, e),
        ),
        m.stage == ConnectStage::MasterClock ==> is_lawful(
            m,
            e,
            crate::connect::on_master_clock(m, e),
        ),
        m.stage == ConnectStage::MasterCheck ==> is_lawful(
            m,
            e,
            crate::connect::on_master_check(m, e),
        ),
        m.stage == ConnectStage::MasterPoll ==> is_lawful(
            m,
            e,
            crate::connect::on_master_poll(m, e),
        ),
        m.stage == ConnectStage::MasterSleep ==> is_lawful(
            m,
            e,
            crate::connect::on_master_sleep(m, e),
        ),
{
}

proof fn lemma_lawful_while_the_remote_is_probed(m: MachineView, e: EventView)
    ensures
        m.stage == ConnectStage::ProbingOs ==> is_lawful(m, e, crate::connect::on_probing_os(m, e)),
        m.stage == ConnectStage::ExternalProbe ==> is_lawful(
            m,
            e,
            crate::connect::on_external_probe(m, e),
        ),
        m.stage == ConnectStage::ReadingVersion ==> is_lawful(
            m,
            e,
            crate::connect::on_reading_version(m, e),
        ),
{
}

proof fn lemma_lawful_while_the_service_is_installed(m: MachineView, e: EventView)
    ensures
        m.stage == ConnectStage::CheckingBun ==> is_lawful(
            m,
            e,
            crate::connect::on_checking_bun(m, e),
        ),
        m.stage == ConnectStage::CheckingNpm ==> is_lawful(
            m,
            e,
            crate::connect::on_checking_npm(m, e),
        ),
        m.stage == ConnectStage::Installing ==> is_lawful(
            m,
            e,
            crate::connect::on_installing(m, e),
        ),
{
}

proof fn lemma_lawful_while_the_service_is_started(m: MachineView, e: EventView)
    ensures
        m.stage == ConnectStage::DetectingServer ==> is_lawful(
            m,
            e,
            crate::connect::on_detecting(m, e),
        ),
        m.stage == ConnectStage::StartingServer ==> is_lawful(
            m,
            e,
            crate::connect::on_starting(m, e),
        ),
        m.stage == ConnectStage::ConfirmingServer ==> is_lawful(
            m,
            e,
            crate::connect::on_confirming(m, e),
        ),
{
}

proof fn lemma_lawful_while_the_tunnel_is_built(m: MachineView, e: EventView)
    ensures
        m.stage == ConnectStage::PickingPort ==> is_lawful(
            m,
            e,
            crate::connect::on_picking_port(m, e),
        ),
        m.stage == ConnectStage::CheckingPort ==> is_lawful(
            m,
            e,
            crate::connect::on_checking_port(m, e),
        ),
        m.stage == ConnectStage::RepickingPort ==> is_lawful(
            m,
            e,
            crate::connect::on_repicking_port(m, e),
        ),
        m.stage == ConnectStage::SpawningForward ==> is_lawful(
            m,
            e,
            crate::connect::on_spawning_forward(m, e),
        ),
        m.stage == ConnectStage::SettlingForward ==> is_lawful(
            m,
            e,
            crate::connect::on_settling_forward(m, e),
        ),
        m.stage == ConnectStage::PollingForward ==> is_lawful(
            m,
            e,
            crate::connect::on_polling_forward(m, e),
        ),
        m.stage == ConnectStage::TunnelClock ==> is_lawful(
            m,
            e,
            crate::connect::on_tunnel_clock(m, e),
        ),
        m.stage == ConnectStage::TunnelProbe ==> is_lawful(
            m,
            e,
            crate::connect::on_tunnel_probe(m, e),
        ),
        m.stage == ConnectStage::TunnelSleep ==> is_lawful(
            m,
            e,
            crate::connect::on_tunnel_sleep(m, e),
        ),
        m.stage == ConnectStage::Saving ==> is_lawful(m, e, crate::connect::on_saving(m, e)),
{
    lemma_forwards_never_fail(m, 0);
    lemma_forwards_never_fail(MachineView { main_forward_detached: true, ..m }, 0);
}

proof fn lemma_lawful_among_the_forwards(m: MachineView, e: EventView)
    ensures
        m.stage == ConnectStage::ExtraForward ==> is_lawful(
            m,
            e,
            crate::connect::on_extra_forward(m, e),
        ),
        m.stage == ConnectStage::ExtraSettle ==> is_lawful(
            m,
            e,
            crate::connect::on_extra_settle(m, e),
        ),
        m.stage == ConnectStage::ExtraProbe ==> is_lawful(
            m,
            e,
            crate::connect::on_extra_probe(m, e),
        ),
{
    if has_current_forward(m) && (m.stage == ConnectStage::ExtraForward || m.stage
        == ConnectStage::ExtraSettle || m.stage == ConnectStage::ExtraProbe) {
        lemma_forwards_only_warn(m, e);
    }
}

/// Every step of an attempt is lawful.
pub proof fn lemma_every_step_is_lawful(m: MachineView, e: EventView)
    ensures
        is_lawful(m, e, connect_step(m, e)),
{
    lemma_lawful_until_the_master_answers(m, e);
    lemma_lawful_while_the_remote_is_probed(m, e);
    lemma_lawful_while_the_service_is_installed(m, e);
    lemma_lawful_while_the_service_is_started(m, e);
    lemma_lawful_while_the_tunnel_is_built(m, e);
    lemma_lawful_among_the_forwards(m, e);
}

/// An attempt goes through the phases in their order: every step keeps to
/// it.
pub proof fn lemma_phases_follow_the_order(m: MachineView, e: EventView)
    ensures
        keeps_order(m, connect_step(m, e)),
{
    lemma_every_step_is_lawful(m, e);
}

/// An attempt that fails asks for exactly what it has started to be
/// killed, announces nothing, and is over.
pub proof fn lemma_failure_takes_down_what_was_started(m: MachineView, e: EventView)
    ensures
        fails_cleanly(m, connect_step(m, e)),
{
    lemma_every_step_is_lawful(m, e);
}

/// The control master is started only once the configuration of the
/// destination has resolved and the session has been prepared: the stale
/// control socket is gone and the prompt helper is written.
pub proof fn lemma_master_starts_after_preparation(m: MachineView, e: EventView)
    ensures
        prepares_before_the_master(m, e, connect_step(m, e)),
{
    lemma_every_step_is_lawful(m, e);
}

/// The session is handed over only after the tunnel has answered and the
/// settings document has been brought up to date: the service answers
/// through the tunnel at the moment the session comes to be.
pub proof fn lemma_session_needs_a_ready_tunnel(m: MachineView, e: EventView)
    ensures
        hands_over_a_ready_tunnel(m, e, connect_step(m, e)),
{
    lemma_every_step_is_lawful(m, e);
}

/// No step of an attempt announces that the instance is ready, idle,
/// degraded or in error: a step announces progress only.
pub proof fn lemma_steps_announce_progress(m: MachineView, e: EventView)
    ensures
        announces_progress(connect_step(m, e)),
{
    lemma_every_step_is_lawful(m, e);
}

/// Once an attempt is over, nothing follows: no status, no action.
pub proof fn lemma_nothing_follows_the_end(m: MachineView, e: EventView)
    requires
        m.stage == ConnectStage::Done || m.stage == ConnectStage::Failed,
    ensures
        connect_step(m, e).0 == m,
        connect_step(m, e).1.action == ActionView::Nothing,
        connect_step(m, e).1.statuses.len() == 0,
{
}

} // verus!
