//! The order in which a session is taken down.

use vstd::prelude::*;
use crate::executor::operation_options;
use crate::executor::remote_options;
use crate::executor::remote_shell_command;
use crate::executor::run_remote_command;
use crate::executor::ssh_argv;
use crate::executor::stop_control_master_best_effort;
use crate::model::DEFAULT_CONNECTION_TIMEOUT_SEC;
use crate::registry::SessionRecord;
use crate::registry::SessionView;
use crate::remote::shutdown_script_text;
use crate::remote::stop_remote_server_best_effort;
use crate::text::texts;

verus! {

/// One step of taking a session down. Every step is made on a best
/// effort: a step that fails does not stop the ones after it.
#[derive(Debug, PartialEq, Eq)]
pub enum TeardownAction {
    /// Abort the connect task of the instance, if one runs.
    CancelConnectTask,
    /// Abort the monitor task of the instance, if one runs.
    CancelMonitorTask,
    /// Run the SSH client with these arguments and wait for it.
    RunSsh(Vec<String>),
    /// Kill the helpers of the supplementary forwards.
    KillExtraForwards,
    /// Kill the helper of the anchor forward.
    KillMainForward,
    /// Kill the control master.
    KillMaster,
    /// Remove this file.
    RemoveFile(String),
}

pub enum TeardownActionView {
    CancelConnectTask,
    CancelMonitorTask,
    RunSsh(Seq<Seq<char>>),
    KillExtraForwards,
    KillMainForward,
    KillMaster,
    RemoveFile(Seq<char>),
}

impl View for TeardownAction {
    type V = TeardownActionView;

    open spec fn view(&self) -> TeardownActionView {
        match self {
            TeardownAction::CancelConnectTask => TeardownActionView::CancelConnectTask,
            TeardownAction::CancelMonitorTask => TeardownActionView::CancelMonitorTask,
            TeardownAction::RunSsh(argv) => TeardownActionView::RunSsh(texts(argv@)),
            TeardownAction::KillExtraForwards => TeardownActionView::KillExtraForwards,
            TeardownAction::KillMainForward => TeardownActionView::KillMainForward,
            TeardownAction::KillMaster => TeardownActionView::KillMaster,
            TeardownAction::RemoveFile(p) => TeardownActionView::RemoveFile(p@),
        }
    }
}

/// Whether the remote service is stopped with the session: the supervisor
/// started it, owns it, and was not asked to keep it running.
pub open spec fn stops_remote_service(s: SessionView) -> bool {
    s.started_by_us && s.managed && !s.keep_running
}

/// The arguments that ask the remote service of a session to shut down.
pub open spec fn stop_service_argv(s: SessionView) -> Seq<Seq<char>> {
    ssh_argv(
        s.parsed,
        remote_options(s.control_path, DEFAULT_CONNECTION_TIMEOUT_SEC),
        Some(remote_shell_command(shutdown_script_text(s.remote_port))),
    )
}

/// The arguments that ask the control master of a session to exit.
pub open spec fn stop_master_argv(s: SessionView) -> Seq<Seq<char>> {
    ssh_argv(s.parsed, operation_options(s.control_path, "exit"@), None)
}

/// How a session is taken down: the remote service is stopped if it is
/// the supervisor's to stop, the control master is asked to exit, the
/// supplementary helpers, the anchor helper and the control master are
/// killed, and the control socket and the prompt helper are removed.
pub open spec fn session_teardown(s: SessionView) -> Seq<TeardownActionView> {
    (if stops_remote_service(s) {
        seq![TeardownActionView::RunSsh(stop_service_argv(s))]
    } else {
        Seq::empty()
    }) + seq![
        TeardownActionView::RunSsh(stop_master_argv(s)),
        TeardownActionView::KillExtraForwards,
        TeardownActionView::KillMainForward,
        TeardownActionView::KillMaster,
        TeardownActionView::RemoveFile(s.control_path),
        TeardownActionView::RemoveFile(s.askpass_path),
    ]
}

/// How an instance is taken down: its tasks are aborted, then its
/// session, if it has one, is taken down.
pub open spec fn teardown_plan(session: Option<SessionView>) -> Seq<TeardownActionView> {
    seq![TeardownActionView::CancelConnectTask, TeardownActionView::CancelMonitorTask] + match session {
        Some(s) => session_teardown(s),
        None => Seq::empty(),
    }
}

/// The views of a list of steps.
pub open spec fn plan_view(v: Seq<TeardownAction>) -> Seq<TeardownActionView> {
    Seq::new(v.len(), |i: int| v[i]@)
}

/// Plans how an instance is taken down.
pub fn plan_teardown(session: &Option<SessionRecord>) -> (r: Vec<TeardownAction>)
    ensures
        plan_view(r@) == teardown_plan(crate::model::opt_view(*session)),
{
    let mut plan: Vec<TeardownAction> = Vec::new();
    plan.push(TeardownAction::CancelConnectTask);
    plan.push(TeardownAction::CancelMonitorTask);
    match session {
        Some(s) => {
            if s.started_by_us && s.managed && !s.keep_running {
                let script = stop_remote_server_best_effort(s.remote_port);
                plan.push(
                    TeardownAction::RunSsh(
                        run_remote_command(
                            &s.parsed,
                            s.control_path.as_str(),
                            script.as_str(),
                            DEFAULT_CONNECTION_TIMEOUT_SEC,
                        ),
                    ),
                );
            }
            plan.push(
                TeardownAction::RunSsh(
                    stop_control_master_best_effort(&s.parsed, s.control_path.as_str()),
                ),
            );
            plan.push(TeardownAction::KillExtraForwards);
            plan.push(TeardownAction::KillMainForward);
            plan.push(TeardownAction::KillMaster);
            plan.push(TeardownAction::RemoveFile(s.control_path.clone()));
            plan.push(TeardownAction::RemoveFile(s.askpass_path.clone()));
            assert(plan_view(plan@) =~= teardown_plan(Some(s@)));
        },
        None => {
            assert(plan_view(plan@) =~= teardown_plan(None));
        },
    }
    plan
}

} // verus!
