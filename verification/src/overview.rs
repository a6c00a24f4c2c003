//! What concerns all instances at once: the list of statuses, and the
//! shutdown.

use vstd::prelude::*;
use crate::model::lemma_views_push;
use crate::model::views;
use crate::order::is_arrangement;
use crate::order::is_stably_sorted;
use crate::order::sorted_order;
use crate::registry::RuntimeView;
use crate::registry::Supervisor;
use crate::registry::coherent;
use crate::status::DesktopSshInstanceStatus;
use crate::status::StatusView;
use crate::status::idle_status;
use crate::teardown::TeardownAction;
use crate::teardown::plan_teardown;
use crate::teardown::plan_view;
use crate::teardown::teardown_plan;
use crate::text::texts;

verus! {

/// The status shown for a record: its own, or idle as of now.
pub open spec fn shown_status(r: RuntimeView, now_ms: u64) -> StatusView {
    match r.status {
        Some(s) => s,
        None => idle_status(r.id, now_ms),
    }
}

/// How one instance is taken down at shutdown.
#[derive(Debug, PartialEq, Eq)]
pub struct Shutdown {
    pub id: String,
    pub teardown: Vec<TeardownAction>,
}

/// What the shutdown leaves of a record: no session and no task. A record
/// that had a session is idle from then on, as of its last status.
pub open spec fn shut(r: RuntimeView) -> RuntimeView {
    RuntimeView {
        session: None,
        connecting: false,
        monitoring: false,
        status: match r.status {
            Some(s) => if r.session is Some {
                Some(idle_status(r.id, s.updated_at_ms))
            } else {
                r.status
            },
            None => None,
        },
        ..r
    }
}

impl Supervisor {
    /// The statuses of the given instances, one for each, sorted by id.
    /// An instance without a status is idle as of now.
    pub fn statuses_with_defaults(&self, instance_ids: &Vec<String>, now_ms: u64) -> (r: Vec<
        DesktopSshInstanceStatus,
    >)
        requires
            self.wf(),
        ensures
            r.len() == instance_ids.len(),
            exists|order: Seq<usize>|
                {
                    &&& is_arrangement(order, instance_ids.len() as nat)
                    &&& is_stably_sorted(order, texts(instance_ids@))
                    &&& forall|i: int|
                        0 <= i < r.len() ==> #[trigger] views(r@)[i] == shown_status(
                            self.runtime(texts(instance_ids@)[order[i] as int]),
                            now_ms,
                        )
                },
    {
        let order = sorted_order(instance_ids);
        let mut out: Vec<DesktopSshInstanceStatus> = Vec::new();
        let mut i: usize = 0;
        while i < order.len()
            invariant
                i <= order.len(),
                out.len() == i,
                self.wf(),
                order.len() == instance_ids.len(),
                forall|j: int| 0 <= j < order.len() ==> (#[trigger] order@[j]) < instance_ids.len(),
                forall|j: int|
                    0 <= j < i ==> #[trigger] views(out@)[j] == shown_status(
                        self.runtime(texts(instance_ids@)[order@[j] as int]),
                        now_ms,
                    ),
            decreases order.len() - i,
        {
            let id = &instance_ids[order[i]];
            assert(texts(instance_ids@)[order@[i as int] as int] == id@);
            let status = self.status_snapshot_for_instance(id.as_str(), now_ms);
            proof {
                lemma_views_push(out@, status);
                crate::registry::lemma_position(self@, id@);
            }
            out.push(status);
            i += 1;
        }
        out
    }

    /// Takes every instance down: its tasks are aborted and its session
    /// goes. The plans say what is to be done for each instance.
    pub fn shutdown_all(&mut self) -> (r: Vec<Shutdown>)
        requires
            old(self).wf(),
        ensures
            final(self).wf(),
            final(self)@.len() == old(self)@.len(),
            r.len() == old(self)@.len(),
            forall|i: int| 0 <= i < old(self)@.len() ==> #[trigger] final(self)@[i] == shut(old(self)@[i]),
            forall|i: int|
                0 <= i < old(self)@.len() ==> crate::registry::time_goes_on(
                    old(self)@[i],
                    #[trigger] final(self)@[i],
                ),
            forall|i: int|
                0 <= i < old(self)@.len() ==> (#[trigger] r@[i]).id@ == old(self)@[i].id && plan_view(
                    r@[i].teardown@,
                ) == teardown_plan(old(self)@[i].session),
    {
        let mut plans: Vec<Shutdown> = Vec::new();
        let mut i: usize = 0;
        let n = self.entries.len();
        while i < n
            invariant
                i <= n,
                n == self.entries.len(),
                n == old(self)@.len(),
                old(self).wf(),
                plans.len() == i,
                forall|k: int| 0 <= k < i ==> #[trigger] self@[k] == shut(old(self)@[k]),
                forall|k: int| i <= k < n ==> #[trigger] self@[k] == old(self)@[k],
                forall|k: int|
                    0 <= k < i ==> (#[trigger] plans@[k]).id@ == old(self)@[k].id && plan_view(
                        plans@[k].teardown@,
                    ) == teardown_plan(old(self)@[k].session),
            decreases n - i,
        {
            let ghost before = self@;
            let mut record = self.lift(i);
            assert(record@ == before[i as int]);
            let teardown = plan_teardown(&record.session);
            let id = record.id.clone();
            if record.session.is_some() {
                let at: u64 = match &record.status {
                    Some(s) => s.updated_at_ms,
                    None => 0,
                };
                record.status = Some(DesktopSshInstanceStatus::idle(record.id.as_str(), at));
            }
            record.session = None;
            record.connecting = false;
            record.monitoring = false;
            self.entries.set(i, record);
            assert forall|k: int| 0 <= k < n && k != i implies #[trigger] self@[k] == before[k] by {}
            plans.push(Shutdown { id, teardown });
            i += 1;
        }
        proof {
            assert forall|a: int, b: int|
                0 <= a < self@.len() && 0 <= b < self@.len() && a != b implies (
            #[trigger] self@[a]).id != (#[trigger] self@[b]).id by {
                assert(self@[a] == shut(old(self)@[a]));
                assert(self@[b] == shut(old(self)@[b]));
            }
            assert forall|k: int| 0 <= k < self@.len() implies coherent(#[trigger] self@[k]) by {
                assert(self@[k] == shut(old(self)@[k]));
                assert(coherent(old(self)@[k]));
            }
        }
        plans
    }
}

} // verus!
