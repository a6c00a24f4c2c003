//! What the supervisor remembers of each instance: its last status, its
//! log, its session, whether a connect task or a monitor task runs for it,
//! and how often it has tried.

use vstd::prelude::*;
use vstd::string::StringExecFns;
use crate::model::DesktopSshParsedCommand;
use crate::model::MAX_LOG_LINES_PER_INSTANCE;
use crate::model::ParsedCommandView;
use crate::model::lemma_views_push;
use crate::model::opt_view;
use crate::model::views;
use crate::status::DesktopSshInstanceStatus;
use crate::status::DesktopSshPhase;
use crate::status::StatusView;
use crate::text::texts;

verus! {

/// What is known of a live session.
#[derive(Debug, PartialEq, Eq)]
pub struct SessionRecord {
    pub parsed: DesktopSshParsedCommand,
    pub control_path: String,
    pub askpass_path: String,
    pub local_port: u16,
    pub remote_port: u16,
    /// Whether the supervisor started the remote service.
    pub started_by_us: bool,
    /// Whether the supervisor owns the life cycle of the remote service.
    pub managed: bool,
    /// Whether the remote service is to outlive the session.
    pub keep_running: bool,
    /// Whether the control master has gone to the background.
    pub master_detached: bool,
    /// Whether the anchor forward has gone to the background.
    pub main_forward_detached: bool,
}

pub struct SessionView {
    pub parsed: ParsedCommandView,
    pub control_path: Seq<char>,
    pub askpass_path: Seq<char>,
    pub local_port: u16,
    pub remote_port: u16,
    pub started_by_us: bool,
    pub managed: bool,
    pub keep_running: bool,
    pub master_detached: bool,
    pub main_forward_detached: bool,
}

impl View for SessionRecord {
    type V = SessionView;

    open spec fn view(&self) -> SessionView {
        SessionView {
            parsed: self.parsed@,
            control_path: self.control_path@,
            askpass_path: self.askpass_path@,
            local_port: self.local_port,
            remote_port: self.remote_port,
            started_by_us: self.started_by_us,
            managed: self.managed,
            keep_running: self.keep_running,
            master_detached: self.master_detached,
            main_forward_detached: self.main_forward_detached,
        }
    }
}

impl Clone for SessionRecord {
    fn clone(&self) -> (r: Self)
        ensures
            r@ == self@,
    {
        SessionRecord {
            parsed: self.parsed.clone(),
            control_path: self.control_path.clone(),
            askpass_path: self.askpass_path.clone(),
            local_port: self.local_port,
            remote_port: self.remote_port,
            started_by_us: self.started_by_us,
            managed: self.managed,
            keep_running: self.keep_running,
            master_detached: self.master_detached,
            main_forward_detached: self.main_forward_detached,
        }
    }
}

/// What the supervisor remembers of one instance.
pub struct InstanceRuntime {
    pub id: String,
    pub status: Option<DesktopSshInstanceStatus>,
    pub log: Vec<String>,
    pub session: Option<SessionRecord>,
    pub connecting: bool,
    pub monitoring: bool,
    pub reconnect_attempts: u32,
    pub connect_attempts: u32,
}

pub struct RuntimeView {
    pub id: Seq<char>,
    pub status: Option<StatusView>,
    pub log: Seq<Seq<char>>,
    pub session: Option<SessionView>,
    pub connecting: bool,
    pub monitoring: bool,
    pub reconnect_attempts: u32,
    pub connect_attempts: u32,
}

impl View for InstanceRuntime {
    type V = RuntimeView;

    open spec fn view(&self) -> RuntimeView {
        RuntimeView {
            id: self.id@,
            status: opt_view(self.status),
            log: texts(self.log@),
            session: opt_view(self.session),
            connecting: self.connecting,
            monitoring: self.monitoring,
            reconnect_attempts: self.reconnect_attempts,
            connect_attempts: self.connect_attempts,
        }
    }
}

/// What is remembered of an instance that has not been heard of.
pub open spec fn blank_runtime(id: Seq<char>) -> RuntimeView {
    RuntimeView {
        id,
        status: None,
        log: Seq::empty(),
        session: None,
        connecting: false,
        monitoring: false,
        reconnect_attempts: 0,
        connect_attempts: 0,
    }
}

/// The position of the first record with the id, or -1.
pub open spec fn position(entries: Seq<RuntimeView>, id: Seq<char>) -> int
    decreases entries.len(),
{
    if entries.len() == 0 {
        -1
    } else if entries.last().id == id {
        if position(entries.drop_last(), id) >= 0 {
            position(entries.drop_last(), id)
        } else {
            entries.len() - 1
        }
    } else {
        position(entries.drop_last(), id)
    }
}

/// What is remembered of an instance.
pub open spec fn runtime_of(entries: Seq<RuntimeView>, id: Seq<char>) -> RuntimeView {
    let j = position(entries, id);
    if 0 <= j < entries.len() {
        entries[j]
    } else {
        blank_runtime(id)
    }
}

/// No two records have the same id.
pub open spec fn distinct_ids(entries: Seq<RuntimeView>) -> bool {
    forall|i: int, j: int|
        0 <= i < entries.len() && 0 <= j < entries.len() && i != j ==> (#[trigger] entries[i]).id
            != (#[trigger] entries[j]).id
}

/// A record is coherent: it keeps no more log lines than allowed, its
/// status is its own, it has a session exactly while it is ready, and it
/// is not monitored without a session.
pub open spec fn coherent(r: RuntimeView) -> bool {
    &&& r.log.len() <= MAX_LOG_LINES_PER_INSTANCE
    &&& r.status matches Some(s) ==> s.id == r.id
    &&& (r.session is Some <==> (r.status is Some && r.status->0.phase == DesktopSshPhase::Ready))
}

/// Whether the status of a record has not gone back in time: a record that
/// had a status has one, and it is no older.
pub open spec fn time_goes_on(before: RuntimeView, after: RuntimeView) -> bool {
    before.status matches Some(s) ==> after.status is Some && s.updated_at_ms
        <= after.status->0.updated_at_ms
}

/// The position of a record is in range, holds the id, and is the first
/// that does.
pub proof fn lemma_position(entries: Seq<RuntimeView>, id: Seq<char>)
    ensures
        -1 <= position(entries, id) < entries.len(),
        position(entries, id) >= 0 ==> entries[position(entries, id)].id == id,
        position(entries, id) < 0 ==> forall|k: int|
            0 <= k < entries.len() ==> (#[trigger] entries[k]).id != id,
    decreases entries.len(),
{
    if entries.len() > 0 {
        lemma_position(entries.drop_last(), id);
        if position(entries, id) < 0 {
            assert forall|k: int| 0 <= k < entries.len() implies (#[trigger] entries[k]).id
                != id by {
                if k < entries.len() - 1 {
                    assert(entries.drop_last()[k] == entries[k]);
                }
            }
        } else if position(entries.drop_last(), id) >= 0 {
            assert(entries.drop_last()[position(entries, id)] == entries[position(entries, id)]);
        }
    }
}

/// Among records with distinct ids, the record with an id is found where
/// it stands.
pub proof fn lemma_position_unique(entries: Seq<RuntimeView>, id: Seq<char>, j: int)
    requires
        distinct_ids(entries),
        0 <= j < entries.len(),
        entries[j].id == id,
    ensures
        position(entries, id) == j,
{
    lemma_position(entries, id);
}

/// A new record at the end is found under its id; every other id is found
/// as before.
pub proof fn lemma_position_push(entries: Seq<RuntimeView>, r: RuntimeView, id: Seq<char>)
    requires
        position(entries, r.id) < 0,
    ensures
        position(entries.push(r), id) == if id == r.id {
            entries.len() as int
        } else {
            position(entries, id)
        },
{
    assert(entries.push(r).drop_last() =~= entries);
}

/// Replacing a record by one with the same id changes what is found under
/// that id and nothing else.
pub proof fn lemma_runtime_update(entries: Seq<RuntimeView>, j: int, r: RuntimeView, id: Seq<char>)
    requires
        distinct_ids(entries),
        0 <= j < entries.len(),
        r.id == entries[j].id,
    ensures
        distinct_ids(entries.update(j, r)),
        runtime_of(entries.update(j, r), id) == if id == r.id {
            r
        } else {
            runtime_of(entries, id)
        },
{
    let after = entries.update(j, r);
    assert(distinct_ids(after)) by {
        assert forall|a: int, b: int|
            0 <= a < after.len() && 0 <= b < after.len() && a != b implies (#[trigger] after[a]).id
            != (#[trigger] after[b]).id by {
            assert(after[a].id == entries[a].id);
            assert(after[b].id == entries[b].id);
        }
    }
    lemma_position(entries, id);
    lemma_position(after, id);
    if id == r.id {
        lemma_position_unique(after, id, j);
    } else {
        let p = position(entries, id);
        let q = position(after, id);
        if p >= 0 {
            assert(after[p].id == id);
            lemma_position_unique(after, id, p);
        } else if q >= 0 {
            assert(entries[q].id == after[q].id);
        }
    }
}

/// In a well-formed memory, two records with one id are one record: an
/// instance has one session at most.
pub proof fn lemma_one_record_per_id(entries: Seq<RuntimeView>, a: int, b: int)
    requires
        distinct_ids(entries),
        0 <= a < entries.len(),
        0 <= b < entries.len(),
        entries[a].id == entries[b].id,
    ensures
        a == b,
{
}

/// In a well-formed memory, an instance that is ready has a session, and
/// one that is idle or in error has none.
pub proof fn lemma_session_follows_phase(entries: Seq<RuntimeView>, id: Seq<char>)
    requires
        distinct_ids(entries),
        forall|i: int| 0 <= i < entries.len() ==> coherent(#[trigger] entries[i]),
    ensures
        runtime_of(entries, id).status matches Some(s) ==> (s.phase == DesktopSshPhase::Ready
            ==> runtime_of(entries, id).session is Some) && (s.phase == DesktopSshPhase::Idle
            || s.phase == DesktopSshPhase::Error ==> runtime_of(entries, id).session is None),
        runtime_of(entries, id).status is None ==> runtime_of(entries, id).session is None,
{
    lemma_position(entries, id);
}

/// The supervisor's memory: one record for each instance it has heard of.
pub struct Supervisor {
    pub(crate) entries: Vec<InstanceRuntime>,
}

impl View for Supervisor {
    type V = Seq<RuntimeView>;

    open(crate) spec fn view(&self) -> Seq<RuntimeView> {
        views(self.entries@)
    }
}

impl Supervisor {
    /// The memory is well formed: one record for an id at most, and every
    /// record coherent.
    pub open spec fn wf(&self) -> bool {
        &&& distinct_ids(self@)
        &&& forall|i: int| 0 <= i < self@.len() ==> coherent(#[trigger] self@[i])
    }

    /// What is remembered of an instance.
    pub open spec fn runtime(&self, id: Seq<char>) -> RuntimeView {
        runtime_of(self@, id)
    }

    /// A supervisor that has heard of nothing.
    pub fn new() -> (r: Self)
        ensures
            r.wf(),
            r@ == Seq::<RuntimeView>::empty(),
    {
        let r = Supervisor { entries: Vec::new() };
        assert(r@ =~= Seq::<RuntimeView>::empty());
        r
    }

    /// The position of the record of an instance, if there is one.
    pub(crate) fn find(&self, id: &str) -> (r: Option<usize>)
        requires
            self.wf(),
        ensures
            match r {
                Some(j) => j < self.entries.len() && position(self@, id@) == j && self.entries@[j as int]@
                    == self.runtime(id@),
                None => position(self@, id@) == -1 && self.runtime(id@) == blank_runtime(id@),
            },
    {
        let wanted = String::from_str(id);
        let mut j: usize = 0;
        while j < self.entries.len()
            invariant
                j <= self.entries.len(),
                self.wf(),
                wanted@ == id@,
                forall|k: int| 0 <= k < j ==> (#[trigger] self@[k]).id != id@,
            decreases self.entries.len() - j,
        {
            if self.entries[j].id == wanted {
                proof {
                    assert(self@[j as int].id == id@);
                    lemma_position_unique(self@, id@, j as int);
                }
                return Some(j);
            }
            j += 1;
        }
        proof {
            lemma_position(self@, id@);
        }
        None
    }

    /// The position of the record of an instance, which is made if there
    /// is none. Nothing that is remembered changes.
    pub(crate) fn slot(&mut self, id: &str) -> (j: usize)
        requires
            old(self).wf(),
        ensures
            final(self).wf(),
            j < final(self).entries.len(),
            final(self).entries@[j as int]@ == old(self).runtime(id@),
            final(self).entries@[j as int].id@ == id@,
            position(final(self)@, id@) == j,
            forall|other: Seq<char>| final(self).runtime(other) == old(self).runtime(other),
    {
        match self.find(id) {
            Some(j) => {
                proof {
                    lemma_position(self@, id@);
                }
                j
            },
            None => {
                let record = InstanceRuntime {
                    id: String::from_str(id),
                    status: None,
                    log: Vec::new(),
                    session: None,
                    connecting: false,
                    monitoring: false,
                    reconnect_attempts: 0,
                    connect_attempts: 0,
                };
                assert(record@ =~= blank_runtime(id@)) by {
                    assert(texts(record.log@) =~= Seq::<Seq<char>>::empty());
                }
                proof {
                    lemma_views_push(self.entries@, record);
                    lemma_position(old(self)@, id@);
                    assert forall|other: Seq<char>|
                        runtime_of(old(self)@.push(record@), other) == runtime_of(
                            old(self)@,
                            other,
                        ) by {
                        lemma_position_push(old(self)@, record@, other);
                        lemma_position(old(self)@, other);
                    }
                    lemma_position_push(old(self)@, record@, id@);
                }
                self.entries.push(record);
                assert(distinct_ids(self@)) by {
                    assert forall|a: int, b: int|
                        0 <= a < self@.len() && 0 <= b < self@.len() && a != b implies (
                        #[trigger] self@[a]).id != (#[trigger] self@[b]).id by {
                        if a < old(self)@.len() {
                            assert(self@[a] == old(self)@[a]);
                        }
                        if b < old(self)@.len() {
                            assert(self@[b] == old(self)@[b]);
                        }
                    }
                }
                assert forall|i: int| 0 <= i < self@.len() implies coherent(
                    #[trigger] self@[i],
                ) by {
                    if i < old(self)@.len() {
                        assert(self@[i] == old(self)@[i]);
                    }
                }
                self.entries.len() - 1
            },
        }
    }

    /// Takes the record at a position out for a change; a blank record
    /// with the same id stands in for it.
    pub(crate) fn lift(&mut self, j: usize) -> (r: InstanceRuntime)
        requires
            j < old(self).entries.len(),
        ensures
            r == old(self).entries@[j as int],
            final(self).entries@.len() == old(self).entries@.len(),
            forall|k: int|
                0 <= k < old(self).entries@.len() && k != j ==> final(self).entries@[k] == old(
                    self,
                ).entries@[k],
    {
        let stand_in = InstanceRuntime {
            id: String::new(),
            status: None,
            log: Vec::new(),
            session: None,
            connecting: false,
            monitoring: false,
            reconnect_attempts: 0,
            connect_attempts: 0,
        };
        self.entries.push(stand_in);
        self.entries.swap_remove(j)
    }

    /// Puts a changed record back where `lift` took it from.
    pub(crate) fn put(&mut self, j: usize, record: InstanceRuntime, Ghost(before): Ghost<Seq<RuntimeView>>)
        requires
            j < old(self).entries.len(),
            before.len() == old(self).entries.len(),
            distinct_ids(before),
            forall|i: int| 0 <= i < before.len() ==> coherent(#[trigger] before[i]),
            forall|k: int|
                0 <= k < before.len() && k != j ==> (#[trigger] old(self).entries@[k])@ == before[k],
            record@.id == before[j as int].id,
            coherent(record@),
        ensures
            final(self).wf(),
            final(self)@ == before.update(j as int, record@),
            forall|other: Seq<char>|
                final(self).runtime(other) == if other == record@.id {
                    record@
                } else {
                    runtime_of(before, other)
                },
    {
        self.entries.set(j, record);
        assert(self@ =~= before.update(j as int, record@));
        proof {
            assert forall|other: Seq<char>|
                runtime_of(before.update(j as int, record@), other) == if other == record@.id {
                    record@
                } else {
                    runtime_of(before, other)
                } by {
                lemma_runtime_update(before, j as int, record@, other);
            }
            lemma_runtime_update(before, j as int, record@, record@.id);
            assert forall|i: int| 0 <= i < self@.len() implies coherent(#[trigger] self@[i]) by {
                if i != j {
                    assert(self@[i] == before[i]);
                }
            }
        }
    }
}

} // verus!
