//! What holds of the host list after a write of the instances: it has
//! exactly one entry for each instance, the entries that belong to nothing
//! the session manager knows are as they were, and the default host is the
//! local machine exactly if the write removed the instance it named.

use vstd::prelude::*;
use crate::hosts::HostEntryView;
use crate::hosts::adopt_instance;
use crate::hosts::adopt_instances;
use crate::hosts::default_is_removed;
use crate::hosts::host_ids;
use crate::hosts::host_survives;
use crate::hosts::id_matches;
use crate::hosts::instance_ids;
use crate::hosts::lemma_slot_of_found;
use crate::hosts::slot_of;
use crate::hosts::surviving_hosts;
use crate::hosts::synced_default;
use crate::hosts::synced_hosts;
use crate::model::InstanceView;
use crate::model::LOCAL_HOST_ID;
use crate::text::trim;

verus! {

/// How many entries of a host list have the id, trimmed.
pub open spec fn count_id(hosts: Seq<HostEntryView>, id: Seq<char>) -> nat
    decreases hosts.len(),
{
    if hosts.len() == 0 {
        0
    } else {
        count_id(hosts.drop_last(), id) + if id_matches(hosts.last().id, id) {
            1nat
        } else {
            0nat
        }
    }
}

/// Whether an id stays in the host list through a write: it is not the id
/// of an instance that was there before and is gone.
pub open spec fn id_survives(id: Seq<char>, previous: Seq<Seq<char>>, next: Seq<Seq<char>>) -> bool {
    !(previous.contains(id) && !next.contains(id))
}

/// Whether a host entry belongs to no instance, neither before the write
/// nor after it: it has no id, or its id is that of no instance.
pub open spec fn belongs_to_no_instance(
    h: HostEntryView,
    previous: Seq<Seq<char>>,
    next: Seq<Seq<char>>,
) -> bool {
    match h.id {
        Some(id) => !previous.contains(trim(id)) && !next.contains(trim(id)),
        None => true,
    }
}

/// The ids of the instances are what sanitising leaves: trimmed and not
/// empty.
pub open spec fn ids_are_clean(instances: Seq<InstanceView>) -> bool {
    forall|i: int|
        0 <= i < instances.len() ==> (#[trigger] instances[i]).id.len() > 0 && trim(
            instances[i].id,
        ) == instances[i].id
}

/// The ids of instances that have been sanitised are clean.
pub proof fn lemma_sound_ids_are_clean(instances: Seq<InstanceView>)
    requires
        crate::sanitize::ids_are_sound(instances),
    ensures
        ids_are_clean(instances),
{
}

proof fn lemma_count_none(hosts: Seq<HostEntryView>, id: Seq<char>)
    requires
        forall|j: int| 0 <= j < hosts.len() ==> !id_matches((#[trigger] hosts[j]).id, id),
    ensures
        count_id(hosts, id) == 0,
    decreases hosts.len(),
{
    if hosts.len() > 0 {
        assert forall|j: int| 0 <= j < hosts.drop_last().len() implies !id_matches(
            (#[trigger] hosts.drop_last()[j]).id,
            id,
        ) by {
            assert(hosts.drop_last()[j] == hosts[j]);
        }
        lemma_count_none(hosts.drop_last(), id);
        assert(!id_matches(hosts[hosts.len() - 1].id, id));
    }
}

proof fn lemma_count_some(hosts: Seq<HostEntryView>, id: Seq<char>, j: int)
    requires
        0 <= j < hosts.len(),
        id_matches(hosts[j].id, id),
    ensures
        count_id(hosts, id) >= 1,
    decreases hosts.len(),
{
    if j < hosts.len() - 1 {
        assert(hosts.drop_last()[j] == hosts[j]);
        lemma_count_some(hosts.drop_last(), id, j);
    }
}

proof fn lemma_count_update(hosts: Seq<HostEntryView>, j: int, e: HostEntryView, id: Seq<char>)
    requires
        0 <= j < hosts.len(),
        id_matches(e.id, id) == id_matches(hosts[j].id, id),
    ensures
        count_id(hosts.update(j, e), id) == count_id(hosts, id),
    decreases hosts.len(),
{
    let after = hosts.update(j, e);
    if j == hosts.len() - 1 {
        assert(after.drop_last() =~= hosts.drop_last());
    } else {
        assert(after.drop_last() =~= hosts.drop_last().update(j, e));
        lemma_count_update(hosts.drop_last(), j, e, id);
    }
}

proof fn lemma_count_push(hosts: Seq<HostEntryView>, e: HostEntryView, id: Seq<char>)
    ensures
        count_id(hosts.push(e), id) == count_id(hosts, id) + if id_matches(e.id, id) {
            1nat
        } else {
            0nat
        },
{
    assert(hosts.push(e).drop_last() =~= hosts);
}

/// Giving an instance its entry adds one entry with its id if there was
/// none, and changes the number of entries with no other id.
pub proof fn lemma_adopt_count(hosts: Seq<HostEntryView>, i: InstanceView, id: Seq<char>)
    requires
        trim(i.id) == i.id,
    ensures
        count_id(adopt_instance(hosts, i), id) == if id == i.id && count_id(hosts, id) == 0 {
            1nat
        } else {
            count_id(hosts, id)
        },
{
    let ids = host_ids(hosts);
    let j = slot_of(ids, i.id);
    lemma_slot_of_found(ids, i.id);
    if 0 <= j < hosts.len() {
        assert(ids[j] == hosts[j].id);
        lemma_count_update(hosts, j, crate::hosts::refreshed_host(hosts[j], i), id);
        lemma_count_some(hosts, i.id, j);
    } else {
        assert forall|k: int| 0 <= k < hosts.len() implies !id_matches(
            (#[trigger] hosts[k]).id,
            i.id,
        ) by {
            assert(ids[k] == hosts[k].id);
        }
        lemma_count_none(hosts, i.id);
        lemma_count_push(hosts, crate::hosts::new_host(i), id);
    }
}

/// Giving an instance its entry leaves every entry with another id as it
/// is.
pub proof fn lemma_adopt_keeps(hosts: Seq<HostEntryView>, i: InstanceView, e: HostEntryView)
    requires
        hosts.contains(e),
        !id_matches(e.id, i.id),
    ensures
        adopt_instance(hosts, i).contains(e),
{
    let ids = host_ids(hosts);
    let j = slot_of(ids, i.id);
    lemma_slot_of_found(ids, i.id);
    let at = choose|k: int| 0 <= k < hosts.len() && hosts[k] == e;
    if 0 <= j < hosts.len() {
        assert(ids[j] == hosts[j].id);
        assert(at != j);
        assert(hosts.update(j, crate::hosts::refreshed_host(hosts[j], i))[at] == e);
    } else {
        assert(hosts.push(crate::hosts::new_host(i))[at] == e);
    }
}

/// After every instance has been given its entry, there is an entry for
/// each of their ids, and the number of entries with any other id is as
/// it was.
pub proof fn lemma_adopt_all_count(
    hosts: Seq<HostEntryView>,
    instances: Seq<InstanceView>,
    id: Seq<char>,
)
    requires
        ids_are_clean(instances),
    ensures
        count_id(adopt_instances(hosts, instances), id) == if instance_ids(instances).contains(id)
            && count_id(hosts, id) == 0 {
            1nat
        } else {
            count_id(hosts, id)
        },
    decreases instances.len(),
{
    if instances.len() > 0 {
        let before = instances.drop_last();
        let last = instances.last();
        assert(ids_are_clean(before)) by {
            assert forall|i: int| 0 <= i < before.len() implies (#[trigger] before[i]).id.len() > 0
                && trim(before[i].id) == before[i].id by {
                assert(before[i] == instances[i]);
            }
        }
        lemma_adopt_all_count(hosts, before, id);
        lemma_adopt_count(adopt_instances(hosts, before), last, id);
        let all_ids = instance_ids(instances);
        let before_ids = instance_ids(before);
        if before_ids.contains(id) {
            let at = choose|k: int| 0 <= k < before_ids.len() && before_ids[k] == id;
            assert(all_ids[at] == id);
        }
        if id == last.id {
            assert(all_ids[instances.len() - 1] == id);
        }
        if all_ids.contains(id) && id != last.id {
            let at = choose|k: int| 0 <= k < all_ids.len() && all_ids[k] == id;
            assert(before_ids[at] == id);
        }
    } else {
        assert(!instance_ids(instances).contains(id));
    }
}

/// After every instance has been given its entry, an entry with the id of
/// none of them is as it was.
pub proof fn lemma_adopt_all_keeps(
    hosts: Seq<HostEntryView>,
    instances: Seq<InstanceView>,
    e: HostEntryView,
)
    requires
        hosts.contains(e),
        forall|i: int| 0 <= i < instances.len() ==> !id_matches(e.id, (#[trigger] instances[i]).id),
    ensures
        adopt_instances(hosts, instances).contains(e),
    decreases instances.len(),
{
    if instances.len() > 0 {
        let before = instances.drop_last();
        assert forall|i: int| 0 <= i < before.len() implies !id_matches(
            e.id,
            (#[trigger] before[i]).id,
        ) by {
            assert(before[i] == instances[i]);
        }
        lemma_adopt_all_keeps(hosts, before, e);
        lemma_adopt_keeps(adopt_instances(hosts, before), instances.last(), e);
    }
}

/// The entries that stay are those whose id stays.
pub proof fn lemma_survivors_count(
    hosts: Seq<HostEntryView>,
    previous: Seq<Seq<char>>,
    next: Seq<Seq<char>>,
    id: Seq<char>,
)
    ensures
        count_id(surviving_hosts(hosts, previous, next), id) == if id_survives(
            id,
            previous,
            next,
        ) {
            count_id(hosts, id)
        } else {
            0
        },
    decreases hosts.len(),
{
    if hosts.len() > 0 {
        lemma_survivors_count(hosts.drop_last(), previous, next, id);
        if host_survives(hosts.last(), previous, next) {
            lemma_count_push(
                surviving_hosts(hosts.drop_last(), previous, next),
                hosts.last(),
                id,
            );
        }
    }
}

/// An entry that stays is among those that stay.
pub proof fn lemma_survivors_keep(
    hosts: Seq<HostEntryView>,
    previous: Seq<Seq<char>>,
    next: Seq<Seq<char>>,
    at: int,
)
    requires
        0 <= at < hosts.len(),
        host_survives(hosts[at], previous, next),
    ensures
        surviving_hosts(hosts, previous, next).contains(hosts[at]),
    decreases hosts.len(),
{
    let kept = surviving_hosts(hosts, previous, next);
    if at == hosts.len() - 1 {
        assert(kept[kept.len() - 1] == hosts[at]);
    } else {
        assert(hosts.drop_last()[at] == hosts[at]);
        lemma_survivors_keep(hosts.drop_last(), previous, next, at);
        let before = surviving_hosts(hosts.drop_last(), previous, next);
        let k = choose|k: int| 0 <= k < before.len() && before[k] == hosts[at];
        assert(kept[k] == hosts[at]);
    }
}

/// After a write of sanitised instances to a host list that has no two
/// entries with one id:
/// the list has exactly one entry for each instance;
/// of any other id it has the entry it had, unless the id is that of an
/// instance that the write removes, and then it has none;
/// an entry that belongs to no instance, before or after, is as it was;
/// and the default host is the local machine exactly if it was so or the
/// write removes the instance it named; otherwise it is what it was.
pub proof fn lemma_settings_sync(
    hosts: Seq<HostEntryView>,
    default_id: Option<Seq<char>>,
    previous: Seq<Seq<char>>,
    instances: Seq<InstanceView>,
)
    requires
        ids_are_clean(instances),
        forall|id: Seq<char>| count_id(hosts, id) <= 1,
    ensures
        forall|i: int|
            0 <= i < instances.len() ==> count_id(
                synced_hosts(hosts, previous, instances),
                (#[trigger] instances[i]).id,
            ) == 1,
        forall|id: Seq<char>|
            !instance_ids(instances).contains(id) ==> #[trigger] count_id(
                synced_hosts(hosts, previous, instances),
                id,
            ) == if !previous.contains(id) {
                count_id(hosts, id)
            } else {
                0
            },
        forall|at: int|
            0 <= at < hosts.len() && belongs_to_no_instance(
                #[trigger] hosts[at],
                previous,
                instance_ids(instances),
            ) ==> synced_hosts(hosts, previous, instances).contains(hosts[at]),
        synced_default(default_id, previous, instance_ids(instances)) == Some(LOCAL_HOST_ID@)
            <==> default_is_removed(default_id, previous, instance_ids(instances)) || default_id
            == Some(LOCAL_HOST_ID@),
        !default_is_removed(default_id, previous, instance_ids(instances)) ==> synced_default(
            default_id,
            previous,
            instance_ids(instances),
        ) == default_id,
{
    let next = instance_ids(instances);
    let kept = surviving_hosts(hosts, previous, next);
    assert forall|i: int| 0 <= i < instances.len() implies count_id(
        synced_hosts(hosts, previous, instances),
        (#[trigger] instances[i]).id,
    ) == 1 by {
        let id = instances[i].id;
        assert(next[i] == id);
        lemma_survivors_count(hosts, previous, next, id);
        lemma_adopt_all_count(kept, instances, id);
    }
    assert forall|id: Seq<char>| !next.contains(id) implies #[trigger] count_id(
        synced_hosts(hosts, previous, instances),
        id,
    ) == if !previous.contains(id) {
        count_id(hosts, id)
    } else {
        0
    } by {
        lemma_survivors_count(hosts, previous, next, id);
        lemma_adopt_all_count(kept, instances, id);
    }
    assert forall|at: int|
        0 <= at < hosts.len() && belongs_to_no_instance(
            #[trigger] hosts[at],
            previous,
            next,
        ) implies synced_hosts(hosts, previous, instances).contains(hosts[at]) by {
        lemma_survivors_keep(hosts, previous, next, at);
        assert forall|i: int| 0 <= i < instances.len() implies !id_matches(
            hosts[at].id,
            (#[trigger] instances[i]).id,
        ) by {
            assert(next[i] == instances[i].id);
        }
        lemma_adopt_all_keeps(kept, instances, hosts[at]);
    }
}

} // verus!
