//! The host list that sits beside the instances in the settings document.
//!
//! Every instance has one host entry with its id; entries that belong to
//! nothing the session manager knows are left alone.

use vstd::prelude::*;
use vstd::string::StringExecFns;
use crate::model::DesktopSshInstance;
use crate::model::InstanceView;
use crate::model::LOCAL_HOST_ID;
use crate::model::copy_opt_string;
use crate::model::lemma_views_push;
use crate::model::views;
use crate::text::from_chars;
use crate::text::opt_text;
use crate::text::same;
use crate::text::texts;
use crate::text::to_chars;
use crate::text::trim;
use crate::text::trimmed_str;

verus! {

/// The address a host entry carries until the tunnel's local port is known.
pub const PLACEHOLDER_HOST_URL: &'static str = "http://127.0.0.1/";

/// One entry of the host list, as far as the session manager reads and
/// writes it.
#[derive(Debug, PartialEq, Eq)]
pub struct DesktopHostEntry {
    /// Position of the entry in the stored list; `None` for a new entry.
    pub source: Option<usize>,
    /// The entry's id, when it has one that is a string.
    pub id: Option<String>,
    /// The entry's label, when it has one that is a string.
    pub label: Option<String>,
    /// The entry's address, when it has one that is a string.
    pub url: Option<String>,
}

pub struct HostEntryView {
    pub source: Option<usize>,
    pub id: Option<Seq<char>>,
    pub label: Option<Seq<char>>,
    pub url: Option<Seq<char>>,
}

impl View for DesktopHostEntry {
    type V = HostEntryView;

    open spec fn view(&self) -> HostEntryView {
        HostEntryView {
            source: self.source,
            id: opt_text(self.id),
            label: opt_text(self.label),
            url: opt_text(self.url),
        }
    }
}

impl Clone for DesktopHostEntry {
    fn clone(&self) -> (r: Self)
        ensures
            r@ == self@,
    {
        DesktopHostEntry {
            source: self.source,
            id: copy_opt_string(&self.id),
            label: copy_opt_string(&self.label),
            url: copy_opt_string(&self.url),
        }
    }
}

/// The name shown for an instance: its nickname, else the destination of
/// its command, else its id; each trimmed, and passed over when blank.
pub open spec fn display_label(i: InstanceView) -> Seq<char> {
    if i.nickname is Some && trim(i.nickname->0).len() > 0 {
        trim(i.nickname->0)
    } else if i.ssh_parsed is Some && trim(i.ssh_parsed->0.destination).len() > 0 {
        trim(i.ssh_parsed->0.destination)
    } else {
        i.id
    }
}

/// The name shown for an instance.
pub fn build_display_label(instance: &DesktopSshInstance) -> (r: String)
    ensures
        r@ == display_label(instance@),
{
    match &instance.nickname {
        Some(nick) => {
            let t = trimmed_str(nick.as_str());
            if t.len() > 0 {
                return from_chars(&t);
            }
        },
        None => {},
    }
    match &instance.ssh_parsed {
        Some(parsed) => {
            let t = trimmed_str(parsed.destination.as_str());
            if t.len() > 0 {
                return from_chars(&t);
            }
        },
        None => {},
    }
    instance.id.clone()
}

/// Whether an optional id, trimmed, is the given id.
pub open spec fn id_matches(entry_id: Option<Seq<char>>, id: Seq<char>) -> bool {
    entry_id is Some && trim(entry_id->0) == id
}

/// The position of the first id that matches, or -1.
pub open spec fn slot_of(ids: Seq<Option<Seq<char>>>, id: Seq<char>) -> int
    decreases ids.len(),
{
    if ids.len() == 0 {
        -1
    } else if id_matches(ids[0], id) {
        0
    } else {
        let r = slot_of(ids.drop_first(), id);
        if r < 0 {
            -1
        } else {
            r + 1
        }
    }
}

/// The first `j` ids do not match: the first match is `j`, if it matches,
/// and there is none if `j` is the end.
pub proof fn lemma_slot_of(ids: Seq<Option<Seq<char>>>, id: Seq<char>, j: int)
    requires
        0 <= j <= ids.len(),
        forall|k: int| 0 <= k < j ==> !id_matches(#[trigger] ids[k], id),
        j < ids.len() ==> id_matches(ids[j], id),
    ensures
        slot_of(ids, id) == if j < ids.len() {
            j
        } else {
            -1
        },
    decreases j,
{
    if j > 0 {
        assert(!id_matches(ids[0], id));
        assert forall|k: int| 0 <= k < j - 1 implies !id_matches(
            #[trigger] ids.drop_first()[k],
            id,
        ) by {
            assert(ids.drop_first()[k] == ids[k + 1]);
        }
        lemma_slot_of(ids.drop_first(), id, j - 1);
    }
}

/// Where a match is found, it is a match and the first one.
pub proof fn lemma_slot_of_found(ids: Seq<Option<Seq<char>>>, id: Seq<char>)
    ensures
        -1 <= slot_of(ids, id) < ids.len(),
        slot_of(ids, id) >= 0 ==> id_matches(ids[slot_of(ids, id)], id),
        forall|k: int| 0 <= k < ids.len() && (k < slot_of(ids, id) || slot_of(ids, id) < 0)
            ==> !id_matches(#[trigger] ids[k], id),
    decreases ids.len(),
{
    if ids.len() > 0 && !id_matches(ids[0], id) {
        lemma_slot_of_found(ids.drop_first(), id);
        let r = slot_of(ids.drop_first(), id);
        assert forall|k: int|
            0 <= k < ids.len() && (k < slot_of(ids, id) || slot_of(ids, id) < 0) implies !id_matches(
            #[trigger] ids[k],
            id,
        ) by {
            if k > 0 {
                assert(ids[k] == ids.drop_first()[k - 1]);
            }
        }
        if r >= 0 {
            assert(ids[r + 1] == ids.drop_first()[r]);
        }
    }
}

/// The position of the first id that, trimmed, is `id`.
pub fn find_slot(ids: &Vec<Option<String>>, id: &str) -> (r: Option<usize>)
    ensures
        match r {
            Some(j) => slot_of(opt_texts(ids@), id@) == j && j < ids.len(),
            None => slot_of(opt_texts(ids@), id@) == -1,
        },
{
    let wanted = to_chars(id);
    let mut j: usize = 0;
    while j < ids.len()
        invariant
            j <= ids.len(),
            wanted@ == id@,
            forall|k: int| 0 <= k < j ==> !id_matches(#[trigger] opt_texts(ids@)[k], id@),
        decreases ids.len() - j,
    {
        let hit = match &ids[j] {
            Some(v) => same(&trimmed_str(v.as_str()), &wanted),
            None => false,
        };
        assert(hit == id_matches(opt_texts(ids@)[j as int], id@));
        if hit {
            proof {
                lemma_slot_of(opt_texts(ids@), id@, j as int);
            }
            return Some(j);
        }
        j += 1;
    }
    proof {
        lemma_slot_of(opt_texts(ids@), id@, j as int);
    }
    None
}

/// The views of a sequence of optional strings.
pub open spec fn opt_texts(v: Seq<Option<String>>) -> Seq<Option<Seq<char>>> {
    Seq::new(v.len(), |i: int| opt_text(v[i]))
}

/// The ids of the entries of a host list.
pub open spec fn host_ids(hosts: Seq<HostEntryView>) -> Seq<Option<Seq<char>>> {
    Seq::new(hosts.len(), |i: int| hosts[i].id)
}

/// The ids of a list of instances.
pub open spec fn instance_ids(instances: Seq<InstanceView>) -> Seq<Seq<char>> {
    Seq::new(instances.len(), |i: int| instances[i].id)
}

/// Whether an entry stays in the host list: it goes only if its id is that
/// of an instance that was there before and is gone now.
pub open spec fn host_survives(h: HostEntryView, previous: Seq<Seq<char>>, next: Seq<Seq<char>>)
    -> bool {
    match h.id {
        Some(id) => !(previous.contains(trim(id)) && !next.contains(trim(id))),
        None => true,
    }
}

/// The entries that stay, in their order.
pub open spec fn surviving_hosts(
    hosts: Seq<HostEntryView>,
    previous: Seq<Seq<char>>,
    next: Seq<Seq<char>>,
) -> Seq<HostEntryView>
    decreases hosts.len(),
{
    if hosts.len() == 0 {
        Seq::empty()
    } else if host_survives(hosts.last(), previous, next) {
        surviving_hosts(hosts.drop_last(), previous, next).push(hosts.last())
    } else {
        surviving_hosts(hosts.drop_last(), previous, next)
    }
}

/// Whether an address is missing or blank.
pub open spec fn url_is_blank(url: Option<Seq<char>>) -> bool {
    match url {
        Some(u) => trim(u).len() == 0,
        None => true,
    }
}

/// An existing entry brought up to date for its instance: the id and the
/// label are the instance's; the address is kept unless it is blank.
pub open spec fn refreshed_host(h: HostEntryView, i: InstanceView) -> HostEntryView {
    HostEntryView {
        source: h.source,
        id: Some(i.id),
        label: Some(display_label(i)),
        url: if url_is_blank(h.url) {
            Some(PLACEHOLDER_HOST_URL@)
        } else {
            h.url
        },
    }
}

/// The entry made for an instance that has none.
pub open spec fn new_host(i: InstanceView) -> HostEntryView {
    HostEntryView {
        source: None,
        id: Some(i.id),
        label: Some(display_label(i)),
        url: Some(PLACEHOLDER_HOST_URL@),
    }
}

/// The host list after one instance has been given its entry: the first
/// entry with the instance's id is brought up to date, or a new entry is
/// added at the end.
pub open spec fn adopt_instance(hosts: Seq<HostEntryView>, i: InstanceView) -> Seq<HostEntryView> {
    let j = slot_of(host_ids(hosts), i.id);
    if 0 <= j < hosts.len() {
        hosts.update(j, refreshed_host(hosts[j], i))
    } else {
        hosts.push(new_host(i))
    }
}

/// The host list after each instance, in order, has been given its entry.
pub open spec fn adopt_instances(hosts: Seq<HostEntryView>, instances: Seq<InstanceView>) -> Seq<
    HostEntryView,
>
    decreases instances.len(),
{
    if instances.len() == 0 {
        hosts
    } else {
        adopt_instance(adopt_instances(hosts, instances.drop_last()), instances.last())
    }
}

/// The host list that goes with a new list of instances.
pub open spec fn synced_hosts(
    hosts: Seq<HostEntryView>,
    previous: Seq<Seq<char>>,
    instances: Seq<InstanceView>,
) -> Seq<HostEntryView> {
    adopt_instances(surviving_hosts(hosts, previous, instance_ids(instances)), instances)
}

/// Whether the default host names an instance that this write removes.
pub open spec fn default_is_removed(
    default_id: Option<Seq<char>>,
    previous: Seq<Seq<char>>,
    next: Seq<Seq<char>>,
) -> bool {
    &&& default_id is Some
    &&& previous.contains(trim(default_id->0))
    &&& !next.contains(trim(default_id->0))
}

/// The default host after the write: the local machine if the write
/// removes the instance it named, else what it was.
pub open spec fn synced_default(
    default_id: Option<Seq<char>>,
    previous: Seq<Seq<char>>,
    next: Seq<Seq<char>>,
) -> Option<Seq<char>> {
    if default_is_removed(default_id, previous, next) {
        Some(LOCAL_HOST_ID@)
    } else {
        default_id
    }
}

/// The host list and the default host that go with a list of instances.
#[derive(Debug, PartialEq, Eq)]
pub struct HostsSync {
    pub hosts: Vec<DesktopHostEntry>,
    pub default_host_id: Option<String>,
}

/// Whether `t` is one of the texts of `list`.
pub fn text_in(list: &Vec<String>, t: &Vec<char>) -> (r: bool)
    ensures
        r == texts(list@).contains(t@),
{
    let mut i: usize = 0;
    while i < list.len()
        invariant
            i <= list.len(),
            forall|k: int| 0 <= k < i ==> #[trigger] texts(list@)[k] != t@,
        decreases list.len() - i,
    {
        if same(&to_chars(list[i].as_str()), t) {
            assert(texts(list@)[i as int] == t@);
            return true;
        }
        i += 1;
    }
    false
}

fn ids_of(instances: &Vec<DesktopSshInstance>) -> (r: Vec<String>)
    ensures
        texts(r@) == instance_ids(views(instances@)),
{
    let mut r: Vec<String> = Vec::new();
    let mut i: usize = 0;
    while i < instances.len()
        invariant
            i <= instances.len(),
            texts(r@) == instance_ids(views(instances@)).take(i as int),
        decreases instances.len() - i,
    {
        let id = instances[i].id.clone();
        proof {
            crate::model::lemma_texts_push(r@, id);
        }
        r.push(id);
        i += 1;
        assert(texts(r@) =~= instance_ids(views(instances@)).take(i as int));
    }
    assert(instance_ids(views(instances@)).take(instances.len() as int) =~= instance_ids(
        views(instances@),
    ));
    r
}

fn entry_ids(hosts: &Vec<DesktopHostEntry>) -> (r: Vec<Option<String>>)
    ensures
        opt_texts(r@) == host_ids(views(hosts@)),
{
    let mut r: Vec<Option<String>> = Vec::new();
    let mut i: usize = 0;
    while i < hosts.len()
        invariant
            i <= hosts.len(),
            opt_texts(r@) == host_ids(views(hosts@)).take(i as int),
        decreases hosts.len() - i,
    {
        let id = copy_opt_string(&hosts[i].id);
        let ghost before = opt_texts(r@);
        r.push(id);
        i += 1;
        assert(opt_texts(r@) =~= before.push(opt_text(id)));
        assert(opt_texts(r@) =~= host_ids(views(hosts@)).take(i as int));
    }
    assert(host_ids(views(hosts@)).take(hosts.len() as int) =~= host_ids(views(hosts@)));
    r
}

fn survives(h: &DesktopHostEntry, previous: &Vec<String>, next: &Vec<String>) -> (r: bool)
    ensures
        r == host_survives(h@, texts(previous@), texts(next@)),
{
    match &h.id {
        Some(id) => {
            let key = trimmed_str(id.as_str());
            !(text_in(previous, &key) && !text_in(next, &key))
        },
        None => true,
    }
}

fn blank_url(url: &Option<String>) -> (r: bool)
    ensures
        r == url_is_blank(opt_text(*url)),
{
    match url {
        Some(u) => trimmed_str(u.as_str()).len() == 0,
        None => true,
    }
}

fn adopt(hosts: &mut Vec<DesktopHostEntry>, instance: &DesktopSshInstance)
    ensures
        views(final(hosts)@) == adopt_instance(views(old(hosts)@), instance@),
{
    let ids = entry_ids(hosts);
    let label = build_display_label(instance);
    match find_slot(&ids, instance.id.as_str()) {
        Some(j) => {
            let entry = DesktopHostEntry {
                source: hosts[j].source,
                id: Some(instance.id.clone()),
                label: Some(label),
                url: if blank_url(&hosts[j].url) {
                    Some(String::from_str(PLACEHOLDER_HOST_URL))
                } else {
                    copy_opt_string(&hosts[j].url)
                },
            };
            assert(views(old(hosts)@)[j as int] == old(hosts)@[j as int]@);
            hosts.set(j, entry);
            assert(views(hosts@) =~= views(old(hosts)@).update(j as int, entry@));
        },
        None => {
            let entry = DesktopHostEntry {
                source: None,
                id: Some(instance.id.clone()),
                label: Some(label),
                url: Some(String::from_str(PLACEHOLDER_HOST_URL)),
            };
            proof {
                lemma_views_push(hosts@, entry);
            }
            hosts.push(entry);
        },
    }
}

/// Brings the host list and the default host in line with the instances
/// that are about to be saved. `previous_ids` are the ids of the instances
/// saved before.
pub fn sync_desktop_hosts_for_ssh(
    hosts: &Vec<DesktopHostEntry>,
    default_host_id: Option<String>,
    previous_ids: &Vec<String>,
    instances: &Vec<DesktopSshInstance>,
) -> (r: HostsSync)
    ensures
        views(r.hosts@) == synced_hosts(views(hosts@), texts(previous_ids@), views(instances@)),
        opt_text(r.default_host_id) == synced_default(
            opt_text(default_host_id),
            texts(previous_ids@),
            instance_ids(views(instances@)),
        ),
{
    let next_ids = ids_of(instances);
    let ghost previous = texts(previous_ids@);
    let ghost next = texts(next_ids@);
    let mut kept: Vec<DesktopHostEntry> = Vec::new();
    let mut i: usize = 0;
    assert(views(hosts@).take(0) =~= Seq::<HostEntryView>::empty());
    assert(views(kept@) =~= Seq::<HostEntryView>::empty());
    while i < hosts.len()
        invariant
            i <= hosts.len(),
            previous == texts(previous_ids@),
            next == texts(next_ids@),
            views(kept@) == surviving_hosts(views(hosts@).take(i as int), previous, next),
        decreases hosts.len() - i,
    {
        let ghost upto = views(hosts@).take(i + 1);
        assert(upto.drop_last() =~= views(hosts@).take(i as int));
        assert(upto.last() == hosts@[i as int]@);
        if survives(&hosts[i], previous_ids, &next_ids) {
            let entry = hosts[i].clone();
            proof {
                lemma_views_push(kept@, entry);
            }
            kept.push(entry);
        }
        i += 1;
    }
    assert(views(hosts@).take(hosts.len() as int) =~= views(hosts@));
    let ghost survivors = views(kept@);
    let mut k: usize = 0;
    assert(views(instances@).take(0) =~= Seq::<InstanceView>::empty());
    while k < instances.len()
        invariant
            k <= instances.len(),
            views(kept@) == adopt_instances(survivors, views(instances@).take(k as int)),
        decreases instances.len() - k,
    {
        let ghost upto = views(instances@).take(k + 1);
        assert(upto.drop_last() =~= views(instances@).take(k as int));
        assert(upto.last() == instances@[k as int]@);
        adopt(&mut kept, &instances[k]);
        k += 1;
    }
    assert(views(instances@).take(instances.len() as int) =~= views(instances@));
    let removed = match &default_host_id {
        Some(d) => {
            let key = trimmed_str(d.as_str());
            text_in(previous_ids, &key) && !text_in(&next_ids, &key)
        },
        None => false,
    };
    let default_host_id = if removed {
        Some(String::from_str(LOCAL_HOST_ID))
    } else {
        default_host_id
    };
    HostsSync { hosts: kept, default_host_id }
}

/// What a write of the instances changes in the settings document: the
/// instances as they are saved, and the host list and the default host
/// that go with them.
#[derive(Debug, PartialEq, Eq)]
pub struct InstancesWrite {
    pub instances: Vec<DesktopSshInstance>,
    pub hosts: Vec<DesktopHostEntry>,
    pub default_host_id: Option<String>,
}

/// Plans a write of the instances. `stored` are the instances as the
/// settings document holds them, `hosts` and `default_host_id` its host
/// list and default host, and `config` what is to be saved. The write is
/// refused if the command of an instance of `config` does not validate.
pub fn write_desktop_ssh_instances(
    stored: &Vec<DesktopSshInstance>,
    hosts: &Vec<DesktopHostEntry>,
    default_host_id: Option<String>,
    config: crate::model::DesktopSshInstancesConfig,
) -> (r: Result<InstancesWrite, crate::sanitize::InstanceError>)
    ensures
        match r {
            Ok(w) => {
                &&& crate::sanitize::sanitized_instances(config@) == Ok::<
                    Seq<InstanceView>,
                    crate::sanitize::InstanceFault,
                >(views(w.instances@))
                &&& views(w.hosts@) == synced_hosts(
                    views(hosts@),
                    instance_ids(crate::stored::loaded_instances(views(stored@))),
                    views(w.instances@),
                )
                &&& opt_text(w.default_host_id) == synced_default(
                    opt_text(default_host_id),
                    instance_ids(crate::stored::loaded_instances(views(stored@))),
                    instance_ids(views(w.instances@)),
                )
            },
            Err(e) => crate::sanitize::sanitized_instances(config@) == Err::<
                Seq<InstanceView>,
                crate::sanitize::InstanceFault,
            >(e@),
        },
{
    let previous = crate::stored::read_desktop_ssh_instances(stored);
    let previous_ids = ids_of(&previous.instances);
    match crate::sanitize::sanitize_instances(config) {
        Err(e) => Err(e),
        Ok(saved) => {
            let synced = sync_desktop_hosts_for_ssh(
                hosts,
                default_host_id,
                &previous_ids,
                &saved.instances,
            );
            Ok(
                InstancesWrite {
                    instances: saved.instances,
                    hosts: synced.hosts,
                    default_host_id: synced.default_host_id,
                },
            )
        },
    }
}

/// The host list after the entry of an instance has been given its label
/// and the address of its tunnel: the first entry with the id is updated,
/// or a new entry is added at the end.
pub open spec fn with_host_url(
    hosts: Seq<HostEntryView>,
    id: Seq<char>,
    label: Seq<char>,
    url: Seq<char>,
) -> Seq<HostEntryView> {
    let j = slot_of(host_ids(hosts), id);
    if 0 <= j < hosts.len() {
        hosts.update(
            j,
            HostEntryView { source: hosts[j].source, id: Some(id), label: Some(label), url: Some(url) },
        )
    } else {
        hosts.push(HostEntryView { source: None, id: Some(id), label: Some(label), url: Some(url) })
    }
}

/// Records the address of an instance's tunnel in the host list.
pub fn update_ssh_host_url(
    hosts: &mut Vec<DesktopHostEntry>,
    instance_id: &str,
    label: &str,
    local_url: &str,
)
    ensures
        views(final(hosts)@) == with_host_url(
            views(old(hosts)@),
            instance_id@,
            label@,
            local_url@,
        ),
{
    let ids = entry_ids(hosts);
    match find_slot(&ids, instance_id) {
        Some(j) => {
            let entry = DesktopHostEntry {
                source: hosts[j].source,
                id: Some(String::from_str(instance_id)),
                label: Some(String::from_str(label)),
                url: Some(String::from_str(local_url)),
            };
            assert(views(old(hosts)@)[j as int] == old(hosts)@[j as int]@);
            hosts.set(j, entry);
            assert(views(hosts@) =~= views(old(hosts)@).update(j as int, entry@));
        },
        None => {
            let entry = DesktopHostEntry {
                source: None,
                id: Some(String::from_str(instance_id)),
                label: Some(String::from_str(label)),
                url: Some(String::from_str(local_url)),
            };
            proof {
                lemma_views_push(hosts@, entry);
            }
            hosts.push(entry);
        },
    }
}

/// Finds the stored instance whose preferred local port is to be
/// rewritten: the first one whose id, trimmed, is `instance_id`.
pub fn persist_local_port_for_instance(stored_ids: &Vec<Option<String>>, instance_id: &str) -> (r:
    Option<usize>)
    ensures
        match r {
            Some(j) => slot_of(opt_texts(stored_ids@), instance_id@) == j && j < stored_ids.len(),
            None => slot_of(opt_texts(stored_ids@), instance_id@) == -1,
        },
{
    find_slot(stored_ids, instance_id)
}

} // verus!
