//! Instances as they come out of the settings document.

use vstd::prelude::*;
use vstd::string::StringExecFns;
use crate::command::parse_command;
use crate::command::parse_ssh_command;
use crate::model::DEFAULT_CONNECTION_TIMEOUT_SEC;
use crate::model::DEFAULT_LOCAL_BIND_HOST;
use crate::model::DesktopSshInstance;
use crate::model::DesktopSshInstancesConfig;
use crate::model::InstanceView;
use crate::model::LOCAL_HOST_ID;
use crate::model::LocalForwardView;
use crate::model::lemma_views_push;
use crate::model::views;
use crate::sanitize::has_instance_id;
use crate::sanitize::instance_id_seen;
use crate::sanitize::is_usable_id;
use crate::text::from_chars;
use crate::text::is_text;
use crate::text::trim;
use crate::text::trimmed_str;

verus! {

/// A stored instance made ready for use: its id is trimmed, a missing
/// timeout and a blank bind address get their defaults, and a command that
/// was saved without its parsed form is parsed if it validates.
pub open spec fn loaded_instance(i: InstanceView) -> InstanceView {
    InstanceView {
        id: trim(i.id),
        connection_timeout_sec: if i.connection_timeout_sec == 0 {
            DEFAULT_CONNECTION_TIMEOUT_SEC
        } else {
            i.connection_timeout_sec
        },
        local_forward: LocalForwardView {
            preferred_local_port: i.local_forward.preferred_local_port,
            bind_host: if trim(i.local_forward.bind_host).len() == 0 {
                DEFAULT_LOCAL_BIND_HOST@
            } else {
                i.local_forward.bind_host
            },
        },
        ssh_parsed: match i.ssh_parsed {
            Some(p) => Some(p),
            None => match parse_command(i.ssh_command) {
                Ok(p) => Some(p),
                Err(_) => None,
            },
        },
        ..i
    }
}

/// The stored instances that can be used: those with an id that is
/// neither blank nor reserved, the first of each id only, each made ready.
pub open spec fn loaded_instances(stored: Seq<InstanceView>) -> Seq<InstanceView>
    decreases stored.len(),
{
    if stored.len() == 0 {
        Seq::empty()
    } else {
        let before = loaded_instances(stored.drop_last());
        let id = trim(stored.last().id);
        if !is_usable_id(id) || has_instance_id(before, id) {
            before
        } else {
            before.push(loaded_instance(stored.last()))
        }
    }
}

/// What comes out of the settings document has sound ids.
pub proof fn lemma_loaded_instances_are_sound(stored: Seq<InstanceView>)
    ensures
        crate::sanitize::ids_are_sound(loaded_instances(stored)),
    decreases stored.len(),
{
    if stored.len() > 0 {
        lemma_loaded_instances_are_sound(stored.drop_last());
        crate::text::lemma_trim_shape(stored.last().id);
        let before = loaded_instances(stored.drop_last());
        let loaded = loaded_instances(stored);
        let id = trim(stored.last().id);
        if is_usable_id(id) && !has_instance_id(before, id) {
            assert forall|i: int, j: int|
                0 <= i < loaded.len() && 0 <= j < loaded.len() && i != j implies (
            #[trigger] loaded[i]).id != (#[trigger] loaded[j]).id by {
                if i < before.len() && j < before.len() {
                    assert(loaded[i] == before[i] && loaded[j] == before[j]);
                } else if i < before.len() {
                    assert(loaded[i] == before[i]);
                } else {
                    assert(loaded[j] == before[j]);
                }
            }
            assert forall|i: int| 0 <= i < loaded.len() implies is_usable_id(
                (#[trigger] loaded[i]).id,
            ) && trim(loaded[i].id) == loaded[i].id by {
                if i < before.len() {
                    assert(loaded[i] == before[i]);
                }
            }
        }
    }
}

fn load_instance(stored: &DesktopSshInstance, id: String) -> (r: DesktopSshInstance)
    requires
        id@ == trim(stored@.id),
    ensures
        r@ == loaded_instance(stored@),
{
    let copy = stored.clone();
    let mut local_forward = copy.local_forward;
    if trimmed_str(local_forward.bind_host.as_str()).len() == 0 {
        local_forward.bind_host = String::from_str(DEFAULT_LOCAL_BIND_HOST);
    }
    let ssh_parsed = match copy.ssh_parsed {
        Some(p) => Some(p),
        None => match parse_ssh_command(copy.ssh_command.as_str()) {
            Ok(p) => Some(p),
            Err(_) => None,
        },
    };
    DesktopSshInstance {
        id,
        nickname: copy.nickname,
        ssh_command: copy.ssh_command,
        ssh_parsed,
        connection_timeout_sec: if copy.connection_timeout_sec == 0 {
            DEFAULT_CONNECTION_TIMEOUT_SEC
        } else {
            copy.connection_timeout_sec
        },
        remote_openchamber: copy.remote_openchamber,
        local_forward,
        auth: copy.auth,
        port_forwards: copy.port_forwards,
    }
}

/// Makes the instances of the settings document ready for use.
pub fn read_desktop_ssh_instances(stored: &Vec<DesktopSshInstance>) -> (r:
    DesktopSshInstancesConfig)
    ensures
        r@ == loaded_instances(views(stored@)),
{
    let mut out: Vec<DesktopSshInstance> = Vec::new();
    let mut i: usize = 0;
    assert(views(stored@).take(0) =~= Seq::<InstanceView>::empty());
    assert(views(out@) =~= Seq::<InstanceView>::empty());
    while i < stored.len()
        invariant
            i <= stored.len(),
            views(out@) == loaded_instances(views(stored@).take(i as int)),
        decreases stored.len() - i,
    {
        let ghost upto = views(stored@).take(i + 1);
        assert(upto.drop_last() =~= views(stored@).take(i as int));
        assert(upto.last() == stored@[i as int]@);
        let id = trimmed_str(stored[i].id.as_str());
        if id.len() > 0 && !is_text(&id, LOCAL_HOST_ID) {
            let id_text = from_chars(&id);
            if !instance_id_seen(&out, &id_text) {
                let instance = load_instance(&stored[i], id_text);
                proof {
                    lemma_views_push(out@, instance);
                }
                out.push(instance);
            }
        }
        i += 1;
    }
    assert(views(stored@).take(stored.len() as int) =~= views(stored@));
    DesktopSshInstancesConfig { instances: out }
}

/// An id as a command of the interface may use it: trimmed, and `None`
/// when that leaves nothing or the reserved id of the local machine.
pub open spec fn command_id(id: Seq<char>) -> Option<Seq<char>> {
    if is_usable_id(trim(id)) {
        Some(trim(id))
    } else {
        None
    }
}

/// What a command of the interface is told when its id cannot be used.
pub const ID_REQUIRED: &'static str = "SSH instance id is required";

/// Checks the id that a command of the interface names.
pub fn instance_id_for_command(id: &str) -> (r: Result<String, String>)
    ensures
        match r {
            Ok(t) => command_id(id@) == Some(t@),
            Err(e) => command_id(id@) is None && e@ == ID_REQUIRED@,
        },
{
    let t = trimmed_str(id);
    if t.len() == 0 || is_text(&t, LOCAL_HOST_ID) {
        Err(String::from_str(ID_REQUIRED))
    } else {
        Ok(from_chars(&t))
    }
}

/// The id that a request for statuses names, if it names one: the id,
/// trimmed, unless that leaves nothing.
pub open spec fn status_filter(id: Option<Seq<char>>) -> Option<Seq<char>> {
    match id {
        Some(t) => if trim(t).len() > 0 {
            Some(trim(t))
        } else {
            None
        },
        None => None,
    }
}

/// Reads the id that a request for statuses names; `None` asks for the
/// statuses of all instances.
pub fn desktop_ssh_status_filter(id: Option<&str>) -> (r: Option<String>)
    ensures
        crate::text::opt_text(r) == status_filter(
            match id {
                Some(t) => Some(t@),
                None => None,
            },
        ),
{
    match id {
        Some(t) => {
            let trimmed = trimmed_str(t);
            if trimmed.len() > 0 {
                Some(from_chars(&trimmed))
            } else {
                None
            }
        },
        None => None,
    }
}

} // verus!
