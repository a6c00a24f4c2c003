//! Sanitisation of instances on their way into and out of the settings
//! document: ids and commands are trimmed, timeouts and bind addresses are
//! coerced, the command is parsed, and duplicates are dropped.

use vstd::prelude::*;
use vstd::string::StringExecFns;
use crate::command::CommandFault;
use crate::command::SshCommandError;
use crate::command::fault_message;
use crate::command::parse_command;
use crate::command::parse_ssh_command;
use crate::model::DEFAULT_CONNECTION_TIMEOUT_SEC;
use crate::model::DEFAULT_LOCAL_BIND_HOST;
use crate::model::DesktopSshInstance;
use crate::model::DesktopSshInstancesConfig;
use crate::model::DesktopSshPortForward;
use crate::model::DesktopSshPortForwardType;
use crate::model::InstanceView;
use crate::model::LOCAL_HOST_ID;
use crate::model::LocalForwardView;
use crate::model::PortForwardView;
use crate::model::copy_opt_string;
use crate::model::lemma_views_push;
use crate::model::opt_view;
use crate::model::views;
use crate::text::from_chars;
use crate::text::is_text;
use crate::text::opt_text;
use crate::text::trim;
use crate::text::trimmed;
use crate::text::trimmed_str;

verus! {

/// The bind address that a configured one is coerced to: itself, trimmed,
/// when it is one of the three supported addresses, else the loopback
/// address.
pub open spec fn bind_host_of(raw: Seq<char>) -> Seq<char> {
    let t = trim(raw);
    if t == "127.0.0.1"@ || t == "localhost"@ || t == "0.0.0.0"@ {
        t
    } else {
        DEFAULT_LOCAL_BIND_HOST@
    }
}

/// Coerces a bind address to one of the supported ones.
pub fn sanitize_bind_host(raw: &str) -> (r: String)
    ensures
        r@ == bind_host_of(raw@),
{
    let t = trimmed_str(raw);
    if is_text(&t, "127.0.0.1") || is_text(&t, "localhost") || is_text(&t, "0.0.0.0") {
        from_chars(&t)
    } else {
        String::from_str(DEFAULT_LOCAL_BIND_HOST)
    }
}

/// Whether an optional host is missing or blank.
pub open spec fn host_is_blank(h: Option<Seq<char>>) -> bool {
    match h {
        Some(v) => trim(v).len() == 0,
        None => true,
    }
}

/// The remote host of a forward, with the loopback address in place of a
/// missing or blank one.
pub open spec fn remote_host_of(h: Option<Seq<char>>) -> Option<Seq<char>> {
    if host_is_blank(h) {
        Some("127.0.0.1"@)
    } else {
        h
    }
}

/// What a supplementary forward is normalised to; `None` when it lacks an
/// id or a port that its direction needs.
pub open spec fn sanitized_forward(f: PortForwardView) -> Option<PortForwardView> {
    let id = trim(f.id);
    let local_host = Some(
        match f.local_host {
            Some(v) => bind_host_of(v),
            None => DEFAULT_LOCAL_BIND_HOST@,
        },
    );
    if id.len() == 0 {
        None
    } else {
        match f.forward_type {
            DesktopSshPortForwardType::Local | DesktopSshPortForwardType::Remote => {
                if f.local_port is None || f.remote_port is None {
                    None
                } else {
                    Some(
                        PortForwardView {
                            id,
                            enabled: f.enabled,
                            forward_type: f.forward_type,
                            local_host,
                            local_port: f.local_port,
                            remote_host: remote_host_of(f.remote_host),
                            remote_port: f.remote_port,
                        },
                    )
                }
            },
            DesktopSshPortForwardType::Dynamic => {
                if f.local_port is None {
                    None
                } else {
                    Some(
                        PortForwardView {
                            id,
                            enabled: f.enabled,
                            forward_type: f.forward_type,
                            local_host,
                            local_port: f.local_port,
                            remote_host: None,
                            remote_port: None,
                        },
                    )
                }
            },
        }
    }
}

fn is_blank_host(h: &Option<String>) -> (r: bool)
    ensures
        r == host_is_blank(opt_text(*h)),
{
    match h {
        Some(v) => trimmed_str(v.as_str()).len() == 0,
        None => true,
    }
}

/// Normalises a supplementary forward; `None` when it cannot be used.
pub fn sanitize_forward(forward: &DesktopSshPortForward) -> (r: Option<DesktopSshPortForward>)
    ensures
        opt_view(r) == sanitized_forward(forward@),
{
    let id = trimmed_str(forward.id.as_str());
    if id.len() == 0 {
        return None;
    }
    let local_host = Some(
        match &forward.local_host {
            Some(v) => sanitize_bind_host(v.as_str()),
            None => String::from_str(DEFAULT_LOCAL_BIND_HOST),
        },
    );
    match forward.forward_type {
        DesktopSshPortForwardType::Local | DesktopSshPortForwardType::Remote => {
            if forward.local_port.is_none() || forward.remote_port.is_none() {
                return None;
            }
            let remote_host = if is_blank_host(&forward.remote_host) {
                Some(String::from_str("127.0.0.1"))
            } else {
                copy_opt_string(&forward.remote_host)
            };
            Some(
                DesktopSshPortForward {
                    id: from_chars(&id),
                    enabled: forward.enabled,
                    forward_type: forward.forward_type,
                    local_host,
                    local_port: forward.local_port,
                    remote_host,
                    remote_port: forward.remote_port,
                },
            )
        },
        DesktopSshPortForwardType::Dynamic => {
            if forward.local_port.is_none() {
                return None;
            }
            Some(
                DesktopSshPortForward {
                    id: from_chars(&id),
                    enabled: forward.enabled,
                    forward_type: forward.forward_type,
                    local_host,
                    local_port: forward.local_port,
                    remote_host: None,
                    remote_port: None,
                },
            )
        },
    }
}

/// Whether a forward with this id is in the list.
pub open spec fn has_forward_id(fs: Seq<PortForwardView>, id: Seq<char>) -> bool {
    exists|i: int| 0 <= i < fs.len() && (#[trigger] fs[i]).id == id
}

/// The usable forwards of a list, normalised, the first of each id only.
pub open spec fn sanitized_forwards(fs: Seq<PortForwardView>) -> Seq<PortForwardView>
    decreases fs.len(),
{
    if fs.len() == 0 {
        Seq::empty()
    } else {
        let before = sanitized_forwards(fs.drop_last());
        match sanitized_forward(fs.last()) {
            Some(n) => if has_forward_id(before, n.id) {
                before
            } else {
                before.push(n)
            },
            None => before,
        }
    }
}

fn forward_id_seen(fs: &Vec<DesktopSshPortForward>, id: &String) -> (r: bool)
    ensures
        r == has_forward_id(views(fs@), id@),
{
    let mut i: usize = 0;
    while i < fs.len()
        invariant
            i <= fs.len(),
            forall|k: int| 0 <= k < i ==> (#[trigger] views(fs@)[k]).id != id@,
        decreases fs.len() - i,
    {
        if fs[i].id == *id {
            assert(views(fs@)[i as int].id == id@);
            return true;
        }
        i += 1;
    }
    false
}

fn sanitize_forwards(fs: &Vec<DesktopSshPortForward>) -> (r: Vec<DesktopSshPortForward>)
    ensures
        views(r@) == sanitized_forwards(views(fs@)),
{
    let mut out: Vec<DesktopSshPortForward> = Vec::new();
    let mut i: usize = 0;
    assert(views(fs@).take(0) =~= Seq::<PortForwardView>::empty());
    assert(views(out@) =~= Seq::<PortForwardView>::empty());
    while i < fs.len()
        invariant
            i <= fs.len(),
            views(out@) == sanitized_forwards(views(fs@).take(i as int)),
        decreases fs.len() - i,
    {
        let ghost upto = views(fs@).take(i + 1);
        assert(upto.drop_last() =~= views(fs@).take(i as int));
        assert(upto.last() == fs@[i as int]@);
        match sanitize_forward(&fs[i]) {
            Some(n) => {
                if !forward_id_seen(&out, &n.id) {
                    proof {
                        lemma_views_push(out@, n);
                    }
                    out.push(n);
                }
            },
            None => {},
        }
        i += 1;
    }
    assert(views(fs@).take(fs.len() as int) =~= views(fs@));
    out
}

/// Why an instance cannot be saved.
#[derive(Debug, PartialEq, Eq)]
pub enum InstanceError {
    /// The id is empty or the reserved id of the local machine.
    IdRequired,
    /// The command is empty.
    CommandRequired,
    /// The command does not validate.
    Command(SshCommandError),
}

pub enum InstanceFault {
    IdRequired,
    CommandRequired,
    Command(CommandFault),
}

impl View for InstanceError {
    type V = InstanceFault;

    open spec fn view(&self) -> InstanceFault {
        match self {
            InstanceError::IdRequired => InstanceFault::IdRequired,
            InstanceError::CommandRequired => InstanceFault::CommandRequired,
            InstanceError::Command(e) => InstanceFault::Command(e@),
        }
    }
}

/// The sentence shown to the user for an instance that cannot be saved.
pub open spec fn instance_fault_message(f: InstanceFault) -> Seq<char> {
    match f {
        InstanceFault::IdRequired => "SSH instance id is required"@,
        InstanceFault::CommandRequired => "SSH command is required"@,
        InstanceFault::Command(e) => fault_message(e),
    }
}

impl InstanceError {
    /// The sentence shown to the user.
    pub fn message(&self) -> (r: String)
        ensures
            r@ == instance_fault_message(self@),
    {
        match self {
            InstanceError::IdRequired => String::from_str("SSH instance id is required"),
            InstanceError::CommandRequired => String::from_str("SSH command is required"),
            InstanceError::Command(e) => e.message(),
        }
    }
}

/// Whether a trimmed id can name an instance: it is neither empty nor the
/// reserved id of the local machine.
pub open spec fn is_usable_id(id: Seq<char>) -> bool {
    id.len() > 0 && id != LOCAL_HOST_ID@
}

/// What an instance is sanitised to on its way into the settings document.
pub open spec fn sanitized_instance(i: InstanceView) -> Result<InstanceView, InstanceFault> {
    let id = trim(i.id);
    let command = trim(i.ssh_command);
    if !is_usable_id(id) {
        Err(InstanceFault::IdRequired)
    } else if command.len() == 0 {
        Err(InstanceFault::CommandRequired)
    } else {
        match parse_command(command) {
            Err(e) => Err(InstanceFault::Command(e)),
            Ok(parsed) => Ok(
                InstanceView {
                    id,
                    nickname: i.nickname,
                    ssh_command: command,
                    ssh_parsed: Some(parsed),
                    connection_timeout_sec: if i.connection_timeout_sec == 0 {
                        DEFAULT_CONNECTION_TIMEOUT_SEC
                    } else {
                        i.connection_timeout_sec
                    },
                    remote_openchamber: i.remote_openchamber,
                    local_forward: LocalForwardView {
                        preferred_local_port: i.local_forward.preferred_local_port,
                        bind_host: bind_host_of(i.local_forward.bind_host),
                    },
                    auth: i.auth,
                    port_forwards: sanitized_forwards(i.port_forwards),
                },
            ),
        }
    }
}

/// The model of a sanitisation result.
pub open spec fn instance_result_view(r: Result<DesktopSshInstance, InstanceError>) -> Result<
    InstanceView,
    InstanceFault,
> {
    match r {
        Ok(i) => Ok(i@),
        Err(e) => Err(e@),
    }
}

/// Sanitises an instance before it is saved: trims its id and command,
/// applies the defaults, parses the command and normalises the forwards.
pub fn sanitize_instance(instance: DesktopSshInstance) -> (r: Result<
    DesktopSshInstance,
    InstanceError,
>)
    ensures
        instance_result_view(r) == sanitized_instance(instance@),
{
    let id = trimmed_str(instance.id.as_str());
    if id.len() == 0 || is_text(&id, LOCAL_HOST_ID) {
        return Err(InstanceError::IdRequired);
    }
    let command = trimmed_str(instance.ssh_command.as_str());
    if command.len() == 0 {
        return Err(InstanceError::CommandRequired);
    }
    let command_text = from_chars(&command);
    let parsed = match parse_ssh_command(command_text.as_str()) {
        Ok(p) => p,
        Err(e) => {
            return Err(InstanceError::Command(e));
        },
    };
    let forwards = sanitize_forwards(&instance.port_forwards);
    let bind_host = sanitize_bind_host(instance.local_forward.bind_host.as_str());
    let mut local_forward = instance.local_forward;
    local_forward.bind_host = bind_host;
    Ok(
        DesktopSshInstance {
            id: from_chars(&id),
            nickname: instance.nickname,
            ssh_command: command_text,
            ssh_parsed: Some(parsed),
            connection_timeout_sec: if instance.connection_timeout_sec == 0 {
                DEFAULT_CONNECTION_TIMEOUT_SEC
            } else {
                instance.connection_timeout_sec
            },
            remote_openchamber: instance.remote_openchamber,
            local_forward,
            auth: instance.auth,
            port_forwards: forwards,
        },
    )
}

/// Whether an instance with this id is in the list.
pub open spec fn has_instance_id(list: Seq<InstanceView>, id: Seq<char>) -> bool {
    exists|i: int| 0 <= i < list.len() && (#[trigger] list[i]).id == id
}

/// What a list of instances is saved as: each one sanitised, the first of
/// each id only. An instance without a usable id or without a command is
/// dropped; the first instance whose command does not validate refuses the
/// whole list.
pub open spec fn sanitized_instances(list: Seq<InstanceView>) -> Result<
    Seq<InstanceView>,
    InstanceFault,
>
    decreases list.len(),
{
    if list.len() == 0 {
        Ok(Seq::empty())
    } else {
        match sanitized_instances(list.drop_last()) {
            Err(e) => Err(e),
            Ok(before) => match sanitized_instance(list.last()) {
                Err(InstanceFault::Command(e)) => Err(InstanceFault::Command(e)),
                Err(_) => Ok(before),
                Ok(n) => if has_instance_id(before, n.id) {
                    Ok(before)
                } else {
                    Ok(before.push(n))
                },
            },
        }
    }
}

/// The ids of a list are usable, trimmed, and all different: the reserved
/// id of the local machine is not among them.
pub open spec fn ids_are_sound(list: Seq<InstanceView>) -> bool {
    &&& forall|i: int|
        0 <= i < list.len() ==> is_usable_id((#[trigger] list[i]).id) && trim(list[i].id)
            == list[i].id
    &&& forall|i: int, j: int|
        0 <= i < list.len() && 0 <= j < list.len() && i != j ==> (#[trigger] list[i]).id != (
        #[trigger] list[j]).id
}

/// What is saved has sound ids, and every instance of it has its command
/// parsed.
pub proof fn lemma_saved_instances_are_sound(list: Seq<InstanceView>)
    requires
        sanitized_instances(list) is Ok,
    ensures
        ids_are_sound(sanitized_instances(list)->Ok_0),
        forall|i: int|
            0 <= i < sanitized_instances(list)->Ok_0.len() ==> (#[trigger] sanitized_instances(
                list,
            )->Ok_0[i]).ssh_parsed is Some,
    decreases list.len(),
{
    if list.len() > 0 {
        lemma_saved_instances_are_sound(list.drop_last());
        crate::text::lemma_trim_shape(list.last().id);
        let before = sanitized_instances(list.drop_last())->Ok_0;
        let saved = sanitized_instances(list)->Ok_0;
        let n = sanitized_instance(list.last())->Ok_0;
        if !has_instance_id(before, n.id) {
            assert forall|i: int, j: int|
                0 <= i < saved.len() && 0 <= j < saved.len() && i != j implies (
            #[trigger] saved[i]).id != (#[trigger] saved[j]).id by {
                if i < before.len() && j < before.len() {
                    assert(saved[i] == before[i] && saved[j] == before[j]);
                } else if i < before.len() {
                    assert(saved[i] == before[i]);
                } else {
                    assert(saved[j] == before[j]);
                }
            }
            assert forall|i: int| 0 <= i < saved.len() implies is_usable_id(
                (#[trigger] saved[i]).id,
            ) && trim(saved[i].id) == saved[i].id && saved[i].ssh_parsed is Some by {
                if i < before.len() {
                    assert(saved[i] == before[i]);
                }
            }
        }
    }
}

/// Whether an instance with this id is in the list.
pub fn instance_id_seen(list: &Vec<DesktopSshInstance>, id: &String) -> (r: bool)
    ensures
        r == has_instance_id(views(list@), id@),
{
    let mut i: usize = 0;
    while i < list.len()
        invariant
            i <= list.len(),
            forall|k: int| 0 <= k < i ==> (#[trigger] views(list@)[k]).id != id@,
        decreases list.len() - i,
    {
        if list[i].id == *id {
            assert(views(list@)[i as int].id == id@);
            return true;
        }
        i += 1;
    }
    false
}

/// The model of the result of saving a list.
pub open spec fn instances_result_view(r: Result<DesktopSshInstancesConfig, InstanceError>)
    -> Result<Seq<InstanceView>, InstanceFault> {
    match r {
        Ok(c) => Ok(c@),
        Err(e) => Err(e@),
    }
}

/// Sanitises the list of instances that is about to be saved. Instances
/// that lack an id or a command are left out; a command that does not
/// validate refuses the list.
pub fn sanitize_instances(config: DesktopSshInstancesConfig) -> (r: Result<
    DesktopSshInstancesConfig,
    InstanceError,
>)
    ensures
        instances_result_view(r) == sanitized_instances(config@),
{
    let ghost all = config@;
    let mut items = config.instances;
    let mut out: Vec<DesktopSshInstance> = Vec::new();
    let mut i: usize = 0;
    let n = items.len();
    assert(all.take(0) =~= Seq::<InstanceView>::empty());
    assert(views(out@) =~= Seq::<InstanceView>::empty());
    while i < n
        invariant
            i <= n,
            n == items.len(),
            all == config@,
            all.len() == n,
            forall|k: int| i <= k < n ==> (#[trigger] items@[k])@ == all[k],
            sanitized_instances(all.take(i as int)) == Ok::<Seq<InstanceView>, InstanceFault>(
                views(out@),
            ),
        decreases n - i,
    {
        let ghost upto = all.take(i + 1);
        assert(upto.drop_last() =~= all.take(i as int));
        assert(upto.last() == all[i as int]);
        let item = take_instance(&mut items, i);
        match sanitize_instance(item) {
            Ok(normal) => {
                if !instance_id_seen(&out, &normal.id) {
                    proof {
                        lemma_views_push(out@, normal);
                    }
                    out.push(normal);
                }
            },
            Err(InstanceError::Command(e)) => {
                let refusal = InstanceError::Command(e);
                proof {
                    assert(sanitized_instance(upto.last()) == Err::<InstanceView, InstanceFault>(
                        refusal@,
                    ));
                    assert(sanitized_instances(upto) == Err::<Seq<InstanceView>, InstanceFault>(
                        refusal@,
                    ));
                    lemma_sanitized_instances_fails(all, i + 1);
                }
                return Err(refusal);
            },
            Err(_) => {},
        }
        i += 1;
    }
    assert(all.take(n as int) =~= all);
    Ok(DesktopSshInstancesConfig { instances: out })
}

/// Once a prefix of the list is refused, the whole list is refused for the
/// same reason.
pub proof fn lemma_sanitized_instances_fails(list: Seq<InstanceView>, k: int)
    requires
        0 <= k <= list.len(),
        sanitized_instances(list.take(k)) is Err,
    ensures
        sanitized_instances(list) == sanitized_instances(list.take(k)),
    decreases list.len() - k,
{
    if k == list.len() {
        assert(list.take(k) =~= list);
    } else {
        assert(list.drop_last().take(k) =~= list.take(k));
        lemma_sanitized_instances_fails(list.drop_last(), k);
    }
}

/// Moves the `i`th instance out of the list, leaving a blank one behind.
fn take_instance(items: &mut Vec<DesktopSshInstance>, i: usize) -> (r: DesktopSshInstance)
    requires
        i < old(items).len(),
    ensures
        r == old(items)@[i as int],
        final(items).len() == old(items).len(),
        forall|k: int| 0 <= k < old(items).len() && k != i ==> final(items)@[k] == old(items)@[k],
{
    let blank = DesktopSshInstance {
        id: String::new(),
        nickname: None,
        ssh_command: String::new(),
        ssh_parsed: None,
        connection_timeout_sec: 0,
        remote_openchamber: crate::model::DesktopSshRemoteOpenchamberConfig {
            mode: crate::model::DesktopSshRemoteMode::Managed,
            keep_running: true,
            preferred_port: None,
            install_method: crate::model::DesktopSshInstallMethod::Bun,
            upload_bundle_over_ssh: false,
        },
        local_forward: crate::model::DesktopSshLocalForwardConfig {
            preferred_local_port: None,
            bind_host: String::new(),
        },
        auth: crate::model::DesktopSshAuthConfig { ssh_password: None, openchamber_password: None },
        port_forwards: Vec::new(),
    };
    items.push(blank);
    items.swap_remove(i)
}

} // verus!
