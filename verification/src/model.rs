//! The persisted configuration of an instance and the values derived from it.

use vstd::prelude::*;
use vstd::string::StringExecFns;
use crate::text::opt_text;
use crate::text::texts;

verus! {

/// The reserved host id of the local machine; no instance may use it.
pub const LOCAL_HOST_ID: &'static str = "local";

/// Seconds allowed for the control master to become ready when none are configured.
pub const DEFAULT_CONNECTION_TIMEOUT_SEC: u16 = 60;

/// The address a forward binds to when none, or an unsupported one, is configured.
pub const DEFAULT_LOCAL_BIND_HOST: &'static str = "127.0.0.1";

/// Seconds the control master stays in the background after its last client.
pub const DEFAULT_CONTROL_PERSIST_SEC: u16 = 300;

/// Seconds allowed for the forwarded service to answer.
pub const DEFAULT_READY_TIMEOUT_SEC: u64 = 30;

/// Consecutive reconnect attempts before the supervisor gives up.
pub const DEFAULT_RECONNECT_MAX_ATTEMPTS: u32 = 5;

/// Log lines kept per instance.
pub const MAX_LOG_LINES_PER_INSTANCE: usize = 1200;

/// The view of an optional value that has a view.
pub open spec fn opt_view<T: View>(o: Option<T>) -> Option<T::V> {
    match o {
        Some(t) => Some(t@),
        None => None,
    }
}

/// The views of a sequence of values.
pub open spec fn views<T: View>(s: Seq<T>) -> Seq<T::V> {
    Seq::new(s.len(), |i: int| s[i]@)
}

/// The views of an extended sequence are the extended views.
pub proof fn lemma_views_push<T: View>(s: Seq<T>, x: T)
    ensures
        views(s.push(x)) == views(s).push(x@),
{
    assert(views(s.push(x)) =~= views(s).push(x@));
}

/// The texts of an extended sequence of strings are the extended texts.
pub proof fn lemma_texts_push(s: Seq<String>, x: String)
    ensures
        texts(s.push(x)) == texts(s).push(x@),
{
    assert(texts(s.push(x)) =~= texts(s).push(x@));
}

/// A copy of a vector of strings.
pub fn copy_strings(v: &Vec<String>) -> (r: Vec<String>)
    ensures
        texts(r@) == texts(v@),
{
    let mut r: Vec<String> = Vec::new();
    let mut i: usize = 0;
    while i < v.len()
        invariant
            i <= v.len(),
            texts(r@) == texts(v@).take(i as int),
        decreases v.len() - i,
    {
        proof {
            lemma_texts_push(r@, v@[i as int]);
        }
        r.push(v[i].clone());
        i += 1;
        assert(texts(r@) =~= texts(v@).take(i as int));
    }
    assert(texts(v@).take(v.len() as int) =~= texts(v@));
    r
}

/// A validated SSH command: where to connect, and the options to pass along.
#[derive(Debug, PartialEq, Eq)]
pub struct DesktopSshParsedCommand {
    pub destination: String,
    pub args: Vec<String>,
}

pub struct ParsedCommandView {
    pub destination: Seq<char>,
    pub args: Seq<Seq<char>>,
}

impl View for DesktopSshParsedCommand {
    type V = ParsedCommandView;

    open spec fn view(&self) -> ParsedCommandView {
        ParsedCommandView { destination: self.destination@, args: texts(self.args@) }
    }
}

impl Clone for DesktopSshParsedCommand {
    fn clone(&self) -> (r: Self)
        ensures
            r@ == self@,
    {
        DesktopSshParsedCommand {
            destination: self.destination.clone(),
            args: copy_strings(&self.args),
        }
    }
}

/// Who owns the life cycle of the remote service.
#[derive(Clone, Copy, Debug, PartialEq, Eq, Structural)]
pub enum DesktopSshRemoteMode {
    Managed,
    External,
}

impl Default for DesktopSshRemoteMode {
    fn default() -> (r: Self)
        ensures
            r == DesktopSshRemoteMode::Managed,
    {
        DesktopSshRemoteMode::Managed
    }
}

/// How the remote service gets installed.
#[derive(Clone, Copy, Debug, PartialEq, Eq, Structural)]
pub enum DesktopSshInstallMethod {
    Npm,
    Bun,
    DownloadRelease,
    UploadBundle,
}

impl Default for DesktopSshInstallMethod {
    fn default() -> (r: Self)
        ensures
            r == DesktopSshInstallMethod::Bun,
    {
        DesktopSshInstallMethod::Bun
    }
}

/// The remote service of an instance.
#[derive(Clone, Copy, Debug, PartialEq, Eq)]
pub struct DesktopSshRemoteOpenchamberConfig {
    pub mode: DesktopSshRemoteMode,
    pub keep_running: bool,
    pub preferred_port: Option<u16>,
    pub install_method: DesktopSshInstallMethod,
    pub upload_bundle_over_ssh: bool,
}

impl Default for DesktopSshRemoteOpenchamberConfig {
    fn default() -> (r: Self)
        ensures
            r == (DesktopSshRemoteOpenchamberConfig {
                mode: DesktopSshRemoteMode::Managed,
                keep_running: true,
                preferred_port: None,
                install_method: DesktopSshInstallMethod::Bun,
                upload_bundle_over_ssh: false,
            }),
    {
        DesktopSshRemoteOpenchamberConfig {
            mode: DesktopSshRemoteMode::Managed,
            keep_running: true,
            preferred_port: None,
            install_method: DesktopSshInstallMethod::Bun,
            upload_bundle_over_ssh: false,
        }
    }
}

/// The local end of the anchor forward.
#[derive(Debug, PartialEq, Eq)]
pub struct DesktopSshLocalForwardConfig {
    pub preferred_local_port: Option<u16>,
    pub bind_host: String,
}

pub struct LocalForwardView {
    pub preferred_local_port: Option<u16>,
    pub bind_host: Seq<char>,
}

impl View for DesktopSshLocalForwardConfig {
    type V = LocalForwardView;

    open spec fn view(&self) -> LocalForwardView {
        LocalForwardView {
            preferred_local_port: self.preferred_local_port,
            bind_host: self.bind_host@,
        }
    }
}

impl Clone for DesktopSshLocalForwardConfig {
    fn clone(&self) -> (r: Self)
        ensures
            r@ == self@,
    {
        DesktopSshLocalForwardConfig {
            preferred_local_port: self.preferred_local_port,
            bind_host: self.bind_host.clone(),
        }
    }
}

impl Default for DesktopSshLocalForwardConfig {
    fn default() -> (r: Self)
        ensures
            r@ == (LocalForwardView {
                preferred_local_port: None,
                bind_host: DEFAULT_LOCAL_BIND_HOST@,
            }),
    {
        DesktopSshLocalForwardConfig {
            preferred_local_port: None,
            bind_host: default_local_bind_host(),
        }
    }
}

/// Where a secret may be kept.
#[derive(Clone, Copy, Debug, PartialEq, Eq, Structural)]
pub enum DesktopSshSecretStore {
    Never,
    Settings,
}

impl Default for DesktopSshSecretStore {
    fn default() -> (r: Self)
        ensures
            r == DesktopSshSecretStore::Never,
    {
        DesktopSshSecretStore::Never
    }
}

/// A secret the user may have stored with an instance.
#[derive(Debug, PartialEq, Eq)]
pub struct DesktopSshStoredSecret {
    pub enabled: bool,
    pub value: Option<String>,
    pub store: DesktopSshSecretStore,
}

pub struct StoredSecretView {
    pub enabled: bool,
    pub value: Option<Seq<char>>,
    pub store: DesktopSshSecretStore,
}

impl View for DesktopSshStoredSecret {
    type V = StoredSecretView;

    open spec fn view(&self) -> StoredSecretView {
        StoredSecretView { enabled: self.enabled, value: opt_text(self.value), store: self.store }
    }
}

impl Clone for DesktopSshStoredSecret {
    fn clone(&self) -> (r: Self)
        ensures
            r@ == self@,
    {
        DesktopSshStoredSecret {
            enabled: self.enabled,
            value: copy_opt_string(&self.value),
            store: self.store,
        }
    }
}

/// The secrets of an instance.
#[derive(Debug, PartialEq, Eq)]
pub struct DesktopSshAuthConfig {
    pub ssh_password: Option<DesktopSshStoredSecret>,
    pub openchamber_password: Option<DesktopSshStoredSecret>,
}

pub struct AuthView {
    pub ssh_password: Option<StoredSecretView>,
    pub openchamber_password: Option<StoredSecretView>,
}

impl View for DesktopSshAuthConfig {
    type V = AuthView;

    open spec fn view(&self) -> AuthView {
        AuthView {
            ssh_password: opt_view(self.ssh_password),
            openchamber_password: opt_view(self.openchamber_password),
        }
    }
}

impl Clone for DesktopSshAuthConfig {
    fn clone(&self) -> (r: Self)
        ensures
            r@ == self@,
    {
        DesktopSshAuthConfig {
            ssh_password: copy_opt_secret(&self.ssh_password),
            openchamber_password: copy_opt_secret(&self.openchamber_password),
        }
    }
}

impl Default for DesktopSshAuthConfig {
    fn default() -> (r: Self)
        ensures
            r@ == (AuthView { ssh_password: None, openchamber_password: None }),
    {
        DesktopSshAuthConfig { ssh_password: None, openchamber_password: None }
    }
}

/// The direction of a supplementary forward.
#[derive(Clone, Copy, Debug, PartialEq, Eq, Structural)]
pub enum DesktopSshPortForwardType {
    Local,
    Remote,
    Dynamic,
}

/// A supplementary forward configured by the user.
#[derive(Debug, PartialEq, Eq)]
pub struct DesktopSshPortForward {
    pub id: String,
    pub enabled: bool,
    pub forward_type: DesktopSshPortForwardType,
    pub local_host: Option<String>,
    pub local_port: Option<u16>,
    pub remote_host: Option<String>,
    pub remote_port: Option<u16>,
}

pub struct PortForwardView {
    pub id: Seq<char>,
    pub enabled: bool,
    pub forward_type: DesktopSshPortForwardType,
    pub local_host: Option<Seq<char>>,
    pub local_port: Option<u16>,
    pub remote_host: Option<Seq<char>>,
    pub remote_port: Option<u16>,
}

impl View for DesktopSshPortForward {
    type V = PortForwardView;

    open spec fn view(&self) -> PortForwardView {
        PortForwardView {
            id: self.id@,
            enabled: self.enabled,
            forward_type: self.forward_type,
            local_host: opt_text(self.local_host),
            local_port: self.local_port,
            remote_host: opt_text(self.remote_host),
            remote_port: self.remote_port,
        }
    }
}

impl Clone for DesktopSshPortForward {
    fn clone(&self) -> (r: Self)
        ensures
            r@ == self@,
    {
        DesktopSshPortForward {
            id: self.id.clone(),
            enabled: self.enabled,
            forward_type: self.forward_type,
            local_host: copy_opt_string(&self.local_host),
            local_port: self.local_port,
            remote_host: copy_opt_string(&self.remote_host),
            remote_port: self.remote_port,
        }
    }
}

/// One configured remote target with its tunnel and policy.
#[derive(Debug, PartialEq, Eq)]
pub struct DesktopSshInstance {
    pub id: String,
    pub nickname: Option<String>,
    pub ssh_command: String,
    pub ssh_parsed: Option<DesktopSshParsedCommand>,
    pub connection_timeout_sec: u16,
    pub remote_openchamber: DesktopSshRemoteOpenchamberConfig,
    pub local_forward: DesktopSshLocalForwardConfig,
    pub auth: DesktopSshAuthConfig,
    pub port_forwards: Vec<DesktopSshPortForward>,
}

pub struct InstanceView {
    pub id: Seq<char>,
    pub nickname: Option<Seq<char>>,
    pub ssh_command: Seq<char>,
    pub ssh_parsed: Option<ParsedCommandView>,
    pub connection_timeout_sec: u16,
    pub remote_openchamber: DesktopSshRemoteOpenchamberConfig,
    pub local_forward: LocalForwardView,
    pub auth: AuthView,
    pub port_forwards: Seq<PortForwardView>,
}

impl View for DesktopSshInstance {
    type V = InstanceView;

    open spec fn view(&self) -> InstanceView {
        InstanceView {
            id: self.id@,
            nickname: opt_text(self.nickname),
            ssh_command: self.ssh_command@,
            ssh_parsed: opt_view(self.ssh_parsed),
            connection_timeout_sec: self.connection_timeout_sec,
            remote_openchamber: self.remote_openchamber,
            local_forward: self.local_forward@,
            auth: self.auth@,
            port_forwards: views(self.port_forwards@),
        }
    }
}

impl Clone for DesktopSshInstance {
    fn clone(&self) -> (r: Self)
        ensures
            r@ == self@,
    {
        DesktopSshInstance {
            id: self.id.clone(),
            nickname: copy_opt_string(&self.nickname),
            ssh_command: self.ssh_command.clone(),
            ssh_parsed: match &self.ssh_parsed {
                Some(p) => Some(p.clone()),
                None => None,
            },
            connection_timeout_sec: self.connection_timeout_sec,
            remote_openchamber: self.remote_openchamber,
            local_forward: self.local_forward.clone(),
            auth: self.auth.clone(),
            port_forwards: copy_forwards(&self.port_forwards),
        }
    }
}

/// The instances kept in the settings document.
#[derive(Debug, PartialEq, Eq)]
pub struct DesktopSshInstancesConfig {
    pub instances: Vec<DesktopSshInstance>,
}

impl View for DesktopSshInstancesConfig {
    type V = Seq<InstanceView>;

    open spec fn view(&self) -> Seq<InstanceView> {
        views(self.instances@)
    }
}

impl Clone for DesktopSshInstancesConfig {
    fn clone(&self) -> (r: Self)
        ensures
            r@ == self@,
    {
        DesktopSshInstancesConfig { instances: copy_instances(&self.instances) }
    }
}

impl Default for DesktopSshInstancesConfig {
    fn default() -> (r: Self)
        ensures
            r@ == Seq::<InstanceView>::empty(),
    {
        let r = DesktopSshInstancesConfig { instances: Vec::new() };
        assert(r@ =~= Seq::<InstanceView>::empty());
        r
    }
}

/// A host that an SSH client configuration file names.
#[derive(Debug, PartialEq, Eq)]
pub struct DesktopSshImportCandidate {
    pub host: String,
    pub pattern: bool,
    pub source: String,
    pub ssh_command: String,
}

pub struct ImportCandidateView {
    pub host: Seq<char>,
    pub pattern: bool,
    pub source: Seq<char>,
    pub ssh_command: Seq<char>,
}

impl View for DesktopSshImportCandidate {
    type V = ImportCandidateView;

    open spec fn view(&self) -> ImportCandidateView {
        ImportCandidateView {
            host: self.host@,
            pattern: self.pattern,
            source: self.source@,
            ssh_command: self.ssh_command@,
        }
    }
}

impl Clone for DesktopSshImportCandidate {
    fn clone(&self) -> (r: Self)
        ensures
            r@ == self@,
    {
        DesktopSshImportCandidate {
            host: self.host.clone(),
            pattern: self.pattern,
            source: self.source.clone(),
            ssh_command: self.ssh_command.clone(),
        }
    }
}

/// A copy of an optional string.
pub fn copy_opt_string(o: &Option<String>) -> (r: Option<String>)
    ensures
        opt_text(r) == opt_text(*o),
{
    match o {
        Some(s) => Some(s.clone()),
        None => None,
    }
}

fn copy_opt_secret(o: &Option<DesktopSshStoredSecret>) -> (r: Option<DesktopSshStoredSecret>)
    ensures
        opt_view(r) == opt_view(*o),
{
    match o {
        Some(s) => Some(s.clone()),
        None => None,
    }
}

/// A copy of a list of forwards.
pub fn copy_forwards(v: &Vec<DesktopSshPortForward>) -> (r: Vec<DesktopSshPortForward>)
    ensures
        views(r@) == views(v@),
{
    let mut r: Vec<DesktopSshPortForward> = Vec::new();
    let mut i: usize = 0;
    while i < v.len()
        invariant
            i <= v.len(),
            views(r@) == views(v@).take(i as int),
        decreases v.len() - i,
    {
        let item = v[i].clone();
        proof {
            lemma_views_push(r@, item);
        }
        r.push(item);
        i += 1;
        assert(views(r@) =~= views(v@).take(i as int));
    }
    assert(views(v@).take(v.len() as int) =~= views(v@));
    r
}

/// A copy of a list of instances.
pub fn copy_instances(v: &Vec<DesktopSshInstance>) -> (r: Vec<DesktopSshInstance>)
    ensures
        views(r@) == views(v@),
{
    let mut r: Vec<DesktopSshInstance> = Vec::new();
    let mut i: usize = 0;
    while i < v.len()
        invariant
            i <= v.len(),
            views(r@) == views(v@).take(i as int),
        decreases v.len() - i,
    {
        let item = v[i].clone();
        proof {
            lemma_views_push(r@, item);
        }
        r.push(item);
        i += 1;
        assert(views(r@) =~= views(v@).take(i as int));
    }
    assert(views(v@).take(v.len() as int) =~= views(v@));
    r
}

/// Forwards and secrets are on unless switched off.
pub fn default_true() -> (r: bool)
    ensures
        r,
{
    true
}

/// The connection timeout of an instance that configures none.
pub fn default_connection_timeout() -> (r: u16)
    ensures
        r == DEFAULT_CONNECTION_TIMEOUT_SEC,
{
    DEFAULT_CONNECTION_TIMEOUT_SEC
}

/// The bind address of a forward that configures none.
pub fn default_local_bind_host() -> (r: String)
    ensures
        r@ == DEFAULT_LOCAL_BIND_HOST@,
{
    String::from_str(DEFAULT_LOCAL_BIND_HOST)
}

} // verus!
