//! The four ways the system SSH client is invoked: to resolve the
//! configuration, to start the control master, to operate on it, and to run
//! a command on the remote host over its channel. Arguments are assembled
//! word by word; nothing is interpolated into a local shell.

use vstd::prelude::*;
use vstd::string::StringExecFns;
use crate::hashing::hash_text;
use crate::hashing::text_hash;
use crate::model::DEFAULT_CONTROL_PERSIST_SEC;
use crate::model::DesktopSshParsedCommand;
use crate::model::DesktopSshPortForward;
use crate::model::DesktopSshPortForwardType;
use crate::model::ParsedCommandView;
use crate::model::PortForwardView;
use crate::number::decimal;
use crate::number::hex;
use crate::number::push_decimal;
use crate::number::push_hex;
use crate::shell::push_lit;
use crate::shell::push_quoted;
use crate::shell::push_text;
use crate::shell::push_texts;
use crate::shell::shell_quoted;
use crate::text::from_chars;
use crate::text::lines;
use crate::text::lower;
use crate::text::lowered;
use crate::text::opt_text;
use crate::text::push_chars;
use crate::text::push_str;
use crate::text::rows;
use crate::text::slice;
use crate::text::split_lines;
use crate::text::texts;
use crate::text::to_chars;
use crate::text::trim;
use crate::text::trimmed;
use crate::text::trimmed_str;

verus! {

/// How a finished command ended: its exit code, -1 when it has none, and
/// what it wrote.
#[derive(Debug, PartialEq, Eq)]
pub struct CommandOutcome {
    pub code: i32,
    pub stdout: String,
    pub stderr: String,
}

pub struct CommandOutcomeView {
    pub code: i32,
    pub stdout: Seq<char>,
    pub stderr: Seq<char>,
}

impl View for CommandOutcome {
    type V = CommandOutcomeView;

    open spec fn view(&self) -> CommandOutcomeView {
        CommandOutcomeView { code: self.code, stdout: self.stdout@, stderr: self.stderr@ }
    }
}

/// The arguments of an SSH invocation: the user's options, the session
/// manager's, the destination, and the remote command if there is one.
pub open spec fn ssh_argv(
    parsed: ParsedCommandView,
    pre_destination: Seq<Seq<char>>,
    remote_command: Option<Seq<char>>,
) -> Seq<Seq<char>> {
    parsed.args + pre_destination + seq![parsed.destination] + match remote_command {
        Some(r) => seq![r],
        None => Seq::empty(),
    }
}

/// Assembles the arguments of an SSH invocation.
pub fn build_ssh_command(
    parsed: &DesktopSshParsedCommand,
    pre_destination_args: &Vec<String>,
    remote_command: Option<&str>,
) -> (r: Vec<String>)
    ensures
        texts(r@) == ssh_argv(
            parsed@,
            texts(pre_destination_args@),
            match remote_command {
                Some(c) => Some(c@),
                None => None,
            },
        ),
{
    let mut argv: Vec<String> = Vec::new();
    assert(texts(argv@) =~= Seq::<Seq<char>>::empty());
    push_texts(&mut argv, &parsed.args);
    push_texts(&mut argv, pre_destination_args);
    push_text(&mut argv, parsed.destination.clone());
    match remote_command {
        Some(c) => {
            push_lit(&mut argv, c);
        },
        None => {},
    }
    assert(texts(argv@) =~= ssh_argv(
        parsed@,
        texts(pre_destination_args@),
        match remote_command {
            Some(c) => Some(c@),
            None => None,
        },
    ));
    argv
}

/// The option that names the control socket.
pub open spec fn control_path_option(control_path: Seq<char>) -> Seq<char> {
    "ControlPath="@ + control_path
}

fn push_control_path(argv: &mut Vec<String>, control_path: &str)
    ensures
        texts(final(argv)@) == texts(old(argv)@).push("-o"@).push(control_path_option(control_path@)),
{
    push_lit(argv, "-o");
    push_text(argv, String::from_str("ControlPath=").concat(control_path));
}

/// The arguments that ask for the resolved configuration.
pub open spec fn resolve_args(parsed: ParsedCommandView) -> Seq<Seq<char>> {
    ssh_argv(parsed, seq!["-G"@], None)
}

/// The invocation that resolves the configuration of the destination.
pub fn resolve_ssh_config_args(parsed: &DesktopSshParsedCommand) -> (r: Vec<String>)
    ensures
        texts(r@) == resolve_args(parsed@),
{
    let mut pre: Vec<String> = Vec::new();
    push_lit(&mut pre, "-G");
    assert(texts(pre@) =~= seq!["-G"@]);
    build_ssh_command(parsed, &pre, None)
}

/// The position of the first space of a text, or its length.
pub open spec fn first_space(t: Seq<char>) -> int
    decreases t.len(),
{
    if t.len() == 0 || t[0] == ' ' {
        0
    } else {
        1 + first_space(t.drop_first())
    }
}

/// The keyword and the value that a line of resolved configuration holds:
/// the keyword is what stands before the first space, lowered; the value is
/// the rest. `None` for a line that lacks either.
pub open spec fn resolved_entry(line: Seq<char>) -> Option<(Seq<char>, Seq<char>)> {
    let t = trim(line);
    let n = first_space(t);
    let key = lower(trim(t.take(n)));
    let value = if 0 <= n < t.len() {
        trim(t.skip(n + 1))
    } else {
        Seq::empty()
    };
    if key.len() == 0 || value.len() == 0 {
        None
    } else {
        Some((key, value))
    }
}

/// The entries that the lines hold, in order.
pub open spec fn resolved_entries(ls: Seq<Seq<char>>) -> Seq<(Seq<char>, Seq<char>)>
    decreases ls.len(),
{
    if ls.len() == 0 {
        Seq::empty()
    } else {
        let before = resolved_entries(ls.drop_last());
        match resolved_entry(ls.last()) {
            Some(e) => before.push(e),
            None => before,
        }
    }
}

/// What the answer to the request for the resolved configuration means:
/// the entries it lists, or, when the client failed, what it complained of.
pub open spec fn resolved_config(o: CommandOutcomeView) -> Result<
    Seq<(Seq<char>, Seq<char>)>,
    Seq<char>,
> {
    if o.code != 0 {
        Err(trim(o.stderr))
    } else {
        Ok(resolved_entries(lines(o.stdout)))
    }
}

/// The views of a list of pairs of strings.
pub open spec fn pairs(v: Seq<(String, String)>) -> Seq<(Seq<char>, Seq<char>)> {
    Seq::new(v.len(), |i: int| (v[i].0@, v[i].1@))
}

/// The model of a resolved configuration.
pub open spec fn resolved_view(r: Result<Vec<(String, String)>, String>) -> Result<
    Seq<(Seq<char>, Seq<char>)>,
    Seq<char>,
> {
    match r {
        Ok(v) => Ok(pairs(v@)),
        Err(e) => Err(e@),
    }
}

proof fn lemma_first_space(t: Seq<char>, n: int)
    requires
        0 <= n <= t.len(),
        forall|k: int| 0 <= k < n ==> #[trigger] t[k] != ' ',
        n == t.len() || t[n] == ' ',
    ensures
        first_space(t) == n,
    decreases n,
{
    if n > 0 {
        lemma_first_space(t.drop_first(), n - 1);
    }
}

fn read_resolved_entry(line: &Vec<char>) -> (r: Option<(String, String)>)
    ensures
        match r {
            Some(e) => resolved_entry(line@) == Some((e.0@, e.1@)),
            None => resolved_entry(line@) is None,
        },
{
    let t = trimmed(line);
    let mut n: usize = 0;
    while n < t.len() && t[n] != ' '
        invariant
            n <= t.len(),
            forall|k: int| 0 <= k < n ==> #[trigger] t@[k] != ' ',
        decreases t.len() - n,
    {
        n += 1;
    }
    proof {
        lemma_first_space(t@, n as int);
    }
    let head = slice(&t, 0, n);
    assert(head@ =~= t@.take(n as int));
    let key = lowered(&trimmed(&head));
    let value = if n < t.len() {
        let tail = slice(&t, n + 1, t.len());
        assert(tail@ =~= t@.skip(n + 1));
        trimmed(&tail)
    } else {
        Vec::new()
    };
    if key.len() == 0 || value.len() == 0 {
        None
    } else {
        Some((from_chars(&key), from_chars(&value)))
    }
}

/// Reads the answer to the request for the resolved configuration.
pub fn resolve_ssh_config(outcome: &CommandOutcome) -> (r: Result<Vec<(String, String)>, String>)
    ensures
        resolved_view(r) == resolved_config(outcome@),
{
    if outcome.code != 0 {
        return Err(from_chars(&trimmed_str(outcome.stderr.as_str())));
    }
    let ls = split_lines(&to_chars(outcome.stdout.as_str()));
    let mut out: Vec<(String, String)> = Vec::new();
    let mut i: usize = 0;
    assert(rows(ls@).take(0) =~= Seq::<Seq<char>>::empty());
    assert(pairs(out@) =~= Seq::<(Seq<char>, Seq<char>)>::empty());
    while i < ls.len()
        invariant
            i <= ls.len(),
            pairs(out@) == resolved_entries(rows(ls@).take(i as int)),
        decreases ls.len() - i,
    {
        let ghost upto = rows(ls@).take(i + 1);
        assert(upto.drop_last() =~= rows(ls@).take(i as int));
        assert(upto.last() == ls@[i as int]@);
        match read_resolved_entry(&ls[i]) {
            Some(e) => {
                let ghost before = pairs(out@);
                out.push(e);
                assert(pairs(out@) =~= before.push((e.0@, e.1@)));
            },
            None => {},
        }
        i += 1;
    }
    assert(rows(ls@).take(ls.len() as int) =~= rows(ls@));
    Ok(out)
}

/// The session manager's options when it starts the control master.
pub open spec fn master_options(control_path: Seq<char>) -> Seq<Seq<char>> {
    seq![
        "-o"@,
        "ControlMaster=yes"@,
        "-o"@,
        control_path_option(control_path),
        "-o"@,
        "ControlPersist="@ + decimal(DEFAULT_CONTROL_PERSIST_SEC as nat),
        "-N"@,
    ]
}

/// The secret handed to the prompt helper: the configured one, trimmed,
/// when it is not blank.
pub open spec fn askpass_secret(ssh_password: Option<Seq<char>>) -> Option<Seq<char>> {
    match ssh_password {
        Some(p) => if trim(p).len() > 0 {
            Some(trim(p))
        } else {
            None
        },
        None => None,
    }
}

/// The environment of the control master: the prompt helper is forced, and
/// gets the secret when there is one.
pub open spec fn master_environment(askpass_path: Seq<char>, ssh_password: Option<Seq<char>>)
    -> Seq<(Seq<char>, Seq<char>)> {
    let base = seq![
        ("SSH_ASKPASS_REQUIRE"@, "force"@),
        ("SSH_ASKPASS"@, askpass_path),
        ("DISPLAY"@, "1"@),
    ];
    match askpass_secret(ssh_password) {
        Some(s) => base.push(("OPENCHAMBER_SSH_ASKPASS_VALUE"@, s)),
        None => base,
    }
}

/// How the control master is started.
#[derive(Debug, PartialEq, Eq)]
pub struct MasterLaunch {
    pub argv: Vec<String>,
    pub env: Vec<(String, String)>,
}

/// The invocation that starts the control master.
pub fn spawn_master_process(
    parsed: &DesktopSshParsedCommand,
    control_path: &str,
    askpass_path: &str,
    ssh_password: Option<&str>,
) -> (r: MasterLaunch)
    ensures
        texts(r.argv@) == ssh_argv(parsed@, master_options(control_path@), None),
        pairs(r.env@) == master_environment(
            askpass_path@,
            match ssh_password {
                Some(p) => Some(p@),
                None => None,
            },
        ),
{
    let mut pre: Vec<String> = Vec::new();
    assert(texts(pre@) =~= Seq::<Seq<char>>::empty());
    push_lit(&mut pre, "-o");
    push_lit(&mut pre, "ControlMaster=yes");
    push_control_path(&mut pre, control_path);
    push_lit(&mut pre, "-o");
    let mut persist: Vec<char> = Vec::new();
    push_str(&mut persist, "ControlPersist=");
    push_decimal(&mut persist, DEFAULT_CONTROL_PERSIST_SEC as u64);
    assert(persist@ =~= "ControlPersist="@ + decimal(DEFAULT_CONTROL_PERSIST_SEC as nat));
    push_text(&mut pre, from_chars(&persist));
    push_lit(&mut pre, "-N");
    assert(texts(pre@) =~= master_options(control_path@));
    let argv = build_ssh_command(parsed, &pre, None);
    let mut env: Vec<(String, String)> = Vec::new();
    env.push((String::from_str("SSH_ASKPASS_REQUIRE"), String::from_str("force")));
    env.push((String::from_str("SSH_ASKPASS"), String::from_str(askpass_path)));
    env.push((String::from_str("DISPLAY"), String::from_str("1")));
    match ssh_password {
        Some(p) => {
            let secret = trimmed_str(p);
            if secret.len() > 0 {
                env.push((String::from_str("OPENCHAMBER_SSH_ASKPASS_VALUE"), from_chars(&secret)));
            }
        },
        None => {},
    }
    assert(pairs(env@) =~= master_environment(
        askpass_path@,
        match ssh_password {
            Some(p) => Some(p@),
            None => None,
        },
    ));
    MasterLaunch { argv, env }
}

/// The session manager's options for an operation on the control master.
pub open spec fn operation_options(control_path: Seq<char>, op: Seq<char>) -> Seq<Seq<char>> {
    seq![
        "-o"@,
        "ControlMaster=no"@,
        "-o"@,
        control_path_option(control_path),
        "-o"@,
        "BatchMode=yes"@,
        "-o"@,
        "ConnectTimeout=3"@,
        "-O"@,
        op,
    ]
}

/// The invocation of an operation (`check`, `exit`, `forward`) on the
/// control master. It never prompts and gives up after three seconds.
pub fn control_master_operation(parsed: &DesktopSshParsedCommand, control_path: &str, op: &str)
    -> (r: Vec<String>)
    ensures
        texts(r@) == ssh_argv(parsed@, operation_options(control_path@, op@), None),
{
    let mut pre: Vec<String> = Vec::new();
    assert(texts(pre@) =~= Seq::<Seq<char>>::empty());
    push_lit(&mut pre, "-o");
    push_lit(&mut pre, "ControlMaster=no");
    push_control_path(&mut pre, control_path);
    push_lit(&mut pre, "-o");
    push_lit(&mut pre, "BatchMode=yes");
    push_lit(&mut pre, "-o");
    push_lit(&mut pre, "ConnectTimeout=3");
    push_lit(&mut pre, "-O");
    push_lit(&mut pre, op);
    assert(texts(pre@) =~= operation_options(control_path@, op@));
    build_ssh_command(parsed, &pre, None)
}

/// Whether the answer to `check` shows a live control master: the client
/// ran and exited with success.
pub open spec fn master_answers(outcome: Option<CommandOutcomeView>) -> bool {
    match outcome {
        Some(o) => o.code == 0,
        None => false,
    }
}

/// Whether the answer to `check` shows a live control master. `None`
/// stands for a client that could not be run.
pub fn is_control_master_alive(outcome: Option<&CommandOutcome>) -> (r: bool)
    ensures
        r == master_answers(
            match outcome {
                Some(o) => Some(o@),
                None => None,
            },
        ),
{
    match outcome {
        Some(o) => o.code == 0,
        None => false,
    }
}

/// The invocation that asks the control master to exit.
pub fn stop_control_master_best_effort(parsed: &DesktopSshParsedCommand, control_path: &str) -> (r:
    Vec<String>)
    ensures
        texts(r@) == ssh_argv(parsed@, operation_options(control_path@, "exit"@), None),
{
    control_master_operation(parsed, control_path, "exit")
}

/// The session manager's options when it runs a command on the remote host.
pub open spec fn remote_options(control_path: Seq<char>, timeout_sec: u16) -> Seq<Seq<char>> {
    seq![
        "-o"@,
        "ControlMaster=no"@,
        "-o"@,
        control_path_option(control_path),
        "-o"@,
        "ConnectTimeout="@ + decimal(timeout_sec as nat),
        "-T"@,
    ]
}

/// The remote command that runs a script in a login shell.
pub open spec fn remote_shell_command(script: Seq<char>) -> Seq<char> {
    "sh -lc "@ + shell_quoted(script)
}

/// The invocation that runs a script on the remote host over the control
/// master's channel.
pub fn run_remote_command(
    parsed: &DesktopSshParsedCommand,
    control_path: &str,
    script: &str,
    timeout_sec: u16,
) -> (r: Vec<String>)
    ensures
        texts(r@) == ssh_argv(
            parsed@,
            remote_options(control_path@, timeout_sec),
            Some(remote_shell_command(script@)),
        ),
{
    let mut pre: Vec<String> = Vec::new();
    assert(texts(pre@) =~= Seq::<Seq<char>>::empty());
    push_lit(&mut pre, "-o");
    push_lit(&mut pre, "ControlMaster=no");
    push_control_path(&mut pre, control_path);
    push_lit(&mut pre, "-o");
    let mut timeout: Vec<char> = Vec::new();
    push_str(&mut timeout, "ConnectTimeout=");
    push_decimal(&mut timeout, timeout_sec as u64);
    assert(timeout@ =~= "ConnectTimeout="@ + decimal(timeout_sec as nat));
    push_text(&mut pre, from_chars(&timeout));
    push_lit(&mut pre, "-T");
    assert(texts(pre@) =~= remote_options(control_path@, timeout_sec));
    let mut remote: Vec<char> = Vec::new();
    push_str(&mut remote, "sh -lc ");
    push_quoted(&mut remote, &to_chars(script));
    assert(remote@ =~= remote_shell_command(script@));
    let remote_text = from_chars(&remote);
    build_ssh_command(parsed, &pre, Some(remote_text.as_str()))
}

/// What a finished remote command yields: what it printed, or, when it
/// failed, what it complained of.
pub open spec fn remote_output(o: CommandOutcomeView) -> Result<Seq<char>, Seq<char>> {
    if o.code != 0 {
        if trim(o.stderr).len() == 0 {
            Err("Remote command failed"@)
        } else {
            Err(trim(o.stderr))
        }
    } else {
        Ok(o.stdout)
    }
}

/// The model of the yield of a remote command.
pub open spec fn text_result_view(r: Result<String, String>) -> Result<Seq<char>, Seq<char>> {
    match r {
        Ok(s) => Ok(s@),
        Err(e) => Err(e@),
    }
}

/// Reads the outcome of a remote command.
pub fn remote_command_output(outcome: &CommandOutcome) -> (r: Result<String, String>)
    ensures
        text_result_view(r) == remote_output(outcome@),
{
    if outcome.code != 0 {
        let complaint = trimmed_str(outcome.stderr.as_str());
        if complaint.len() == 0 {
            return Err(String::from_str("Remote command failed"));
        }
        return Err(from_chars(&complaint));
    }
    Ok(outcome.stdout.clone())
}

/// The session manager's options for the anchor forward.
pub open spec fn main_forward_options(
    control_path: Seq<char>,
    bind_host: Seq<char>,
    local_port: u16,
    remote_port: u16,
) -> Seq<Seq<char>> {
    seq![
        "-o"@,
        "ControlMaster=no"@,
        "-o"@,
        control_path_option(control_path),
        "-N"@,
        "-L"@,
        bind_host + ":"@ + decimal(local_port as nat) + ":127.0.0.1:"@ + decimal(remote_port as nat),
    ]
}

/// The invocation that opens the anchor forward.
pub fn spawn_main_forward(
    parsed: &DesktopSshParsedCommand,
    control_path: &str,
    bind_host: &str,
    local_port: u16,
    remote_port: u16,
) -> (r: Vec<String>)
    ensures
        texts(r@) == ssh_argv(
            parsed@,
            main_forward_options(control_path@, bind_host@, local_port, remote_port),
            None,
        ),
{
    let mut pre: Vec<String> = Vec::new();
    assert(texts(pre@) =~= Seq::<Seq<char>>::empty());
    push_lit(&mut pre, "-o");
    push_lit(&mut pre, "ControlMaster=no");
    push_control_path(&mut pre, control_path);
    push_lit(&mut pre, "-N");
    push_lit(&mut pre, "-L");
    let mut spec: Vec<char> = Vec::new();
    push_str(&mut spec, bind_host);
    push_str(&mut spec, ":");
    push_decimal(&mut spec, local_port as u64);
    push_str(&mut spec, ":127.0.0.1:");
    push_decimal(&mut spec, remote_port as u64);
    assert(spec@ =~= bind_host@ + ":"@ + decimal(local_port as nat) + ":127.0.0.1:"@ + decimal(
        remote_port as nat,
    ));
    push_text(&mut pre, from_chars(&spec));
    assert(texts(pre@) =~= main_forward_options(control_path@, bind_host@, local_port, remote_port));
    build_ssh_command(parsed, &pre, None)
}

/// Why a supplementary forward cannot be set up.
#[derive(Clone, Copy, Debug, PartialEq, Eq, Structural)]
pub enum ForwardError {
    MissingLocalPort,
    MissingRemotePort,
}

/// The sentence shown for a forward that cannot be set up.
pub open spec fn forward_error_text(e: ForwardError) -> Seq<char> {
    match e {
        ForwardError::MissingLocalPort => "Missing local port"@,
        ForwardError::MissingRemotePort => "Missing remote port"@,
    }
}

impl ForwardError {
    /// The sentence shown to the user.
    pub fn message(&self) -> (r: String)
        ensures
            r@ == forward_error_text(*self),
    {
        match self {
            ForwardError::MissingLocalPort => String::from_str("Missing local port"),
            ForwardError::MissingRemotePort => String::from_str("Missing remote port"),
        }
    }
}

/// The host of one end of a forward: the configured one, or the loopback
/// address when it is missing or blank.
pub open spec fn endpoint_host(h: Option<Seq<char>>) -> Seq<char> {
    match h {
        Some(v) => if trim(v).len() > 0 {
            v
        } else {
            "127.0.0.1"@
        },
        None => "127.0.0.1"@,
    }
}

/// The flag and the specification that ask the control master for a
/// forward; an error when a port that the direction needs is missing.
pub open spec fn forward_request(f: PortForwardView) -> Result<(Seq<char>, Seq<char>), ForwardError> {
    match f.forward_type {
        DesktopSshPortForwardType::Local => {
            if f.local_port is None {
                Err(ForwardError::MissingLocalPort)
            } else if f.remote_port is None {
                Err(ForwardError::MissingRemotePort)
            } else {
                Ok(
                    (
                        "-L"@,
                        endpoint_host(f.local_host) + ":"@ + decimal(f.local_port->0 as nat) + ":"@
                            + endpoint_host(f.remote_host) + ":"@ + decimal(
                            f.remote_port->0 as nat,
                        ),
                    ),
                )
            }
        },
        DesktopSshPortForwardType::Remote => {
            if f.remote_port is None {
                Err(ForwardError::MissingRemotePort)
            } else if f.local_port is None {
                Err(ForwardError::MissingLocalPort)
            } else {
                Ok(
                    (
                        "-R"@,
                        endpoint_host(f.remote_host) + ":"@ + decimal(f.remote_port->0 as nat)
                            + ":"@ + endpoint_host(f.local_host) + ":"@ + decimal(
                            f.local_port->0 as nat,
                        ),
                    ),
                )
            }
        },
        DesktopSshPortForwardType::Dynamic => {
            if f.local_port is None {
                Err(ForwardError::MissingLocalPort)
            } else {
                Ok(("-D"@, endpoint_host(f.local_host) + ":"@ + decimal(f.local_port->0 as nat)))
            }
        },
    }
}

/// The session manager's options for a supplementary forward: those of
/// the operation `forward`, then what is to be forwarded.
pub open spec fn extra_forward_options(control_path: Seq<char>, flag: Seq<char>, spec: Seq<char>)
    -> Seq<Seq<char>> {
    operation_options(control_path, "forward"@).push(flag).push(spec)
}

/// The arguments that ask the control master for a supplementary forward.
pub open spec fn extra_forward_argv(
    parsed: ParsedCommandView,
    control_path: Seq<char>,
    f: PortForwardView,
) -> Result<Seq<Seq<char>>, ForwardError> {
    match forward_request(f) {
        Ok((flag, spec)) => Ok(
            ssh_argv(parsed, extra_forward_options(control_path, flag, spec), None),
        ),
        Err(e) => Err(e),
    }
}

/// The model of an argument list that may be refused.
pub open spec fn argv_result_view(r: Result<Vec<String>, ForwardError>) -> Result<
    Seq<Seq<char>>,
    ForwardError,
> {
    match r {
        Ok(v) => Ok(texts(v@)),
        Err(e) => Err(e),
    }
}

fn push_endpoint_host(out: &mut Vec<char>, h: &Option<String>)
    ensures
        final(out)@ == old(out)@ + endpoint_host(opt_text(*h)),
{
    match h {
        Some(v) => {
            if trimmed_str(v.as_str()).len() > 0 {
                push_str(out, v.as_str());
            } else {
                push_str(out, "127.0.0.1");
            }
        },
        None => {
            push_str(out, "127.0.0.1");
        },
    }
}

/// The invocation that asks the control master for a supplementary forward.
pub fn spawn_extra_forward(
    parsed: &DesktopSshParsedCommand,
    control_path: &str,
    forward: &DesktopSshPortForward,
) -> (r: Result<Vec<String>, ForwardError>)
    ensures
        argv_result_view(r) == extra_forward_argv(parsed@, control_path@, forward@),
{
    let mut spec: Vec<char> = Vec::new();
    let flag: &str = match forward.forward_type {
        DesktopSshPortForwardType::Local => {
            let local_port = match forward.local_port {
                Some(p) => p,
                None => {
                    return Err(ForwardError::MissingLocalPort);
                },
            };
            let remote_port = match forward.remote_port {
                Some(p) => p,
                None => {
                    return Err(ForwardError::MissingRemotePort);
                },
            };
            push_endpoint_host(&mut spec, &forward.local_host);
            push_str(&mut spec, ":");
            push_decimal(&mut spec, local_port as u64);
            push_str(&mut spec, ":");
            push_endpoint_host(&mut spec, &forward.remote_host);
            push_str(&mut spec, ":");
            push_decimal(&mut spec, remote_port as u64);
            assert(spec@ =~= forward_request(forward@)->Ok_0.1);
            "-L"
        },
        DesktopSshPortForwardType::Remote => {
            let remote_port = match forward.remote_port {
                Some(p) => p,
                None => {
                    return Err(ForwardError::MissingRemotePort);
                },
            };
            let local_port = match forward.local_port {
                Some(p) => p,
                None => {
                    return Err(ForwardError::MissingLocalPort);
                },
            };
            push_endpoint_host(&mut spec, &forward.remote_host);
            push_str(&mut spec, ":");
            push_decimal(&mut spec, remote_port as u64);
            push_str(&mut spec, ":");
            push_endpoint_host(&mut spec, &forward.local_host);
            push_str(&mut spec, ":");
            push_decimal(&mut spec, local_port as u64);
            assert(spec@ =~= forward_request(forward@)->Ok_0.1);
            "-R"
        },
        DesktopSshPortForwardType::Dynamic => {
            let local_port = match forward.local_port {
                Some(p) => p,
                None => {
                    return Err(ForwardError::MissingLocalPort);
                },
            };
            push_endpoint_host(&mut spec, &forward.local_host);
            push_str(&mut spec, ":");
            push_decimal(&mut spec, local_port as u64);
            assert(spec@ =~= forward_request(forward@)->Ok_0.1);
            "-D"
        },
    };
    let mut pre: Vec<String> = Vec::new();
    assert(texts(pre@) =~= Seq::<Seq<char>>::empty());
    push_lit(&mut pre, "-o");
    push_lit(&mut pre, "ControlMaster=no");
    push_control_path(&mut pre, control_path);
    push_lit(&mut pre, "-o");
    push_lit(&mut pre, "BatchMode=yes");
    push_lit(&mut pre, "-o");
    push_lit(&mut pre, "ConnectTimeout=3");
    push_lit(&mut pre, "-O");
    push_lit(&mut pre, "forward");
    push_lit(&mut pre, flag);
    push_text(&mut pre, from_chars(&spec));
    assert(texts(pre@) =~= extra_forward_options(control_path@, flag@, spec@));
    Ok(build_ssh_command(parsed, &pre, None))
}

/// What the answer to a request for a supplementary forward means:
/// nothing, or, when the client failed, a sentence with what it complained
/// of on its error stream or, failing that, on its output.
pub open spec fn extra_forward_verdict(id: Seq<char>, o: CommandOutcomeView) -> Option<Seq<char>> {
    if o.code == 0 {
        None
    } else {
        let detail = if trim(o.stderr).len() == 0 {
            trim(o.stdout)
        } else {
            trim(o.stderr)
        };
        Some(
            "Failed to configure extra SSH forward "@ + id + ": "@ + if detail.len() == 0 {
                "unknown error"@
            } else {
                detail
            },
        )
    }
}

/// Reads the answer to a request for a supplementary forward; `Some` holds
/// the complaint.
pub fn extra_forward_outcome(id: &str, outcome: &CommandOutcome) -> (r: Option<String>)
    ensures
        opt_text(r) == extra_forward_verdict(id@, outcome@),
{
    if outcome.code == 0 {
        return None;
    }
    let mut detail = trimmed_str(outcome.stderr.as_str());
    if detail.len() == 0 {
        detail = trimmed_str(outcome.stdout.as_str());
    }
    let mut out: Vec<char> = Vec::new();
    push_str(&mut out, "Failed to configure extra SSH forward ");
    push_str(&mut out, id);
    push_str(&mut out, ": ");
    if detail.len() == 0 {
        push_str(&mut out, "unknown error");
    } else {
        push_chars(&mut out, &detail);
    }
    assert(out@ =~= extra_forward_verdict(id@, outcome@)->0);
    Some(from_chars(&out))
}

/// The name of the control socket of an instance: short whatever the id,
/// since the path of a socket must be, and the same whenever the id is.
pub open spec fn control_socket_name(instance_id: Seq<char>) -> Seq<char> {
    "ocssh-"@ + hex(text_hash(instance_id) as nat) + ".sock"@
}

/// Names the control socket of an instance.
pub fn control_path_for_instance(instance_id: &str) -> (r: String)
    ensures
        r@ == control_socket_name(instance_id@),
{
    let mut out: Vec<char> = Vec::new();
    push_str(&mut out, "ocssh-");
    push_hex(&mut out, hash_text(instance_id));
    push_str(&mut out, ".sock");
    assert(out@ =~= control_socket_name(instance_id@));
    from_chars(&out)
}

} // verus!
