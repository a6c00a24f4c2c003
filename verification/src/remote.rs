//! The scripts that run on the remote host, and what their output means:
//! whether a tool is installed, which version of the service is there, how
//! to install it, start it and stop it.

use vstd::prelude::*;
use vstd::string::StringExecFns;
use crate::executor::CommandOutcome;
use crate::executor::CommandOutcomeView;
use crate::executor::remote_command_output;
use crate::executor::remote_output;
use crate::model::DesktopSshInstallMethod;
use crate::model::DesktopSshInstance;
use crate::model::InstanceView;
use crate::number::decimal;
use crate::number::parse_u16;
use crate::number::push_decimal;
use crate::number::read_u16;
use crate::probe::interpret_probe_output;
use crate::probe::parse_version_token;
use crate::probe::probe_outcome;
use crate::probe::version_token;
use crate::shell::push_quoted;
use crate::shell::push_text;
use crate::shell::shell_quoted;
use crate::text::from_chars;
use crate::text::is_text;
use crate::text::opt_text;
use crate::text::push_str;
use crate::text::rows;
use crate::text::split_words;
use crate::text::texts;
use crate::text::to_chars;
use crate::text::trim;
use crate::text::trimmed_str;
use crate::text::words;

verus! {

/// The script that tells whether a tool is on the remote path.
pub open spec fn command_probe_script(name: Seq<char>) -> Seq<char> {
    "command -v "@ + name + " >/dev/null 2>&1 && echo yes || echo no"@
}

/// The script that tells whether a tool is on the remote path.
pub fn remote_command_exists_script(command_name: &str) -> (r: String)
    ensures
        r@ == command_probe_script(command_name@),
{
    String::from_str("command -v ").concat(command_name).concat(
        " >/dev/null 2>&1 && echo yes || echo no",
    )
}

/// Whether the answer of the script shows that the tool is there: the
/// command ran with success and printed `yes`.
pub open spec fn command_found(outcome: Option<CommandOutcomeView>) -> bool {
    match outcome {
        Some(o) => match remote_output(o) {
            Ok(out) => trim(out) == "yes"@,
            Err(_) => false,
        },
        None => false,
    }
}

/// The model of an outcome that may be missing.
pub open spec fn outcome_view(o: Option<&CommandOutcome>) -> Option<CommandOutcomeView> {
    match o {
        Some(v) => Some(v@),
        None => None,
    }
}

/// Whether a tool is on the remote path, from the answer of the script.
/// `None` stands for a client that could not be run.
pub fn remote_command_exists(outcome: Option<&CommandOutcome>) -> (r: bool)
    ensures
        r == command_found(outcome_view(outcome)),
{
    match outcome {
        Some(o) => match remote_command_output(o) {
            Ok(out) => is_text(&trimmed_str(out.as_str()), "yes"),
            Err(_) => false,
        },
        None => false,
    }
}

/// The script that prints the version of the installed service.
pub const VERSION_SCRIPT: &'static str = "openchamber --version 2>/dev/null || true";

/// The version that the answer of the version script reports.
pub open spec fn reported_version(outcome: Option<CommandOutcomeView>) -> Option<Seq<char>> {
    match outcome {
        Some(o) => match remote_output(o) {
            Ok(out) => version_token(out),
            Err(_) => None,
        },
        None => None,
    }
}

/// The version of the service installed on the remote host, from the
/// answer of the version script; `None` when there is none to be found.
pub fn current_remote_openchamber_version(outcome: Option<&CommandOutcome>) -> (r: Option<String>)
    ensures
        opt_text(r) == reported_version(outcome_view(outcome)),
{
    match outcome {
        Some(o) => match remote_command_output(o) {
            Ok(out) => parse_version_token(out.as_str()),
            Err(_) => None,
        },
        None => None,
    }
}

/// The command that installs a version of the service with bun.
pub open spec fn bun_install_command(version: Seq<char>) -> Seq<char> {
    "bun add -g @openchamber/web@"@ + version
}

/// The command that installs a version of the service with npm.
pub open spec fn npm_install_command(version: Seq<char>) -> Seq<char> {
    "npm install -g @openchamber/web@"@ + version
}

/// The install commands to try, in order: one for each package manager
/// that the remote host has, npm first only when npm is the preferred
/// method.
pub open spec fn install_commands(
    version: Seq<char>,
    preferred: DesktopSshInstallMethod,
    has_bun: bool,
    has_npm: bool,
) -> Seq<Seq<char>> {
    let bun = if has_bun {
        seq![bun_install_command(version)]
    } else {
        Seq::empty()
    };
    let npm = if has_npm {
        seq![npm_install_command(version)]
    } else {
        Seq::empty()
    };
    if preferred == DesktopSshInstallMethod::Npm {
        npm + bun
    } else {
        bun + npm
    }
}

/// The remote host has no package manager that can install the service.
#[derive(Clone, Copy, Debug, PartialEq, Eq, Structural)]
pub struct NoRemotePackageManager;

/// The install commands to try in order, or the refusal owed to a host
/// that has neither package manager.
pub fn install_openchamber_managed(
    version: &str,
    preferred: DesktopSshInstallMethod,
    has_bun: bool,
    has_npm: bool,
) -> (r: Result<Vec<String>, NoRemotePackageManager>)
    ensures
        r is Err <==> !has_bun && !has_npm,
        r matches Ok(v) ==> texts(v@) == install_commands(version@, preferred, has_bun, has_npm),
{
    let mut commands: Vec<String> = Vec::new();
    assert(texts(commands@) =~= Seq::<Seq<char>>::empty());
    let npm_first = match preferred {
        DesktopSshInstallMethod::Npm => true,
        _ => false,
    };
    if npm_first && has_npm {
        push_text(&mut commands, String::from_str("npm install -g @openchamber/web@").concat(version));
    }
    if has_bun {
        push_text(&mut commands, String::from_str("bun add -g @openchamber/web@").concat(version));
    }
    if !npm_first && has_npm {
        push_text(&mut commands, String::from_str("npm install -g @openchamber/web@").concat(version));
    }
    assert(texts(commands@) =~= install_commands(version@, preferred, has_bun, has_npm));
    if commands.len() == 0 {
        Err(NoRemotePackageManager)
    } else {
        Ok(commands)
    }
}

/// The password of the service's interface that the instance configures:
/// the stored one, trimmed, when it is enabled and not blank.
pub open spec fn configured_password(i: InstanceView) -> Option<Seq<char>> {
    match i.auth.openchamber_password {
        Some(secret) => if secret.enabled && secret.value is Some && trim(secret.value->0).len()
            > 0 {
            Some(trim(secret.value->0))
        } else {
            None
        },
        None => None,
    }
}

/// The password of the service's interface that the instance configures.
pub fn configured_openchamber_password(instance: &DesktopSshInstance) -> (r: Option<String>)
    ensures
        opt_text(r) == configured_password(instance@),
{
    match &instance.auth.openchamber_password {
        Some(secret) => {
            if !secret.enabled {
                return None;
            }
            match &secret.value {
                Some(v) => {
                    let t = trimmed_str(v.as_str());
                    if t.len() > 0 {
                        Some(from_chars(&t))
                    } else {
                        None
                    }
                },
                None => None,
            }
        },
        None => None,
    }
}

/// The error of `serde_json`, kept opaque.
#[verifier::external_type_specification]
#[verifier::external_body]
pub struct ExJsonError(serde_json::Error);

/// The JSON text of an object with one member whose value is a string, as
/// `serde_json::to_string` writes it; `None` where it reports an error.
pub uninterp spec fn json_object_text(key: Seq<char>, value: Seq<char>) -> Option<Seq<char>>;

/// Serialises, with `serde_json::to_string`, the JSON object that has the
/// one member `key` with the string `value`. The contract gives the outcome
/// a name and claims nothing of it but that it depends on the key and the
/// value alone.
#[verifier::external_body]
fn json_object(key: &str, value: &str) -> (r: Result<String, serde_json::Error>)
    ensures
        match r {
            Ok(s) => json_object_text(key@, value@) == Some(s@),
            Err(_) => json_object_text(key@, value@) is None,
        },
{
    let mut members = serde_json::Map::new();
    members.insert(String::from(key), serde_json::Value::String(String::from(value)));
    serde_json::to_string(&serde_json::Value::Object(members))
}

/// The body of the login request: the JSON object that carries the
/// password, or an empty object when there is no password or it cannot be
/// written.
pub open spec fn login_payload(password: Option<Seq<char>>) -> Seq<char> {
    match password {
        Some(p) => match json_object_text("password"@, p) {
            Some(text) => text,
            None => "{}"@,
        },
        None => "{}"@,
    }
}

pub const PROBE_PART_0: &'static str =
    "AUTH_STATUS=0; INFO_STATUS=0; HEALTH_STATUS=0; BODY_FILE=\"$(mktemp)\"; COOKIE_FILE=\"$(mktemp)\"; cleanup() { rm -f \"$BODY_FILE\" \"$COOKIE_FILE\"; }; trap cleanup EXIT; if command -v curl >/dev/null 2>&1; then if [ \"";

pub const PROBE_PART_1: &'static str =
    "\" = \"1\" ]; then AUTH_STATUS=\"$(curl -sS --max-time 3 -o /dev/null -w '%{http_code}' -c \"$COOKIE_FILE\" -H 'content-type: application/json' --data ";

pub const PROBE_PART_2: &'static str = " http://127.0.0.1:";

pub const PROBE_PART_3: &'static str =
    "/auth/session || true)\"; if [ \"$AUTH_STATUS\" = \"200\" ]; then INFO_STATUS=\"$(curl -sS --max-time 3 -b \"$COOKIE_FILE\" -o \"$BODY_FILE\" -w '%{http_code}' http://127.0.0.1:";

pub const PROBE_PART_4: &'static str =
    "/api/system/info || true)\"; else INFO_STATUS=\"$(curl -sS --max-time 3 -o \"$BODY_FILE\" -w '%{http_code}' http://127.0.0.1:";

pub const PROBE_PART_5: &'static str =
    "/api/system/info || true)\"; fi; else INFO_STATUS=\"$(curl -sS --max-time 3 -o \"$BODY_FILE\" -w '%{http_code}' http://127.0.0.1:";

pub const PROBE_PART_6: &'static str =
    "/api/system/info || true)\"; fi; HEALTH_STATUS=\"$(curl -sS --max-time 3 -o /dev/null -w '%{http_code}' http://127.0.0.1:";

pub const PROBE_PART_7: &'static str =
    "/health || true)\"; elif command -v wget >/dev/null 2>&1; then wget -qO \"$BODY_FILE\" http://127.0.0.1:";

pub const PROBE_PART_8: &'static str =
    "/api/system/info >/dev/null 2>&1; if [ $? -eq 0 ]; then INFO_STATUS=200; fi; wget -qO- http://127.0.0.1:";

pub const PROBE_PART_9: &'static str =
    "/health >/dev/null 2>&1; if [ $? -eq 0 ]; then HEALTH_STATUS=200; fi; else exit 127; fi; printf 'INFO_STATUS=%s\\nAUTH_STATUS=%s\\nHEALTH_STATUS=%s\\n' \"$INFO_STATUS\" \"$AUTH_STATUS\" \"$HEALTH_STATUS\"; cat \"$BODY_FILE\" 2>/dev/null || true";

/// The script that probes the service on a remote port: it logs in when
/// asked to, fetches the system information and the health, and prints the
/// three statuses, one to a line, then what the system information said.
pub open spec fn probe_script_text(port: u16, login: bool, payload: Seq<char>) -> Seq<char> {
    let p = decimal(port as nat);
    PROBE_PART_0@ + (if login {
        "1"@
    } else {
        "0"@
    }) + PROBE_PART_1@ + shell_quoted(payload) + PROBE_PART_2@ + p + PROBE_PART_3@ + p
        + PROBE_PART_4@ + p + PROBE_PART_5@ + p + PROBE_PART_6@ + p + PROBE_PART_7@ + p
        + PROBE_PART_8@ + p + PROBE_PART_9@
}

/// Writes the probe script for a port, with the given body for the login
/// request.
pub fn probe_script_with_payload(port: u16, login: bool, payload: &str) -> (r: String)
    ensures
        r@ == probe_script_text(port, login, payload@),
{
    let mut out: Vec<char> = Vec::new();
    push_str(&mut out, PROBE_PART_0);
    push_str(&mut out, if login {
        "1"
    } else {
        "0"
    });
    push_str(&mut out, PROBE_PART_1);
    push_quoted(&mut out, &to_chars(payload));
    push_str(&mut out, PROBE_PART_2);
    push_decimal(&mut out, port as u64);
    push_str(&mut out, PROBE_PART_3);
    push_decimal(&mut out, port as u64);
    push_str(&mut out, PROBE_PART_4);
    push_decimal(&mut out, port as u64);
    push_str(&mut out, PROBE_PART_5);
    push_decimal(&mut out, port as u64);
    push_str(&mut out, PROBE_PART_6);
    push_decimal(&mut out, port as u64);
    push_str(&mut out, PROBE_PART_7);
    push_decimal(&mut out, port as u64);
    push_str(&mut out, PROBE_PART_8);
    push_decimal(&mut out, port as u64);
    push_str(&mut out, PROBE_PART_9);
    assert(out@ =~= probe_script_text(port, login, payload@));
    from_chars(&out)
}

/// Writes the script that probes the service on a remote port, logging in
/// with the password if there is one.
pub fn probe_remote_system_info(port: u16, openchamber_password: Option<&str>) -> (r: String)
    ensures
        r@ == probe_script_text(
            port,
            openchamber_password is Some,
            login_payload(
                match openchamber_password {
                    Some(p) => Some(p@),
                    None => None,
                },
            ),
        ),
{
    match openchamber_password {
        Some(p) => match json_object("password", p) {
            Ok(payload) => probe_script_with_payload(port, true, payload.as_str()),
            Err(_) => probe_script_with_payload(port, true, "{}"),
        },
        None => probe_script_with_payload(port, false, "{}"),
    }
}

/// Whether the answer of the probe script shows a usable service.
pub open spec fn server_answers(outcome: Option<CommandOutcomeView>, has_password: bool) -> bool {
    match outcome {
        Some(o) => match remote_output(o) {
            Ok(out) => probe_outcome(out, has_password) is Ok,
            Err(_) => false,
        },
        None => false,
    }
}

/// Whether the service is running, from the answer of the probe script.
/// `None` stands for a client that could not be run.
pub fn remote_server_running(outcome: Option<&CommandOutcome>, has_password: bool) -> (r: bool)
    ensures
        r == server_answers(outcome_view(outcome), has_password),
{
    match outcome {
        Some(o) => match remote_command_output(o) {
            Ok(out) => interpret_probe_output(out.as_str(), has_password).is_ok(),
            Err(_) => false,
        },
        None => false,
    }
}

/// The port to ask the service for when none is preferred: between 20000
/// and 49999, spread by the hash.
pub open spec fn port_candidate(hash: u64) -> u16 {
    (20000 + hash % 30000) as u16
}

/// Derives a port candidate from a hash.
pub fn random_port_candidate(hash: u64) -> (r: u16)
    ensures
        r == port_candidate(hash),
        20000 <= r < 50000,
{
    let offset: u64 = hash % 30000;
    (20000 + offset) as u16
}

/// The script that starts the service as a daemon on a port, with the
/// password of its interface in its environment when there is one.
pub open spec fn start_script_text(password: Option<Seq<char>>, port: u16) -> Seq<char> {
    "OPENCHAMBER_RUNTIME=ssh-remote"@ + (match password {
        Some(p) => " OPENCHAMBER_UI_PASSWORD="@ + shell_quoted(p),
        None => Seq::empty(),
    }) + " openchamber serve --daemon --hostname 127.0.0.1 --port "@ + decimal(port as nat)
}

/// Writes the script that starts the service of an instance on a port.
pub fn start_remote_server_managed(instance: &DesktopSshInstance, desired_port: u16) -> (r: String)
    ensures
        r@ == start_script_text(configured_password(instance@), desired_port),
{
    let mut out: Vec<char> = Vec::new();
    push_str(&mut out, "OPENCHAMBER_RUNTIME=ssh-remote");
    match configured_openchamber_password(instance) {
        Some(secret) => {
            push_str(&mut out, " OPENCHAMBER_UI_PASSWORD=");
            push_quoted(&mut out, &to_chars(secret.as_str()));
        },
        None => {},
    }
    push_str(&mut out, " openchamber serve --daemon --hostname 127.0.0.1 --port ");
    push_decimal(&mut out, desired_port as u64);
    assert(out@ =~= start_script_text(configured_password(instance@), desired_port));
    from_chars(&out)
}

/// The first word that is a port number.
pub open spec fn first_port(ws: Seq<Seq<char>>) -> Option<u16>
    decreases ws.len(),
{
    if ws.len() == 0 {
        None
    } else if parse_u16(ws[0]) is Some {
        parse_u16(ws[0])
    } else {
        first_port(ws.drop_first())
    }
}

/// The port the service listens on: the first number it printed when it
/// started, or the port it was asked for when it printed none.
pub open spec fn started_port_of(output: Seq<char>, desired_port: u16) -> u16 {
    match first_port(words(output)) {
        Some(p) => p,
        None => desired_port,
    }
}

/// Reads the port the service listens on from what it printed when it
/// started.
pub fn started_port(output: &str, desired_port: u16) -> (r: u16)
    ensures
        r == started_port_of(output@, desired_port),
{
    let ws = split_words(&to_chars(output));
    let mut i: usize = 0;
    assert(rows(ws@).skip(0) =~= rows(ws@));
    while i < ws.len()
        invariant
            i <= ws.len(),
            rows(ws@) == words(output@),
            first_port(words(output@)) == first_port(rows(ws@).skip(i as int)),
        decreases ws.len() - i,
    {
        let ghost rest = rows(ws@).skip(i as int);
        assert(rest[0] == ws@[i as int]@);
        assert(rest.drop_first() =~= rows(ws@).skip(i + 1));
        match read_u16(&ws[i]) {
            Some(p) => {
                return p;
            },
            None => {},
        }
        i += 1;
    }
    desired_port
}

/// The script that asks the service on a port to shut down.
pub open spec fn shutdown_script_text(port: u16) -> Seq<char> {
    "if command -v curl >/dev/null 2>&1; then curl -fsS -X POST http://127.0.0.1:"@ + decimal(
        port as nat,
    )
        + "/api/system/shutdown >/dev/null 2>&1 || true; elif command -v wget >/dev/null 2>&1; then wget -qO- --method=POST http://127.0.0.1:"@
        + decimal(port as nat) + "/api/system/shutdown >/dev/null 2>&1 || true; fi"@
}

/// Writes the script that asks the service on a port to shut down.
pub fn stop_remote_server_best_effort(remote_port: u16) -> (r: String)
    ensures
        r@ == shutdown_script_text(remote_port),
{
    let mut out: Vec<char> = Vec::new();
    push_str(
        &mut out,
        "if command -v curl >/dev/null 2>&1; then curl -fsS -X POST http://127.0.0.1:",
    );
    push_decimal(&mut out, remote_port as u64);
    push_str(
        &mut out,
        "/api/system/shutdown >/dev/null 2>&1 || true; elif command -v wget >/dev/null 2>&1; then wget -qO- --method=POST http://127.0.0.1:",
    );
    push_decimal(&mut out, remote_port as u64);
    push_str(&mut out, "/api/system/shutdown >/dev/null 2>&1 || true; fi");
    assert(out@ =~= shutdown_script_text(remote_port));
    from_chars(&out)
}

} // verus!
