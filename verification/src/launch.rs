//! What the mobile shell shows when it starts: the bundled front end, or a
//! development server when one is configured and can be reached.

use vstd::prelude::*;
use crate::number::decimal;
use crate::number::parse_u16;
use crate::number::push_decimal;
use crate::number::read_u16;
use crate::text::from_chars;
use crate::text::is_text;
use crate::text::lower;
use crate::text::lowered;
use crate::text::opt_text;
use crate::text::push_chars;
use crate::text::push_str;
use crate::text::trim;
use crate::text::trimmed_str;

verus! {

/// The port of the development server when none is configured.
pub const DEFAULT_DEV_PORT: u16 = 5173;

/// What the start of the shell depends on.
#[derive(Debug, PartialEq, Eq)]
pub struct LaunchSettings {
    /// Whether this is a development build.
    pub debug: bool,
    /// The switch that forces the bundled front end, as configured.
    pub force_bundled_ui: Option<String>,
    /// The switch that forces the development server, as configured.
    pub force_dev_url: Option<String>,
    /// The host of the development server, as configured.
    pub dev_host: Option<String>,
    /// The port of the development server, as configured.
    pub dev_port: Option<String>,
}

pub struct LaunchSettingsView {
    pub debug: bool,
    pub force_bundled_ui: Option<Seq<char>>,
    pub force_dev_url: Option<Seq<char>>,
    pub dev_host: Option<Seq<char>>,
    pub dev_port: Option<Seq<char>>,
}

impl View for LaunchSettings {
    type V = LaunchSettingsView;

    open spec fn view(&self) -> LaunchSettingsView {
        LaunchSettingsView {
            debug: self.debug,
            force_bundled_ui: opt_text(self.force_bundled_ui),
            force_dev_url: opt_text(self.force_dev_url),
            dev_host: opt_text(self.dev_host),
            dev_port: opt_text(self.dev_port),
        }
    }
}

/// An address as the URL parser understood it.
#[derive(Debug, PartialEq, Eq)]
pub struct DevServerUrl {
    /// The address in its normal form.
    pub href: String,
    /// The host, when the address has one.
    pub host: Option<String>,
    /// The port, given or implied by the scheme.
    pub port: Option<u16>,
}

pub struct DevServerUrlView {
    pub href: Seq<char>,
    pub host: Option<Seq<char>>,
    pub port: Option<u16>,
}

impl View for DevServerUrl {
    type V = DevServerUrlView;

    open spec fn view(&self) -> DevServerUrlView {
        DevServerUrlView { href: self.href@, host: opt_text(self.host), port: self.port }
    }
}

/// What the window is to load.
#[derive(Debug, PartialEq, Eq)]
pub enum WebviewTarget {
    /// The front end that ships with the application.
    Bundled,
    /// The development server at this address.
    External(String),
}

pub enum WebviewTargetView {
    Bundled,
    External(Seq<char>),
}

impl View for WebviewTarget {
    type V = WebviewTargetView;

    open spec fn view(&self) -> WebviewTargetView {
        match self {
            WebviewTarget::Bundled => WebviewTargetView::Bundled,
            WebviewTarget::External(u) => WebviewTargetView::External(u@),
        }
    }
}

/// The next step of the start.
#[derive(Debug, PartialEq, Eq)]
pub enum LaunchStep {
    /// Open the window with this target.
    Open(WebviewTarget),
    /// Find out whether the development server answers at `host`:`port`,
    /// then decide with `run_after_probe`.
    Probe { href: String, host: String, port: u16 },
}

pub enum LaunchStepView {
    Open(WebviewTargetView),
    Probe { href: Seq<char>, host: Seq<char>, port: u16 },
}

impl View for LaunchStep {
    type V = LaunchStepView;

    open spec fn view(&self) -> LaunchStepView {
        match self {
            LaunchStep::Open(t) => LaunchStepView::Open(t@),
            LaunchStep::Probe { href, host, port } => LaunchStepView::Probe {
                href: href@,
                host: host@,
                port: *port,
            },
        }
    }
}

/// Whether a configured switch is on: `1`, `true`, `yes` or `on`, in any
/// case and with white space around it.
pub open spec fn switch_is_on(value: Option<Seq<char>>) -> bool {
    match value {
        Some(v) => {
            let t = lower(trim(v));
            t == "1"@ || t == "true"@ || t == "yes"@ || t == "on"@
        },
        None => false,
    }
}

/// The host of the development server: the configured one, trimmed, or
/// the loopback address when none is configured.
pub open spec fn dev_host_of(value: Option<Seq<char>>) -> Seq<char> {
    match value {
        Some(v) => if trim(v).len() > 0 {
            trim(v)
        } else {
            "127.0.0.1"@
        },
        None => "127.0.0.1"@,
    }
}

/// The port of the development server: the configured one, or 5173.
pub open spec fn dev_port_of(value: Option<Seq<char>>) -> u16 {
    match value {
        Some(v) => match parse_u16(trim(v)) {
            Some(p) => p,
            None => DEFAULT_DEV_PORT,
        },
        None => DEFAULT_DEV_PORT,
    }
}

/// The address of the development server.
pub open spec fn dev_url_of(s: LaunchSettingsView) -> Seq<char> {
    "http://"@ + dev_host_of(s.dev_host) + ":"@ + decimal(dev_port_of(s.dev_port) as nat)
}

/// What `url::Url::parse` makes of an address: its normal form, its host and
/// its port, or `None` where the parser refuses it.
pub uninterp spec fn parsed_url(input: Seq<char>) -> Option<DevServerUrlView>;

/// Parses an address with `url::Url::parse` and hands out the normal form
/// (`as_str`), the host (`host_str`) and the port (`port_or_known_default`)
/// of what it returns. The contract gives that outcome a name and claims
/// nothing of it but that it depends on the address alone.
#[verifier::external_body]
fn parse_url(input: &str) -> (r: Option<DevServerUrl>)
    ensures
        crate::model::opt_view(r) == parsed_url(input@),
{
    match url::Url::parse(input) {
        Ok(parsed) => Some(
            DevServerUrl {
                href: String::from(parsed.as_str()),
                host: parsed.host_str().map(String::from),
                port: parsed.port_or_known_default(),
            },
        ),
        Err(_) => None,
    }
}

/// The step that the start takes, given what the URL parser made of the
/// address of the development server.
///
/// A release build, a forced bundled front end and an address that does not
/// parse all open the bundled front end. A forced development server is
/// opened unseen. Otherwise the server is probed, if its address has a host
/// and a port.
pub open spec fn launch_plan(s: LaunchSettingsView, parsed: Option<DevServerUrlView>)
    -> LaunchStepView {
    if !s.debug || switch_is_on(s.force_bundled_ui) {
        LaunchStepView::Open(WebviewTargetView::Bundled)
    } else {
        match parsed {
            None => LaunchStepView::Open(WebviewTargetView::Bundled),
            Some(u) => if switch_is_on(s.force_dev_url) {
                LaunchStepView::Open(WebviewTargetView::External(u.href))
            } else if u.host is Some && u.port is Some {
                LaunchStepView::Probe { href: u.href, host: u.host->0, port: u.port->0 }
            } else {
                LaunchStepView::Open(WebviewTargetView::Bundled)
            },
        }
    }
}

fn switch_on(value: &Option<String>) -> (r: bool)
    ensures
        r == switch_is_on(opt_text(*value)),
{
    match value {
        Some(v) => {
            let t = lowered(&trimmed_str(v.as_str()));
            is_text(&t, "1") || is_text(&t, "true") || is_text(&t, "yes") || is_text(&t, "on")
        },
        None => false,
    }
}

/// The address of the development server that the settings name.
pub fn dev_server_url(settings: &LaunchSettings) -> (r: String)
    ensures
        r@ == dev_url_of(settings@),
{
    let mut out: Vec<char> = Vec::new();
    push_str(&mut out, "http://");
    let mut host_set = false;
    match &settings.dev_host {
        Some(v) => {
            let t = trimmed_str(v.as_str());
            if t.len() > 0 {
                push_chars(&mut out, &t);
                host_set = true;
            }
        },
        None => {},
    }
    if !host_set {
        push_str(&mut out, "127.0.0.1");
    }
    push_str(&mut out, ":");
    let port: u16 = match &settings.dev_port {
        Some(v) => match read_u16(&trimmed_str(v.as_str())) {
            Some(p) => p,
            None => DEFAULT_DEV_PORT,
        },
        None => DEFAULT_DEV_PORT,
    };
    push_decimal(&mut out, port as u64);
    assert(out@ =~= dev_url_of(settings@));
    from_chars(&out)
}

/// Decides the step of the start from the settings and from what the URL
/// parser made of the development server's address.
pub fn plan_launch(settings: &LaunchSettings, parsed: Option<DevServerUrl>) -> (r: LaunchStep)
    ensures
        r@ == launch_plan(settings@, crate::model::opt_view(parsed)),
{
    if !settings.debug || switch_on(&settings.force_bundled_ui) {
        return LaunchStep::Open(WebviewTarget::Bundled);
    }
    match parsed {
        None => LaunchStep::Open(WebviewTarget::Bundled),
        Some(u) => {
            if switch_on(&settings.force_dev_url) {
                LaunchStep::Open(WebviewTarget::External(u.href))
            } else {
                match (u.host, u.port) {
                    (Some(host), Some(port)) => LaunchStep::Probe { href: u.href, host, port },
                    _ => LaunchStep::Open(WebviewTarget::Bundled),
                }
            }
        },
    }
}

/// Decides what the shell does first when it starts.
pub fn run(settings: &LaunchSettings) -> (r: LaunchStep)
    ensures
        r@ == launch_plan(settings@, parsed_url(dev_url_of(settings@))),
{
    let address = dev_server_url(settings);
    let parsed = parse_url(address.as_str());
    plan_launch(settings, parsed)
}

/// What the window loads once the development server has been probed.
pub open spec fn target_after_probe(href: Seq<char>, reachable: bool) -> WebviewTargetView {
    if reachable {
        WebviewTargetView::External(href)
    } else {
        WebviewTargetView::Bundled
    }
}

/// Decides what the window loads once the development server has been
/// probed: the server if it answered, else the bundled front end.
pub fn run_after_probe(href: String, reachable: bool) -> (r: WebviewTarget)
    ensures
        r@ == target_after_probe(href@, reachable),
{
    if reachable {
        WebviewTarget::External(href)
    } else {
        WebviewTarget::Bundled
    }
}

} // verus!
