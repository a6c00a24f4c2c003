use remote_ssh::launch::dev_server_url;
use remote_ssh::launch::plan_launch;
use remote_ssh::launch::run;
use remote_ssh::launch::run_after_probe;
use remote_ssh::launch::DevServerUrl;
use remote_ssh::launch::LaunchSettings;
use remote_ssh::launch::LaunchStep;
use remote_ssh::launch::WebviewTarget;

fn settings(debug: bool) -> LaunchSettings {
    LaunchSettings {
        debug,
        force_bundled_ui: None,
        force_dev_url: None,
        dev_host: None,
        dev_port: None,
    }
}

#[test]
fn release_build_opens_the_bundled_front_end() {
    assert_eq!(run(&settings(false)), LaunchStep::Open(WebviewTarget::Bundled));
}

#[test]
fn development_build_probes_the_default_server() {
    assert_eq!(dev_server_url(&settings(true)), "http://127.0.0.1:5173");
    assert_eq!(
        run(&settings(true)),
        LaunchStep::Probe {
            href: "http://127.0.0.1:5173/".to_string(),
            host: "127.0.0.1".to_string(),
            port: 5173,
        }
    );
}

#[test]
fn configured_server_is_parsed_by_the_url_parser() {
    let mut s = settings(true);
    s.dev_host = Some(" Example.COM ".to_string());
    s.dev_port = Some(" 80 ".to_string());
    assert_eq!(dev_server_url(&s), "http://Example.COM:80");
    assert_eq!(
        run(&s),
        LaunchStep::Probe {
            href: "http://example.com/".to_string(),
            host: "example.com".to_string(),
            port: 80,
        }
    );
    s.dev_port = Some("not a port".to_string());
    s.dev_host = Some("  ".to_string());
    assert_eq!(dev_server_url(&s), "http://127.0.0.1:5173");
}

#[test]
fn address_that_does_not_parse_opens_the_bundled_front_end() {
    let mut s = settings(true);
    s.dev_host = Some("bad host".to_string());
    assert_eq!(run(&s), LaunchStep::Open(WebviewTarget::Bundled));
    s.force_dev_url = Some("1".to_string());
    assert_eq!(run(&s), LaunchStep::Open(WebviewTarget::Bundled));
}

#[test]
fn switches_force_one_or_the_other() {
    let mut s = settings(true);
    s.force_dev_url = Some(" YES ".to_string());
    assert_eq!(
        run(&s),
        LaunchStep::Open(WebviewTarget::External("http://127.0.0.1:5173/".to_string()))
    );
    s.force_bundled_ui = Some("on".to_string());
    assert_eq!(run(&s), LaunchStep::Open(WebviewTarget::Bundled));
    s.force_bundled_ui = Some("0".to_string());
    assert_eq!(
        run(&s),
        LaunchStep::Open(WebviewTarget::External("http://127.0.0.1:5173/".to_string()))
    );
    for on in ["1", "true", "True", "yes", "ON"] {
        s.force_bundled_ui = Some(on.to_string());
        assert_eq!(run(&s), LaunchStep::Open(WebviewTarget::Bundled), "{on}");
    }
    for off in ["", "2", "no", "off", "enabled"] {
        s.force_bundled_ui = Some(off.to_string());
        assert_ne!(run(&s), LaunchStep::Open(WebviewTarget::Bundled), "{off}");
    }
}

#[test]
fn plan_needs_a_host_and_a_port_to_probe() {
    let s = settings(true);
    let parsed = |host: Option<&str>, port: Option<u16>| {
        Some(DevServerUrl {
            href: "data:x".to_string(),
            host: host.map(|h| h.to_string()),
            port,
        })
    };
    assert_eq!(
        plan_launch(&s, parsed(None, Some(1))),
        LaunchStep::Open(WebviewTarget::Bundled)
    );
    assert_eq!(
        plan_launch(&s, parsed(Some("h"), None)),
        LaunchStep::Open(WebviewTarget::Bundled)
    );
    assert_eq!(
        plan_launch(&s, parsed(Some("h"), Some(1))),
        LaunchStep::Probe { href: "data:x".to_string(), host: "h".to_string(), port: 1 }
    );
    assert_eq!(plan_launch(&s, None), LaunchStep::Open(WebviewTarget::Bundled));
}

#[test]
fn probed_server_is_opened_only_when_it_answers() {
    assert_eq!(
        run_after_probe("http://127.0.0.1:5173/".to_string(), true),
        WebviewTarget::External("http://127.0.0.1:5173/".to_string())
    );
    assert_eq!(
        run_after_probe("http://127.0.0.1:5173/".to_string(), false),
        WebviewTarget::Bundled
    );
}
