use remote_ssh::command::SshCommandError;
use remote_ssh::model::default_connection_timeout;
use remote_ssh::model::default_local_bind_host;
use remote_ssh::model::default_true;
use remote_ssh::model::DesktopSshAuthConfig;
use remote_ssh::model::DesktopSshInstallMethod;
use remote_ssh::model::DesktopSshInstance;
use remote_ssh::model::DesktopSshInstancesConfig;
use remote_ssh::model::DesktopSshLocalForwardConfig;
use remote_ssh::model::DesktopSshParsedCommand;
use remote_ssh::model::DesktopSshPortForward;
use remote_ssh::model::DesktopSshPortForwardType;
use remote_ssh::model::DesktopSshRemoteMode;
use remote_ssh::model::DesktopSshRemoteOpenchamberConfig;
use remote_ssh::model::DesktopSshSecretStore;
use remote_ssh::model::DEFAULT_CONNECTION_TIMEOUT_SEC;
use remote_ssh::sanitize::sanitize_bind_host;
use remote_ssh::sanitize::sanitize_forward;
use remote_ssh::sanitize::sanitize_instance;
use remote_ssh::sanitize::sanitize_instances;
use remote_ssh::sanitize::InstanceError;
use remote_ssh::stored::desktop_ssh_status_filter;
use remote_ssh::stored::instance_id_for_command;
use remote_ssh::stored::read_desktop_ssh_instances;

fn sample_instance(id: &str, command: &str) -> DesktopSshInstance {
    DesktopSshInstance {
        id: id.to_string(),
        nickname: None,
        ssh_command: command.to_string(),
        ssh_parsed: None,
        connection_timeout_sec: DEFAULT_CONNECTION_TIMEOUT_SEC,
        remote_openchamber: DesktopSshRemoteOpenchamberConfig::default(),
        local_forward: DesktopSshLocalForwardConfig::default(),
        auth: DesktopSshAuthConfig::default(),
        port_forwards: Vec::new(),
    }
}

fn forward(id: &str, kind: DesktopSshPortForwardType) -> DesktopSshPortForward {
    DesktopSshPortForward {
        id: id.to_string(),
        enabled: true,
        forward_type: kind,
        local_host: None,
        local_port: Some(8080),
        remote_host: None,
        remote_port: Some(80),
    }
}

#[test]
fn sanitize_instance_applies_defaults_and_parsed_command() {
    let mut instance = sample_instance("ssh-1", "ssh user@example.com");
    instance.connection_timeout_sec = 0;
    instance.local_forward.bind_host = "".to_string();

    let normalized = sanitize_instance(instance).expect("sanitize instance");
    assert_eq!(
        normalized.connection_timeout_sec,
        DEFAULT_CONNECTION_TIMEOUT_SEC
    );
    assert_eq!(normalized.local_forward.bind_host, "127.0.0.1");
    assert_eq!(
        normalized.ssh_parsed.expect("parsed").destination,
        "user@example.com"
    );
}

#[test]
fn defaults_are_what_the_settings_document_expects() {
    assert!(default_true());
    assert_eq!(default_connection_timeout(), 60);
    assert_eq!(default_local_bind_host(), "127.0.0.1");
    assert_eq!(DesktopSshRemoteMode::default(), DesktopSshRemoteMode::Managed);
    assert_eq!(DesktopSshInstallMethod::default(), DesktopSshInstallMethod::Bun);
    assert_eq!(DesktopSshSecretStore::default(), DesktopSshSecretStore::Never);
    let remote = DesktopSshRemoteOpenchamberConfig::default();
    assert_eq!(remote.mode, DesktopSshRemoteMode::Managed);
    assert!(remote.keep_running);
    assert_eq!(remote.preferred_port, None);
    assert_eq!(remote.install_method, DesktopSshInstallMethod::Bun);
    assert!(!remote.upload_bundle_over_ssh);
    let local = DesktopSshLocalForwardConfig::default();
    assert_eq!(local.preferred_local_port, None);
    assert_eq!(local.bind_host, "127.0.0.1");
    assert_eq!(DesktopSshInstancesConfig::default().instances.len(), 0);
    assert_eq!(DesktopSshAuthConfig::default().ssh_password, None);
}

#[test]
fn bind_host_is_one_of_three() {
    assert_eq!(sanitize_bind_host(" localhost "), "localhost");
    assert_eq!(sanitize_bind_host("0.0.0.0"), "0.0.0.0");
    assert_eq!(sanitize_bind_host("127.0.0.1"), "127.0.0.1");
    assert_eq!(sanitize_bind_host("192.168.1.5"), "127.0.0.1");
    assert_eq!(sanitize_bind_host("LOCALHOST"), "127.0.0.1");
    assert_eq!(sanitize_bind_host("  "), "127.0.0.1");
}

#[test]
fn instance_keeps_what_is_not_sanitized() {
    let mut instance = sample_instance("  ssh-1  ", "  ssh -p 22 user@example.com  ");
    instance.nickname = Some(" Prod ".to_string());
    instance.connection_timeout_sec = 15;
    instance.local_forward.bind_host = " 0.0.0.0 ".to_string();
    instance.local_forward.preferred_local_port = Some(4000);
    instance.remote_openchamber.mode = DesktopSshRemoteMode::External;
    let normalized = sanitize_instance(instance).expect("sanitized");
    assert_eq!(normalized.id, "ssh-1");
    assert_eq!(normalized.nickname, Some(" Prod ".to_string()));
    assert_eq!(normalized.ssh_command, "ssh -p 22 user@example.com");
    assert_eq!(
        normalized.ssh_parsed,
        Some(DesktopSshParsedCommand {
            destination: "user@example.com".to_string(),
            args: vec!["-p".to_string(), "22".to_string()],
        })
    );
    assert_eq!(normalized.connection_timeout_sec, 15);
    assert_eq!(normalized.local_forward.bind_host, "0.0.0.0");
    assert_eq!(normalized.local_forward.preferred_local_port, Some(4000));
    assert_eq!(normalized.remote_openchamber.mode, DesktopSshRemoteMode::External);
}

#[test]
fn instance_without_id_or_command_is_refused() {
    assert_eq!(
        sanitize_instance(sample_instance("  ", "ssh h")),
        Err(InstanceError::IdRequired)
    );
    assert_eq!(
        sanitize_instance(sample_instance(" local ", "ssh h")),
        Err(InstanceError::IdRequired)
    );
    assert_eq!(
        sanitize_instance(sample_instance("a", "   ")),
        Err(InstanceError::CommandRequired)
    );
    assert_eq!(
        sanitize_instance(sample_instance("a", "ssh -M h")),
        Err(InstanceError::Command(SshCommandError::DisallowedOption("-M".to_string())))
    );
    assert_eq!(InstanceError::IdRequired.message(), "SSH instance id is required");
    assert_eq!(InstanceError::CommandRequired.message(), "SSH command is required");
    assert_eq!(
        InstanceError::Command(SshCommandError::Empty).message(),
        "SSH command is empty"
    );
}

#[test]
fn forwards_are_normalised() {
    let mut local = forward(" web ", DesktopSshPortForwardType::Local);
    local.local_host = Some("10.0.0.1".to_string());
    local.remote_host = Some("  ".to_string());
    let normal = sanitize_forward(&local).expect("kept");
    assert_eq!(normal.id, "web");
    assert_eq!(normal.local_host, Some("127.0.0.1".to_string()));
    assert_eq!(normal.remote_host, Some("127.0.0.1".to_string()));
    assert_eq!(normal.local_port, Some(8080));
    assert_eq!(normal.remote_port, Some(80));

    let mut remote = forward("db", DesktopSshPortForwardType::Remote);
    remote.local_host = Some(" localhost ".to_string());
    remote.remote_host = Some(" db.internal ".to_string());
    let normal = sanitize_forward(&remote).expect("kept");
    assert_eq!(normal.local_host, Some("localhost".to_string()));
    assert_eq!(normal.remote_host, Some(" db.internal ".to_string()));

    let mut dynamic = forward("socks", DesktopSshPortForwardType::Dynamic);
    dynamic.remote_host = Some("x".to_string());
    let normal = sanitize_forward(&dynamic).expect("kept");
    assert_eq!(normal.remote_host, None);
    assert_eq!(normal.remote_port, None);
    assert_eq!(normal.local_port, Some(8080));
}

#[test]
fn forwards_that_cannot_be_used_are_dropped() {
    assert_eq!(sanitize_forward(&forward("  ", DesktopSshPortForwardType::Local)), None);
    let mut no_local = forward("a", DesktopSshPortForwardType::Local);
    no_local.local_port = None;
    assert_eq!(sanitize_forward(&no_local), None);
    let mut no_remote = forward("a", DesktopSshPortForwardType::Remote);
    no_remote.remote_port = None;
    assert_eq!(sanitize_forward(&no_remote), None);
    let mut dynamic = forward("a", DesktopSshPortForwardType::Dynamic);
    dynamic.remote_port = None;
    assert!(sanitize_forward(&dynamic).is_some());
    dynamic.local_port = None;
    assert_eq!(sanitize_forward(&dynamic), None);
}

#[test]
fn instance_forwards_are_deduplicated() {
    let mut instance = sample_instance("a", "ssh h");
    let mut second = forward(" web", DesktopSshPortForwardType::Local);
    second.local_port = Some(9090);
    instance.port_forwards = vec![
        forward("web", DesktopSshPortForwardType::Local),
        forward("", DesktopSshPortForwardType::Local),
        second,
        forward("socks", DesktopSshPortForwardType::Dynamic),
    ];
    let normalized = sanitize_instance(instance).expect("sanitized");
    let ids: Vec<&str> = normalized.port_forwards.iter().map(|f| f.id.as_str()).collect();
    assert_eq!(ids, vec!["web", "socks"]);
    assert_eq!(normalized.port_forwards[0].local_port, Some(8080));
}

#[test]
fn saved_list_keeps_the_first_of_each_id() {
    let config = DesktopSshInstancesConfig {
        instances: vec![
            sample_instance("a", "ssh first"),
            sample_instance("b", "ssh second"),
            sample_instance(" a ", "ssh third"),
        ],
    };
    let saved = sanitize_instances(config).expect("saved");
    let ids: Vec<&str> = saved.instances.iter().map(|i| i.id.as_str()).collect();
    assert_eq!(ids, vec!["a", "b"]);
    assert_eq!(saved.instances[0].ssh_command, "ssh first");
}

#[test]
fn saved_list_leaves_out_instances_without_id_or_command() {
    let config = DesktopSshInstancesConfig {
        instances: vec![
            sample_instance("a", "ssh first"),
            sample_instance("b", ""),
            sample_instance("", "ssh third"),
            sample_instance("local", "ssh fourth"),
            sample_instance("c", "ssh fifth"),
        ],
    };
    let saved = sanitize_instances(config).expect("saved");
    let ids: Vec<&str> = saved.instances.iter().map(|i| i.id.as_str()).collect();
    assert_eq!(ids, vec!["a", "c"]);
}

#[test]
fn saved_list_is_refused_for_its_first_command_that_does_not_validate() {
    let config = DesktopSshInstancesConfig {
        instances: vec![
            sample_instance("a", "ssh first"),
            sample_instance("", "ssh -M dropped"),
            sample_instance("b", "ssh -M h"),
            sample_instance("c", "ssh 'open"),
        ],
    };
    assert_eq!(
        sanitize_instances(config),
        Err(InstanceError::Command(SshCommandError::DisallowedOption("-M".to_string())))
    );
}

#[test]
fn stored_instances_are_made_ready() {
    let mut blank_host = sample_instance(" a ", "ssh user@h");
    blank_host.connection_timeout_sec = 0;
    blank_host.local_forward.bind_host = "  ".to_string();
    let mut odd_host = sample_instance("b", "ssh -M broken");
    odd_host.local_forward.bind_host = "10.1.1.1".to_string();
    let mut parsed_already = sample_instance("c", "ssh other");
    parsed_already.ssh_parsed = Some(DesktopSshParsedCommand {
        destination: "kept".to_string(),
        args: Vec::new(),
    });
    let stored = vec![
        blank_host,
        sample_instance("local", "ssh h"),
        odd_host,
        sample_instance("a", "ssh duplicate"),
        sample_instance("  ", "ssh h"),
        parsed_already,
    ];
    let loaded = read_desktop_ssh_instances(&stored);
    let ids: Vec<&str> = loaded.instances.iter().map(|i| i.id.as_str()).collect();
    assert_eq!(ids, vec!["a", "b", "c"]);
    assert_eq!(loaded.instances[0].connection_timeout_sec, 60);
    assert_eq!(loaded.instances[0].local_forward.bind_host, "127.0.0.1");
    assert_eq!(
        loaded.instances[0].ssh_parsed.as_ref().map(|p| p.destination.as_str()),
        Some("user@h")
    );
    assert_eq!(loaded.instances[1].local_forward.bind_host, "10.1.1.1");
    assert_eq!(loaded.instances[1].ssh_parsed, None);
    assert_eq!(
        loaded.instances[2].ssh_parsed.as_ref().map(|p| p.destination.as_str()),
        Some("kept")
    );
}

#[test]
fn ids_of_commands_are_checked() {
    assert_eq!(instance_id_for_command(" ssh-1 "), Ok("ssh-1".to_string()));
    assert_eq!(
        instance_id_for_command("  "),
        Err("SSH instance id is required".to_string())
    );
    assert_eq!(
        instance_id_for_command("local"),
        Err("SSH instance id is required".to_string())
    );
    assert_eq!(desktop_ssh_status_filter(Some(" a ")), Some("a".to_string()));
    assert_eq!(desktop_ssh_status_filter(Some("local")), Some("local".to_string()));
    assert_eq!(desktop_ssh_status_filter(Some("  ")), None);
    assert_eq!(desktop_ssh_status_filter(None), None);
}
