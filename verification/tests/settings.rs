use remote_ssh::attempt::askpass_script_content;
use remote_ssh::connect::ASKPASS_SCRIPT;
use remote_ssh::hosts::write_desktop_ssh_instances;
use remote_ssh::hosts::DesktopHostEntry;
use remote_ssh::model::DesktopSshAuthConfig;
use remote_ssh::model::DesktopSshInstance;
use remote_ssh::model::DesktopSshInstancesConfig;
use remote_ssh::model::DesktopSshLocalForwardConfig;
use remote_ssh::model::DesktopSshParsedCommand;
use remote_ssh::model::DesktopSshRemoteOpenchamberConfig;
use remote_ssh::registry::SessionRecord;
use remote_ssh::registry::Supervisor;
use remote_ssh::sanitize::InstanceError;

fn sample_instance(id: &str, command: &str) -> DesktopSshInstance {
    DesktopSshInstance {
        id: id.to_string(),
        nickname: None,
        ssh_command: command.to_string(),
        ssh_parsed: None,
        connection_timeout_sec: 60,
        remote_openchamber: DesktopSshRemoteOpenchamberConfig::default(),
        local_forward: DesktopSshLocalForwardConfig::default(),
        auth: DesktopSshAuthConfig::default(),
        port_forwards: Vec::new(),
    }
}

fn host(source: usize, id: &str, label: &str, url: &str) -> DesktopHostEntry {
    DesktopHostEntry {
        source: Some(source),
        id: Some(id.to_string()),
        label: Some(label.to_string()),
        url: Some(url.to_string()),
    }
}

#[test]
fn write_replaces_the_hosts_of_removed_instances() {
    let stored = vec![
        sample_instance(" ssh-old ", "ssh user@old"),
        sample_instance("local", "ssh ignored"),
    ];
    let hosts = vec![
        host(0, "ssh-old", "Old", "http://127.0.0.1:1"),
        host(1, "http-1", "HTTP", "https://example.com"),
        host(2, "local", "Local", "http://127.0.0.1:3"),
    ];
    let config = DesktopSshInstancesConfig {
        instances: vec![
            sample_instance(" ssh-new ", " ssh user@example.com "),
            sample_instance("ssh-new", "ssh duplicate"),
        ],
    };
    let write = write_desktop_ssh_instances(&stored, &hosts, Some("ssh-old".to_string()), config)
        .expect("written");
    assert_eq!(write.instances.len(), 1);
    assert_eq!(write.instances[0].id, "ssh-new");
    assert_eq!(write.instances[0].ssh_command, "ssh user@example.com");
    assert_eq!(
        write.hosts,
        vec![
            host(1, "http-1", "HTTP", "https://example.com"),
            host(2, "local", "Local", "http://127.0.0.1:3"),
            DesktopHostEntry {
                source: None,
                id: Some("ssh-new".to_string()),
                label: Some("user@example.com".to_string()),
                url: Some("http://127.0.0.1/".to_string()),
            },
        ]
    );
    assert_eq!(write.default_host_id, Some("local".to_string()));
}

#[test]
fn write_is_refused_when_an_instance_cannot_be_sanitised() {
    let config = DesktopSshInstancesConfig {
        instances: vec![sample_instance("a", "ssh -M h")],
    };
    let refused = write_desktop_ssh_instances(&Vec::new(), &Vec::new(), None, config)
        .expect_err("refused");
    assert!(matches!(refused, InstanceError::Command(_)));
    assert_eq!(refused.message(), "SSH option -M is not allowed");
}

#[test]
fn prompt_helper_is_the_script() {
    assert_eq!(askpass_script_content(), ASKPASS_SCRIPT);
}

#[test]
fn session_can_be_looked_up() {
    let mut supervisor = Supervisor::new();
    assert_eq!(supervisor.session_snapshot("a"), None);
    let session = SessionRecord {
        parsed: DesktopSshParsedCommand { destination: "user@h".to_string(), args: Vec::new() },
        control_path: "/tmp/s".to_string(),
        askpass_path: "/a".to_string(),
        local_port: 1,
        remote_port: 2,
        started_by_us: false,
        managed: true,
        keep_running: true,
        master_detached: false,
        main_forward_detached: false,
    };
    supervisor.complete_connect("a", session.clone(), &Vec::new(), 1);
    assert_eq!(supervisor.session_snapshot("a"), Some(session));
    assert_eq!(supervisor.session_snapshot("b"), None);
}
