use remote_ssh::hosts::build_display_label;
use remote_ssh::hosts::persist_local_port_for_instance;
use remote_ssh::hosts::sync_desktop_hosts_for_ssh;
use remote_ssh::hosts::update_ssh_host_url;
use remote_ssh::hosts::DesktopHostEntry;
use remote_ssh::model::DesktopSshAuthConfig;
use remote_ssh::model::DesktopSshInstance;
use remote_ssh::model::DesktopSshLocalForwardConfig;
use remote_ssh::model::DesktopSshParsedCommand;
use remote_ssh::model::DesktopSshRemoteOpenchamberConfig;
use remote_ssh::model::DEFAULT_CONNECTION_TIMEOUT_SEC;
use remote_ssh::sanitize::sanitize_instance;

fn sample_instance(id: &str, command: &str) -> DesktopSshInstance {
    DesktopSshInstance {
        id: id.to_string(),
        nickname: None,
        ssh_command: command.to_string(),
        ssh_parsed: None,
        connection_timeout_sec: DEFAULT_CONNECTION_TIMEOUT_SEC,
        remote_openchamber: DesktopSshRemoteOpenchamberConfig::default(),
        local_forward: DesktopSshLocalForwardConfig::default(),
        auth: DesktopSshAuthConfig::default(),
        port_forwards: Vec::new(),
    }
}

fn host(source: usize, id: &str, label: &str, url: &str) -> DesktopHostEntry {
    DesktopHostEntry {
        source: Some(source),
        id: Some(id.to_string()),
        label: Some(label.to_string()),
        url: Some(url.to_string()),
    }
}

fn ids(items: &[&str]) -> Vec<String> {
    items.iter().map(|s| s.to_string()).collect()
}

#[test]
fn sync_desktop_hosts_removes_deleted_ssh_hosts() {
    let hosts = vec![
        host(0, "ssh-old", "Old", "http://127.0.0.1:1"),
        host(1, "http-1", "HTTP", "https://example.com"),
    ];
    let previous = ids(&["ssh-old"]);
    let next = vec![sample_instance("ssh-new", "ssh user@example.com")];
    let synced =
        sync_desktop_hosts_for_ssh(&hosts, Some("ssh-old".to_string()), &previous, &next);

    assert_eq!(synced.hosts.len(), 2);
    assert!(synced
        .hosts
        .iter()
        .any(|item| item.id == Some("http-1".to_string())));
    assert!(synced
        .hosts
        .iter()
        .any(|item| item.id == Some("ssh-new".to_string())));
    assert_eq!(synced.default_host_id.as_deref(), Some("local"));
}

#[test]
fn sync_leaves_other_hosts_as_they_are_and_adds_new_ones_at_the_end() {
    let hosts = vec![
        host(0, "ssh-old", "Old", "http://127.0.0.1:1"),
        host(1, "http-1", "HTTP", "https://example.com"),
    ];
    let next = vec![sanitize_instance(sample_instance("ssh-new", "ssh user@example.com"))
        .expect("sanitized")];
    let synced = sync_desktop_hosts_for_ssh(&hosts, None, &ids(&["ssh-old"]), &next);
    assert_eq!(
        synced.hosts,
        vec![
            host(1, "http-1", "HTTP", "https://example.com"),
            DesktopHostEntry {
                source: None,
                id: Some("ssh-new".to_string()),
                label: Some("user@example.com".to_string()),
                url: Some("http://127.0.0.1/".to_string()),
            },
        ]
    );
    assert_eq!(synced.default_host_id, None);
}

#[test]
fn sync_brings_the_entry_of_a_kept_instance_up_to_date() {
    let hosts = vec![
        host(0, " ssh-1 ", "stale", "http://127.0.0.1:4000"),
        DesktopHostEntry {
            source: Some(1),
            id: Some("ssh-2".to_string()),
            label: None,
            url: Some("  ".to_string()),
        },
        DesktopHostEntry { source: Some(2), id: None, label: None, url: None },
        host(3, "  ", "blank", "http://x"),
    ];
    let mut first = sample_instance("ssh-1", "ssh user@one");
    first.nickname = Some(" One ".to_string());
    let second = sample_instance("ssh-2", "ssh user@two");
    let synced = sync_desktop_hosts_for_ssh(
        &hosts,
        Some("http-1".to_string()),
        &ids(&["ssh-1", "ssh-2"]),
        &vec![first, second],
    );
    assert_eq!(
        synced.hosts,
        vec![
            host(0, "ssh-1", "One", "http://127.0.0.1:4000"),
            DesktopHostEntry {
                source: Some(1),
                id: Some("ssh-2".to_string()),
                label: Some("ssh-2".to_string()),
                url: Some("http://127.0.0.1/".to_string()),
            },
            DesktopHostEntry { source: Some(2), id: None, label: None, url: None },
            host(3, "  ", "blank", "http://x"),
        ]
    );
    assert_eq!(synced.default_host_id, Some("http-1".to_string()));
}

#[test]
fn default_host_is_reset_only_when_its_instance_goes() {
    let none: Vec<DesktopSshInstance> = Vec::new();
    let kept = vec![sample_instance("a", "ssh h")];
    let hosts: Vec<DesktopHostEntry> = Vec::new();
    let previous = ids(&["a"]);
    assert_eq!(
        sync_desktop_hosts_for_ssh(&hosts, Some(" a ".to_string()), &previous, &none).default_host_id,
        Some("local".to_string())
    );
    assert_eq!(
        sync_desktop_hosts_for_ssh(&hosts, Some("a".to_string()), &previous, &kept).default_host_id,
        Some("a".to_string())
    );
    assert_eq!(
        sync_desktop_hosts_for_ssh(&hosts, Some("b".to_string()), &previous, &none).default_host_id,
        Some("b".to_string())
    );
    assert_eq!(
        sync_desktop_hosts_for_ssh(&hosts, Some("".to_string()), &previous, &none).default_host_id,
        Some("".to_string())
    );
    assert_eq!(
        sync_desktop_hosts_for_ssh(&hosts, None, &previous, &none).default_host_id,
        None
    );
}

#[test]
fn every_instance_has_exactly_one_entry_after_a_sync() {
    let hosts = vec![
        host(0, "web", "Web", "https://example.com"),
        host(1, "a", "A", "http://127.0.0.1:1"),
        host(2, "gone", "Gone", "http://127.0.0.1:2"),
    ];
    let next = vec![
        sample_instance("a", "ssh h"),
        sample_instance("b", "ssh h"),
        sample_instance("web", "ssh h"),
    ];
    let synced = sync_desktop_hosts_for_ssh(&hosts, None, &ids(&["a", "gone"]), &next);
    for instance in &next {
        let count = synced
            .hosts
            .iter()
            .filter(|h| h.id.as_deref() == Some(instance.id.as_str()))
            .count();
        assert_eq!(count, 1, "{}", instance.id);
    }
    assert_eq!(synced.hosts.len(), 3);
    assert!(!synced.hosts.iter().any(|h| h.id.as_deref() == Some("gone")));
}

#[test]
fn label_prefers_the_nickname_then_the_destination_then_the_id() {
    let mut instance = sample_instance("ssh-1", "ssh user@h");
    assert_eq!(build_display_label(&instance), "ssh-1");
    instance.ssh_parsed = Some(DesktopSshParsedCommand {
        destination: " user@h ".to_string(),
        args: Vec::new(),
    });
    assert_eq!(build_display_label(&instance), "user@h");
    instance.nickname = Some("   ".to_string());
    assert_eq!(build_display_label(&instance), "user@h");
    instance.nickname = Some(" Prod ".to_string());
    assert_eq!(build_display_label(&instance), "Prod");
}

#[test]
fn tunnel_address_goes_to_the_first_entry_with_the_id() {
    let mut hosts = vec![
        host(0, "other", "Other", "https://example.com"),
        host(1, " ssh-1 ", "old", "http://127.0.0.1/"),
        host(2, "ssh-1", "second", "http://127.0.0.1/"),
    ];
    update_ssh_host_url(&mut hosts, "ssh-1", "Prod", "http://127.0.0.1:4123");
    assert_eq!(
        hosts,
        vec![
            host(0, "other", "Other", "https://example.com"),
            host(1, "ssh-1", "Prod", "http://127.0.0.1:4123"),
            host(2, "ssh-1", "second", "http://127.0.0.1/"),
        ]
    );
    update_ssh_host_url(&mut hosts, "ssh-2", "New", "http://127.0.0.1:5");
    assert_eq!(hosts.len(), 4);
    assert_eq!(
        hosts[3],
        DesktopHostEntry {
            source: None,
            id: Some("ssh-2".to_string()),
            label: Some("New".to_string()),
            url: Some("http://127.0.0.1:5".to_string()),
        }
    );
}

#[test]
fn local_port_is_saved_with_the_first_stored_instance_of_the_id() {
    let stored = vec![
        None,
        Some("other".to_string()),
        Some(" ssh-1 ".to_string()),
        Some("ssh-1".to_string()),
    ];
    assert_eq!(persist_local_port_for_instance(&stored, "ssh-1"), Some(2));
    assert_eq!(persist_local_port_for_instance(&stored, "missing"), None);
    assert_eq!(persist_local_port_for_instance(&Vec::new(), "ssh-1"), None);
}
