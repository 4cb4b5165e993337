use isuconf::config::{CliConfig, LocalConfig, RemoteConfig, ServerConfig, TargetConfig};
use isuconf::paths::{convert_to_string, is_target_config, join_path, relative_paths_under, relativize};
use isuconf::errors::SyncError;

fn target(path: &str) -> TargetConfig {
    TargetConfig {
        path: path.to_owned(),
        push: true,
        pull: true,
        sudo: false,
        shared: false,
    }
}

fn cli(root: &str, servers: &[(&str, Option<&str>)]) -> CliConfig {
    CliConfig {
        concurrency: None,
        max_file_size: None,
        remote: RemoteConfig {
            servers: servers
                .iter()
                .map(|(host, alias)| ServerConfig {
                    host: (*host).to_owned(),
                    alias: alias.map(|a| a.to_owned()),
                })
                .collect(),
            user: "isucon".to_owned(),
            identity: None,
            timeout: None,
        },
        local: LocalConfig { config_root_path: "config".to_owned() },
        targets: vec![],
    }
}

#[test]
fn join_path_appends_with_separator() {
    assert_eq!(
        join_path(&"a/b".to_owned(), &"c.conf".to_owned()),
        "a/b/c.conf".to_owned()
    );
}

#[test]
fn join_path_keeps_parent_for_empty_child() {
    assert_eq!(join_path(&"a/b".to_owned(), &"".to_owned()), "a/b".to_owned());
}

#[test]
fn convert_to_string_returns_the_path() {
    assert_eq!(convert_to_string(&"/etc/app.conf".to_owned()), "/etc/app.conf".to_owned());
}

#[test]
fn target_config_path_matches_directly() {
    let c = cli("config", &[("h1", None)]);
    assert!(is_target_config(&c, &target("/etc/app.conf"), "/etc/app.conf"));
}

#[test]
fn target_config_path_matches_under_server_prefix() {
    // Stripping `config/web` off the argument leaves the target's absolute
    // path, separator included.
    let c = cli("config", &[("h1", Some("web"))]);
    assert!(is_target_config(&c, &target("/etc/app.conf"), "config/web/etc/app.conf"));
}

#[test]
fn target_config_path_matches_under_root_with_separator() {
    let c = cli("config", &[("h1", None)]);
    assert!(is_target_config(&c, &target("etc/app.conf"), "config/etc/app.conf"));
}

#[test]
fn target_config_path_rejects_other_paths() {
    let c = cli("config", &[("h1", None)]);
    assert!(!is_target_config(&c, &target("/etc/app.conf"), "/etc/other.conf"));
}

#[test]
fn relativize_root_itself_is_empty() {
    assert_eq!(relativize("/etc/app", "/etc/app"), Some("".to_owned()));
}

#[test]
fn relativize_strips_root_prefix() {
    assert_eq!(relativize("/etc/app/a/b.conf", "/etc/app"), Some("a/b.conf".to_owned()));
}

#[test]
fn relativize_rejects_paths_elsewhere() {
    assert_eq!(relativize("/var/log/app.log", "/etc/app"), None);
}

#[test]
fn relative_paths_under_maps_every_path() {
    let paths = vec!["/etc/app/a.conf".to_owned(), "/etc/app/d/b.conf".to_owned()];
    let rels = relative_paths_under(&paths, &"/etc/app".to_owned()).unwrap();
    assert_eq!(rels, vec!["a.conf".to_owned(), "d/b.conf".to_owned()]);
}

#[test]
fn relative_paths_under_reports_the_stray_path() {
    let paths = vec!["/etc/app/a.conf".to_owned(), "/var/stray".to_owned()];
    match relative_paths_under(&paths, &"/etc/app".to_owned()) {
        Err(SyncError::InvalidPath { path }) => assert_eq!(path, "/var/stray".to_owned()),
        other => panic!("expected InvalidPath, got {:?}", other.map(|_| ())),
    }
}
