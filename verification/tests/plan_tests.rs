use isuconf::config::{LocalConfig, TargetConfig};
use isuconf::errors::SyncError;
use isuconf::local::LocalConfigClient;
use isuconf::plan::{
    plan_pull_target, plan_push_server, pull_eligible, shared_push_check, unique_paths,
};
use isuconf::report::{PullRemoteTaskState, PushLocalTaskState};
use isuconf::sync::{classify_file, FileDecision};

fn client(root: &str) -> LocalConfigClient {
    LocalConfigClient::new(&LocalConfig { config_root_path: root.to_owned() })
}

fn target(path: &str, pull: bool, push: bool, shared: bool) -> TargetConfig {
    TargetConfig { path: path.to_owned(), push, pull, sudo: false, shared }
}

#[test]
fn a_disabled_pull_is_one_skip_task() {
    let c = client("config");
    let t = target("/etc/app.conf", false, true, false);
    let tasks = plan_pull_target(&c, &"s1".to_owned(), &t, &vec!["".to_owned()]);
    assert_eq!(tasks.len(), 1);
    assert_eq!(tasks[0].remote.state, PullRemoteTaskState::Skip);
    assert_eq!(tasks[0].remote.relative_path, "".to_owned());
    assert_eq!(tasks[0].local.path, "config/s1/etc/app.conf".to_owned());
}

#[test]
fn an_empty_listing_is_one_missing_source_task() {
    let c = client("config");
    let t = target("/etc/app.conf", true, true, false);
    let tasks = plan_pull_target(&c, &"s1".to_owned(), &t, &vec![]);
    assert_eq!(tasks.len(), 1);
    assert_eq!(tasks[0].remote.state, PullRemoteTaskState::NotExists);
}

#[test]
fn a_listing_becomes_one_task_per_path_in_order() {
    let c = client("config");
    let t = target("/etc/app", true, true, false);
    let paths = vec!["a.conf".to_owned(), "d/b.conf".to_owned()];
    let tasks = plan_pull_target(&c, &"s1".to_owned(), &t, &paths);
    assert_eq!(tasks.len(), 2);
    assert_eq!(tasks[0].remote.state, PullRemoteTaskState::Progress);
    assert_eq!(tasks[0].remote.relative_path, "a.conf".to_owned());
    assert_eq!(tasks[0].local.path, "config/s1/etc/app/a.conf".to_owned());
    assert_eq!(tasks[1].remote.relative_path, "d/b.conf".to_owned());
    assert_eq!(tasks[1].local.path, "config/s1/etc/app/d/b.conf".to_owned());
}

#[test]
fn two_servers_pull_one_file_each_into_their_own_namespace() {
    // Target /etc/app.conf on servers "a" and "b"; no prior local copy.
    let c = client("config_root");
    let t = target("/etc/app.conf", true, true, false);
    let listing = vec!["".to_owned()];
    let mut created = 0;
    let mut local_paths = vec![];
    for server in ["a", "b"] {
        let tasks = plan_pull_target(&c, &server.to_owned(), &t, &listing);
        assert_eq!(tasks.len(), 1);
        assert_eq!(tasks[0].remote.state, PullRemoteTaskState::Progress);
        let remote_bytes = if server == "a" { b"X=1".to_vec() } else { b"X=2".to_vec() };
        // No local copy yet: the decision must be `created` and the write
        // puts the remote bytes at the namespaced local path.
        if classify_file(&remote_bytes, &None) == FileDecision::Create {
            created += 1;
        }
        local_paths.push((tasks[0].local.path.clone(), remote_bytes));
    }
    assert_eq!(created, 2);
    assert_eq!(
        local_paths[0],
        ("config_root/a/etc/app.conf".to_owned(), b"X=1".to_vec())
    );
    assert_eq!(
        local_paths[1],
        ("config_root/b/etc/app.conf".to_owned(), b"X=2".to_vec())
    );
}

#[test]
fn shared_targets_pull_only_from_the_first_server() {
    let t_shared = target("/etc/app.conf", true, true, true);
    let t_plain = target("/etc/app.conf", true, true, false);
    assert!(pull_eligible(&t_shared, 0));
    assert!(!pull_eligible(&t_shared, 1));
    assert!(pull_eligible(&t_plain, 0));
    assert!(pull_eligible(&t_plain, 2));
}

#[test]
fn shared_push_aborts_on_the_first_absent_server() {
    let t = target("/etc/app.conf", true, true, true);
    let names = vec!["s1".to_owned(), "s2".to_owned(), "s3".to_owned()];
    // Present on the first and third server, absent on the second.
    let exists = vec![true, false, true];
    match shared_push_check(&t, &names, &exists) {
        Err(SyncError::SharedTargetMissing { server, target_path }) => {
            assert_eq!(server, "s2".to_owned());
            assert_eq!(target_path, "/etc/app.conf".to_owned());
        },
        other => panic!("expected SharedTargetMissing, got {:?}", other.map(|_| ())),
    }
}

#[test]
fn shared_push_passes_when_every_server_has_the_target() {
    let t = target("/etc/app.conf", true, true, true);
    let names = vec!["s1".to_owned(), "s2".to_owned()];
    assert!(shared_push_check(&t, &names, &vec![true, true]).is_ok());
}

#[test]
fn ordinary_targets_skip_the_fleet_check() {
    let t = target("/etc/app.conf", true, true, false);
    let names = vec!["s1".to_owned(), "s2".to_owned()];
    assert!(shared_push_check(&t, &names, &vec![false, false]).is_ok());
}

#[test]
fn push_tasks_hide_a_shared_targets_repeated_source() {
    let c = client("config");
    let t = target("/etc/app.conf", true, true, true);
    let listing = vec!["".to_owned()];
    let first = plan_push_server(&c, &"s1".to_owned(), 0, &t, &listing);
    let second = plan_push_server(&c, &"s2".to_owned(), 1, &t, &listing);
    assert!(!first[0].local.is_hidden);
    assert!(second[0].local.is_hidden);
    // Shared targets share one local copy: no server segment in the path.
    assert_eq!(first[0].local.path, "config/etc/app.conf".to_owned());
    assert_eq!(second[0].local.path, first[0].local.path);
}

#[test]
fn a_disabled_push_is_one_skip_task() {
    let c = client("config");
    let t = target("/etc/app.conf", true, false, false);
    let tasks = plan_push_server(&c, &"s1".to_owned(), 0, &t, &vec!["".to_owned()]);
    assert_eq!(tasks.len(), 1);
    assert_eq!(tasks[0].local.state, PushLocalTaskState::Skip);
}

#[test]
fn unique_paths_keeps_first_occurrences_in_order() {
    let a = vec!["a.conf".to_owned(), "b.conf".to_owned()];
    let b = vec!["b.conf".to_owned(), "c.conf".to_owned(), "a.conf".to_owned()];
    assert_eq!(
        unique_paths(&a, &b),
        vec!["a.conf".to_owned(), "b.conf".to_owned(), "c.conf".to_owned()]
    );
}
