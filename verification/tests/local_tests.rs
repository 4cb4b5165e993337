use isuconf::config::{LocalConfig, TargetConfig};
use isuconf::local::{strip_leading_separators, LocalConfigClient};

fn client(root: &str) -> LocalConfigClient {
    LocalConfigClient::new(&LocalConfig { config_root_path: root.to_owned() })
}

fn target(path: &str, shared: bool) -> TargetConfig {
    TargetConfig { path: path.to_owned(), push: true, pull: true, sudo: false, shared }
}

#[test]
fn strip_leading_separators_removes_them_all() {
    assert_eq!(strip_leading_separators("/etc/app.conf"), "etc/app.conf".to_owned());
    assert_eq!(strip_leading_separators("etc/app.conf"), "etc/app.conf".to_owned());
    assert_eq!(strip_leading_separators(""), "".to_owned());
}

#[test]
fn non_shared_target_is_namespaced_by_server() {
    let c = client("config");
    let t = target("/etc/app.conf", false);
    assert_eq!(
        c.real_path(&"s1".to_owned(), &t, &"".to_owned()),
        "config/s1/etc/app.conf".to_owned()
    );
}

#[test]
fn shared_target_is_not_namespaced_by_server() {
    let c = client("config");
    let t = target("/etc/app.conf", true);
    let p1 = c.real_path(&"s1".to_owned(), &t, &"".to_owned());
    let p2 = c.real_path(&"s2".to_owned(), &t, &"".to_owned());
    assert_eq!(p1, "config/etc/app.conf".to_owned());
    assert_eq!(p1, p2);
}

#[test]
fn tilde_target_joins_verbatim_locally() {
    let c = client("config");
    let t = target("~/app", false);
    assert_eq!(
        c.real_path(&"s1".to_owned(), &t, &"a.conf".to_owned()),
        "config/s1/~/app/a.conf".to_owned()
    );
}

#[test]
fn relative_file_path_lands_under_the_target_root() {
    let c = client("config");
    let t = target("/etc/app", false);
    assert_eq!(
        c.real_path(&"s1".to_owned(), &t, &"d/b.conf".to_owned()),
        "config/s1/etc/app/d/b.conf".to_owned()
    );
}

#[test]
fn parent_path_inserts_server_only_for_non_shared() {
    let c = client("config");
    assert_eq!(
        c.parent_path(&"s1".to_owned(), &target("/x", false)),
        "config/s1".to_owned()
    );
    assert_eq!(c.parent_path(&"s1".to_owned(), &target("/x", true)), "config".to_owned());
}
