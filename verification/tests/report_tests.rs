use isuconf::cli::{ssh_config_entry, ssh_invocation, find_server};
use isuconf::config::ServerConfig;
use isuconf::report::{
    format_local_arrow, format_remote_location, max_width, pull_task_messages,
    push_task_messages, PullLocalTaskState, PullRemoteTaskState, PushLocalTaskState,
    PushRemoteTaskState,
};
use isuconf::strutil::pad_to;

#[test]
fn messages_follow_the_three_column_format() {
    assert_eq!(
        PullRemoteTaskState::Synced.message("u@s:/etc/app.conf"),
        "▕  u@s:/etc/app.conf ▕     ▕  synced 📌 ".to_owned()
    );
    assert_eq!(
        PullRemoteTaskState::NotExists.message("u@s:/etc/app.conf"),
        "▕  u@s:/etc/app.conf ▕  ✕  ▕  not exists ".to_owned()
    );
    assert_eq!(
        PullLocalTaskState::Create.message("└─> config/s/etc/app.conf"),
        "▕  └─> config/s/etc/app.conf ▕  ✓  ▕  create 📦️️ ".to_owned()
    );
    assert_eq!(
        PushLocalTaskState::FoundDiff.message("config/s/etc/app.conf"),
        "▕  config/s/etc/app.conf ▕     ▕  found diff 🔍 ".to_owned()
    );
    assert_eq!(
        PushRemoteTaskState::Update.message("└─> u@s:/etc/app.conf"),
        "▕  └─> u@s:/etc/app.conf ▕  ✓  ▕  update ✏️️ ".to_owned()
    );
}

#[test]
fn file_columns_are_composed_exactly() {
    assert_eq!(
        format_remote_location(&"u".to_owned(), &"s1".to_owned(), &"/etc/app.conf".to_owned()),
        "u@s1:/etc/app.conf".to_owned()
    );
    assert_eq!(format_local_arrow(&"config/a".to_owned()), "└─> config/a".to_owned());
}

#[test]
fn padding_fills_to_the_width_and_never_truncates() {
    assert_eq!(pad_to("ab", 5), "ab   ".to_owned());
    assert_eq!(pad_to("abcdef", 3), "abcdef".to_owned());
    assert_eq!(pad_to("", 2), "  ".to_owned());
}

#[test]
fn the_width_is_the_longest_column() {
    let prefixes = vec!["ab".to_owned(), "abcd".to_owned(), "a".to_owned()];
    assert_eq!(max_width(&prefixes), 4);
    assert_eq!(max_width(&vec![]), 0);
}

#[test]
fn a_synced_pull_reports_one_line_a_write_two() {
    let only = pull_task_messages(&PullRemoteTaskState::Synced, &None, "r", "l");
    assert_eq!(only.len(), 1);
    let both = pull_task_messages(
        &PullRemoteTaskState::FoundNewFile,
        &Some(PullLocalTaskState::Create),
        "r",
        "l",
    );
    assert_eq!(both.len(), 2);
    assert_eq!(both[0], PullRemoteTaskState::FoundNewFile.message("r"));
    assert_eq!(both[1], PullLocalTaskState::Create.message("l"));
}

#[test]
fn hidden_push_tasks_suppress_their_source_line() {
    // Hidden and nothing written: nothing reported.
    let none = push_task_messages(&PushLocalTaskState::Synced, &None, true, "l", "r");
    assert!(none.is_empty());
    // Hidden with a write: only the remote action line.
    let one = push_task_messages(
        &PushLocalTaskState::FoundDiff,
        &Some(PushRemoteTaskState::Update),
        true,
        "l",
        "r",
    );
    assert_eq!(one, vec![PushRemoteTaskState::Update.message("r")]);
    // Visible with a write: both lines, source first.
    let two = push_task_messages(
        &PushLocalTaskState::FoundDiff,
        &Some(PushRemoteTaskState::Update),
        false,
        "l",
        "r",
    );
    assert_eq!(two.len(), 2);
    assert_eq!(two[0], PushLocalTaskState::FoundDiff.message("l"));
}

#[test]
fn ssh_invocation_includes_the_identity_when_configured() {
    assert_eq!(
        ssh_invocation(&"u".to_owned(), &"h".to_owned(), &None),
        "ssh u@h".to_owned()
    );
    assert_eq!(
        ssh_invocation(&"u".to_owned(), &"h".to_owned(), &Some("/id_ed25519".to_owned())),
        "ssh u@h -i /id_ed25519".to_owned()
    );
}

#[test]
fn ssh_config_entries_describe_each_server() {
    let s = ServerConfig { alias: Some("web1".to_owned()), host: "203.0.113.7".to_owned() };
    let lines = ssh_config_entry(&s, &"u".to_owned(), &Some("/id".to_owned()));
    assert_eq!(
        lines,
        vec![
            "Host web1".to_owned(),
            "  HostName 203.0.113.7".to_owned(),
            "  User u".to_owned(),
            "  IdentityFile /id".to_owned(),
        ]
    );
    let bare = ssh_config_entry(&s, &"u".to_owned(), &None);
    assert_eq!(bare.len(), 3);
}

#[test]
fn servers_are_found_by_name() {
    let servers = vec![
        ServerConfig { alias: Some("web1".to_owned()), host: "h1".to_owned() },
        ServerConfig { alias: None, host: "h2".to_owned() },
    ];
    assert_eq!(find_server(&servers, &"web1".to_owned()), Some(0));
    assert_eq!(find_server(&servers, &"h2".to_owned()), Some(1));
    assert_eq!(find_server(&servers, &"h1".to_owned()), None);
    assert_eq!(find_server(&servers, &"db".to_owned()), None);
}
