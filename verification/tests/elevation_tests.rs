use isuconf::elevation::{action_command, sudo_read_plan, sudo_write_plan, RemoteAction};

#[test]
fn write_plan_transfers_copies_restricts_and_cleans_up() {
    let plan = sudo_write_plan(
        &"/etc/app.conf".to_owned(),
        &"/etc".to_owned(),
        &"/tmp/t1".to_owned(),
        &vec![1u8, 2, 3],
    );
    assert_eq!(plan.len(), 5);
    match &plan[0] {
        RemoteAction::TransferWrite { path, content } => {
            assert_eq!(path, "/tmp/t1");
            assert_eq!(content, &vec![1u8, 2, 3]);
        },
        _ => panic!("step 0 must be the unprivileged transfer"),
    }
    match &plan[1] {
        RemoteAction::MakeDirAll { path } => assert_eq!(path, "/etc"),
        _ => panic!("step 1 must create the parent"),
    }
    match &plan[2] {
        RemoteAction::CopyFile { from, to } => {
            assert_eq!(from, "/tmp/t1");
            assert_eq!(to, "/etc/app.conf");
        },
        _ => panic!("step 2 must copy over the destination"),
    }
    match &plan[3] {
        RemoteAction::RestrictMode { path } => assert_eq!(path, "/etc/app.conf"),
        _ => panic!("step 3 must restrict the destination to its owner"),
    }
    match &plan[4] {
        RemoteAction::RemoveFile { path } => assert_eq!(path, "/tmp/t1"),
        _ => panic!("step 4 must remove the temporary file"),
    }
}

#[test]
fn read_plan_copies_relaxes_reads_and_cleans_up() {
    let plan = sudo_read_plan(&"/etc/app.conf".to_owned(), &"/tmp/t2".to_owned());
    assert_eq!(plan.len(), 4);
    match &plan[0] {
        RemoteAction::CopyFile { from, to } => {
            assert_eq!(from, "/etc/app.conf");
            assert_eq!(to, "/tmp/t2");
        },
        _ => panic!("step 0 must copy the source aside"),
    }
    match &plan[1] {
        RemoteAction::Chmod644 { path } => assert_eq!(path, "/tmp/t2"),
        _ => panic!("step 1 must relax the copy"),
    }
    match &plan[2] {
        RemoteAction::TransferRead { path } => assert_eq!(path, "/tmp/t2"),
        _ => panic!("step 2 must be the unprivileged transfer"),
    }
    match &plan[3] {
        RemoteAction::RemoveFile { path } => assert_eq!(path, "/tmp/t2"),
        _ => panic!("step 3 must remove the temporary file"),
    }
}

#[test]
fn elevated_steps_render_as_shell_commands() {
    assert_eq!(
        action_command(&RemoteAction::CopyFile { from: "/a".to_owned(), to: "/b".to_owned() }),
        Some("cp /a /b".to_owned())
    );
    assert_eq!(
        action_command(&RemoteAction::Chmod644 { path: "/tmp/t".to_owned() }),
        Some("chmod 644 /tmp/t".to_owned())
    );
    assert_eq!(
        action_command(&RemoteAction::RestrictMode { path: "/etc/app.conf".to_owned() }),
        Some("chmod 600 /etc/app.conf".to_owned())
    );
    assert_eq!(
        action_command(&RemoteAction::MakeDirAll { path: "/etc/app".to_owned() }),
        Some("mkdir -p /etc/app".to_owned())
    );
    assert_eq!(
        action_command(&RemoteAction::RemoveFile { path: "/tmp/t".to_owned() }),
        Some("rm /tmp/t".to_owned())
    );
    assert_eq!(
        action_command(&RemoteAction::TransferWrite { path: "/tmp/t".to_owned(), content: vec![] }),
        None
    );
    assert_eq!(action_command(&RemoteAction::TransferRead { path: "/tmp/t".to_owned() }), None);
}
