use isuconf::report::{
    pull_outcome_states, push_outcome_states, PullLocalTaskState, PullRemoteTaskState,
    PushLocalTaskState, PushRemoteTaskState,
};
use isuconf::sync::{classify_file, decision_needs_write, FileDecision};

#[test]
fn missing_destination_is_created() {
    let d = classify_file(&vec![1u8, 2], &None);
    assert_eq!(d, FileDecision::Create);
    assert!(decision_needs_write(&d));
}

#[test]
fn identical_bytes_are_synced_and_not_written() {
    let d = classify_file(&vec![1u8, 2], &Some(vec![1u8, 2]));
    assert_eq!(d, FileDecision::Synced);
    assert!(!decision_needs_write(&d));
}

#[test]
fn different_bytes_are_updated() {
    let d = classify_file(&vec![1u8, 2], &Some(vec![1u8, 3]));
    assert_eq!(d, FileDecision::Update);
    assert!(decision_needs_write(&d));
}

#[test]
fn comparison_is_byte_for_byte() {
    // A prefix is not equality.
    assert_eq!(classify_file(&vec![1u8, 2], &Some(vec![1u8])), FileDecision::Update);
    // Empty contents are equal only to empty contents.
    assert_eq!(classify_file(&vec![], &Some(vec![])), FileDecision::Synced);
    assert_eq!(classify_file(&vec![], &Some(vec![0u8])), FileDecision::Update);
}

#[test]
fn rerun_after_sync_is_synced_and_writes_nothing() {
    // First run: destination absent, the source's bytes are written.
    let source = vec![9u8, 8, 7];
    let first = classify_file(&source, &None);
    assert!(decision_needs_write(&first));
    let destination_after = source.clone();
    // Second run with no intervening changes: synced, zero writes.
    let second = classify_file(&source, &Some(destination_after));
    assert_eq!(second, FileDecision::Synced);
    assert!(!decision_needs_write(&second));
}

#[test]
fn push_then_pull_leaves_both_sides_identical() {
    let local = vec![4u8, 5];
    // Push writes the local bytes to the remote side.
    assert!(decision_needs_write(&classify_file(&local, &Some(vec![0u8]))));
    let remote_after = local.clone();
    // Pulling back finds the sides byte-identical and writes nothing.
    let back = classify_file(&remote_after, &Some(local.clone()));
    assert_eq!(back, FileDecision::Synced);
    assert!(!decision_needs_write(&back));
    assert_eq!(remote_after, local);
}

#[test]
fn pull_outcomes_follow_the_decision() {
    assert_eq!(
        pull_outcome_states(&FileDecision::Synced),
        (PullRemoteTaskState::Synced, None)
    );
    assert_eq!(
        pull_outcome_states(&FileDecision::Update),
        (PullRemoteTaskState::FoundDiff, Some(PullLocalTaskState::Update))
    );
    assert_eq!(
        pull_outcome_states(&FileDecision::Create),
        (PullRemoteTaskState::FoundNewFile, Some(PullLocalTaskState::Create))
    );
}

#[test]
fn push_outcomes_follow_the_decision() {
    assert_eq!(
        push_outcome_states(&FileDecision::Synced),
        (PushLocalTaskState::Synced, None)
    );
    assert_eq!(
        push_outcome_states(&FileDecision::Update),
        (PushLocalTaskState::FoundDiff, Some(PushRemoteTaskState::Update))
    );
    assert_eq!(
        push_outcome_states(&FileDecision::Create),
        (PushLocalTaskState::FoundNewFile, Some(PushRemoteTaskState::Create))
    );
}
