use isuconf::sched::{chunk_tasks, collect_in_order};

#[test]
fn five_tasks_at_concurrency_two_run_in_three_batches() {
    let tasks: Vec<u32> = vec![10, 11, 12, 13, 14];
    let batches = chunk_tasks(tasks, 2);
    // The peak number of concurrently-active tasks is the largest batch: 2.
    assert_eq!(batches.len(), 3);
    assert!(batches.iter().all(|b| b.len() <= 2));
    assert_eq!(batches[0], vec![10, 11]);
    assert_eq!(batches[1], vec![12, 13]);
    assert_eq!(batches[2], vec![14]);
    // Flattened, the batches are exactly the submission order.
    let flat: Vec<u32> = batches.into_iter().flatten().collect();
    assert_eq!(flat, vec![10, 11, 12, 13, 14]);
}

#[test]
fn a_short_list_is_one_batch() {
    let batches = chunk_tasks(vec![1u8, 2], 10);
    assert_eq!(batches, vec![vec![1u8, 2]]);
}

#[test]
fn an_empty_list_has_no_batches() {
    let batches = chunk_tasks(Vec::<u8>::new(), 3);
    assert!(batches.is_empty());
}

#[test]
fn an_exact_multiple_fills_every_batch() {
    let batches = chunk_tasks(vec![1u8, 2, 3, 4], 2);
    assert_eq!(batches, vec![vec![1u8, 2], vec![3u8, 4]]);
}

#[test]
fn the_collector_restores_submission_order() {
    // Completion order has the last task finishing first and the first last.
    let completions = vec![
        (3usize, "d"),
        (0usize, "a"),
        (4usize, "e"),
        (1usize, "b"),
        (2usize, "c"),
    ];
    assert_eq!(collect_in_order(completions), Some(vec!["a", "b", "c", "d", "e"]));
}

#[test]
fn the_collector_rejects_a_repeated_position() {
    assert_eq!(collect_in_order(vec![(0usize, "a"), (0usize, "b")]), None);
}

#[test]
fn the_collector_rejects_a_position_outside_the_batch() {
    assert_eq!(collect_in_order(vec![(1usize, "a"), (2usize, "b")]), None);
}

#[test]
fn a_batch_finishing_backwards_is_still_reported_in_order() {
    // Concurrency 2, 5 tasks: three batches; inside each batch the tasks
    // complete in reverse order, and the report still reads 0..5.
    let batches = chunk_tasks(vec![0u32, 1, 2, 3, 4], 2);
    let mut reported: Vec<u32> = vec![];
    for batch in batches {
        let completions: Vec<(usize, u32)> =
            batch.into_iter().enumerate().rev().collect();
        reported.extend(collect_in_order(completions).unwrap());
    }
    assert_eq!(reported, vec![0, 1, 2, 3, 4]);
}
