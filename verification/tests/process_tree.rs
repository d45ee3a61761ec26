use gpmcp_layer::lifecycle::{
    direct_tree_kill_order, tree_termination_order, tree_termination_result,
};
use gpmcp_layer::termination::TerminationResult;
use gpmcp_layer::process_tree::{find_child_processes, ProcessEntry};

fn entry(pid: u32, parent: Option<u32>) -> ProcessEntry {
    ProcessEntry { pid, parent }
}

fn sample_table() -> Vec<ProcessEntry> {
    vec![
        entry(1, None),
        entry(2, Some(1)),
        entry(3, Some(1)),
        entry(4, Some(2)),
        entry(5, Some(4)),
        entry(6, Some(99)),
        entry(7, Some(3)),
    ]
}

#[test]
fn descendants_come_in_post_order() {
    let found = find_child_processes(&sample_table(), 1);
    assert_eq!(found, vec![5, 4, 2, 7, 3]);
}

#[test]
fn every_listed_process_comes_before_its_parent() {
    let table = sample_table();
    let found = find_child_processes(&table, 1);
    for (j, pid) in found.iter().enumerate() {
        let parent = table.iter().find(|e| e.pid == *pid).unwrap().parent.unwrap();
        assert!(parent == 1 || found[j + 1..].contains(&parent));
    }
}

#[test]
fn a_leaf_has_no_descendants() {
    assert!(find_child_processes(&sample_table(), 5).is_empty());
    assert!(find_child_processes(&Vec::new(), 1).is_empty());
}

#[test]
fn a_subtree_is_enumerated_alone() {
    assert_eq!(find_child_processes(&sample_table(), 2), vec![5, 4]);
}

#[test]
fn a_cycle_does_not_run_forever() {
    let table = vec![entry(10, Some(11)), entry(11, Some(10))];
    let found = find_child_processes(&table, 10);
    assert!(found.contains(&11));
}

#[test]
fn direct_tree_kill_skips_a_childless_root() {
    assert!(direct_tree_kill_order(&vec![], 1).is_empty());
    assert_eq!(direct_tree_kill_order(&vec![5, 4, 2], 1), vec![5, 4, 2, 1]);
}

#[test]
fn tree_terminator_always_ends_with_the_root() {
    assert_eq!(tree_termination_order(&vec![], 8), vec![8]);
    assert_eq!(tree_termination_order(&vec![3, 2], 8), vec![3, 2, 8]);
}

#[test]
fn tree_result_is_the_root_result() {
    let children = vec![
        TerminationResult::AccessDenied,
        TerminationResult::Failed("x".to_string()),
    ];
    assert!(matches!(
        tree_termination_result(&children, TerminationResult::Success),
        TerminationResult::Success
    ));
    assert!(matches!(
        tree_termination_result(&vec![TerminationResult::Success], TerminationResult::Timeout),
        TerminationResult::Timeout
    ));
}
