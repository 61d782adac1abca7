use vad_recorder::queue::PendingQueue;

fn names(list: &[&str]) -> Vec<String> {
    list.iter().map(|s| s.to_string()).collect()
}

#[test]
fn new_queue_is_empty() {
    let q = PendingQueue::new();
    assert_eq!(q.len(), 0);
    assert_eq!(q.snapshot(), Vec::<String>::new());
    assert!(!q.contains("a.raw"));
}

#[test]
fn append_keeps_insertion_order() {
    let mut q = PendingQueue::new();
    assert!(q.append("a.raw".to_string()));
    assert!(q.append("b.raw".to_string()));
    assert!(q.append("c.raw".to_string()));
    assert_eq!(q.snapshot(), names(&["a.raw", "b.raw", "c.raw"]));
    assert_eq!(q.len(), 3);
    assert!(q.contains("b.raw"));
    assert!(!q.contains("d.raw"));
}

#[test]
fn append_refuses_a_name_that_is_pending() {
    let mut q = PendingQueue::new();
    assert!(q.append("a.raw".to_string()));
    assert!(q.append("b.raw".to_string()));
    assert!(!q.append("a.raw".to_string()));
    assert_eq!(q.snapshot(), names(&["a.raw", "b.raw"]));
}

#[test]
fn snapshot_does_not_mutate() {
    let mut q = PendingQueue::new();
    q.append("a.raw".to_string());
    let first = q.snapshot();
    let second = q.snapshot();
    assert_eq!(first, second);
    assert_eq!(q.len(), 1);
}

#[test]
fn remove_prefix_removes_exactly_the_head() {
    let mut q = PendingQueue::new();
    for n in ["a", "b", "c", "d"] {
        q.append(n.to_string());
    }
    assert_eq!(q.remove_prefix(2), 2);
    assert_eq!(q.snapshot(), names(&["c", "d"]));
    assert_eq!(q.remove_prefix(0), 0);
    assert_eq!(q.snapshot(), names(&["c", "d"]));
}

#[test]
fn remove_prefix_beyond_the_length_removes_all() {
    let mut q = PendingQueue::new();
    q.append("a".to_string());
    q.append("b".to_string());
    assert_eq!(q.remove_prefix(5), 2);
    assert_eq!(q.len(), 0);
    assert_eq!(q.remove_prefix(1), 0);
}

#[test]
fn entries_appended_after_the_snapshot_survive_the_removal() {
    let mut q = PendingQueue::new();
    q.append("a".to_string());
    q.append("b".to_string());
    let snapshot = q.snapshot();
    q.append("c".to_string());
    q.append("d".to_string());
    assert_eq!(q.remove_prefix(snapshot.len()), 2);
    assert_eq!(q.snapshot(), names(&["c", "d"]));
}

#[test]
fn a_retired_name_can_be_appended_again() {
    let mut q = PendingQueue::new();
    q.append("a".to_string());
    q.remove_prefix(1);
    assert!(q.append("a".to_string()));
    assert_eq!(q.snapshot(), names(&["a"]));
}
