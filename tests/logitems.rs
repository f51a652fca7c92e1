use commit_filter::logitems::{ItemBatch, LogEntry};
use commit_filter::matching::CommitInfo;

fn commits(n: usize) -> Vec<CommitInfo> {
    (0..n)
        .map(|i| CommitInfo {
            id: format!("id{i}"),
            short_id: format!("s{i}"),
            author: format!("a{i}"),
            message: format!("m{i}"),
            time: i as i64,
        })
        .collect()
}

#[test]
fn log_entry_from_commit() {
    let c = commits(1).pop().unwrap();
    let e = LogEntry::from(c);
    assert_eq!(e.author, "a0");
    assert_eq!(e.msg, "m0");
    assert_eq!(e.hash_short, "s0");
    assert_eq!(e.id, "id0");
    assert_eq!(e.time, 0);
}

#[test]
fn set_items_replaces_window() {
    let mut b = ItemBatch::default();
    b.set_items(10, commits(3));
    assert_eq!(b.index_offset(), 10);
    assert_eq!(b.len(), 3);
    b.set_items(50, commits(2));
    assert_eq!(b.index_offset(), 50);
    let msgs: Vec<String> = b.iter().map(|e| e.msg.clone()).collect();
    assert_eq!(msgs, vec!["m0".to_string(), "m1".to_string()]);
}

#[test]
fn extend_keeps_offset() {
    let mut b = ItemBatch::default();
    b.set_items(5, commits(2));
    b.extend(commits(3));
    assert_eq!(b.index_offset(), 5);
    assert_eq!(b.len(), 5);
    b.clear();
    assert_eq!(b.len(), 0);
    assert_eq!(b.index_offset(), 5);
}

#[test]
fn needs_data_inside_window_is_false() {
    let mut b = ItemBatch::default();
    b.set_items(1000, commits(300));
    for idx in 1100..=1199 {
        assert!(!b.needs_data(idx, 100_000));
    }
}

#[test]
fn needs_data_at_edges_is_true() {
    let mut b = ItemBatch::default();
    b.set_items(1000, commits(300));
    assert!(b.needs_data(999, 100_000));
    assert!(b.needs_data(1300, 100_000));
    assert!(b.needs_data(1099, 100_000));
    assert!(b.needs_data(1200, 100_000));
}

#[test]
fn needs_data_clamps_to_max() {
    let mut b = ItemBatch::default();
    b.set_items(0, commits(150));
    // the window holds positions 0 to 149
    assert!(!b.needs_data(120, 140));
    assert!(!b.needs_data(120, 149));
    assert!(b.needs_data(120, 150));
    assert!(!b.needs_data(0, 140));
}

#[test]
fn needs_data_on_empty_batch() {
    let b = ItemBatch::default();
    assert!(b.needs_data(0, 0));
}
