use commit_filter::engine::{shorten_messages, AsyncCommitFilterer, FilterAction, FilterStatus, SLICE_SIZE};
use commit_filter::flags::FilterBy;
use commit_filter::matching::CommitInfo;

fn commit(id: &str, message: &str) -> CommitInfo {
    CommitInfo {
        id: id.to_string(),
        short_id: id.to_string(),
        author: "someone".to_string(),
        message: message.to_string(),
        time: 1,
    }
}

fn expr(p: &str) -> Vec<Vec<(String, FilterBy)>> {
    vec![vec![(p.to_string(), FilterBy::try_from_char('m').unwrap())]]
}

#[test]
fn new_filterer_is_idle() {
    let f = AsyncCommitFilterer::new();
    assert!(!f.is_pending());
    assert_eq!(f.count(), 0);
    assert!(f.fetch() == FilterStatus::Filtering);
}

#[test]
fn empty_complete_log_finishes_at_once() {
    let mut f = AsyncCommitFilterer::new();
    let gen = f.start_filter(expr("x"), Ok(None)).unwrap().generation();
    assert!(f.is_pending());
    assert_eq!(f.poll(gen), Some(0));
    assert_eq!(f.on_records(gen, vec![], false), FilterAction::Exit);
    assert!(f.fetch() == FilterStatus::Finished);
    assert!(!f.is_pending());
    assert_eq!(f.count(), 0);
    assert_eq!(f.poll(gen), None);
}

#[test]
fn empty_batch_while_log_pending_continues() {
    let mut f = AsyncCommitFilterer::new();
    let gen = f.start_filter(expr("x"), Ok(None)).unwrap().generation();
    assert_eq!(f.on_records(gen, vec![], true), FilterAction::Continue);
    assert_eq!(f.poll(gen), Some(SLICE_SIZE));
    assert!(f.is_pending());
}

#[test]
fn batches_accumulate_in_order() {
    let mut f = AsyncCommitFilterer::new();
    let gen = f.start_filter(expr("fix"), Ok(None)).unwrap().generation();
    let b1 = vec![commit("1", "fix a"), commit("2", "other")];
    let b2 = vec![commit("3", "Fix b")];
    assert_eq!(f.on_records(gen, b1, true), FilterAction::Continue);
    assert_eq!(f.on_records(gen, b2, false), FilterAction::Continue);
    assert_eq!(f.poll(gen), Some(2 * SLICE_SIZE));
    assert_eq!(f.on_records(gen, vec![], false), FilterAction::Exit);
    assert_eq!(f.count(), 2);
    let items = f.get_filter_items(0, 10, 100);
    let ids: Vec<String> = items.iter().map(|c| c.id.clone()).collect();
    assert_eq!(ids, vec!["1".to_string(), "3".to_string()]);
}

#[test]
fn superseded_run_writes_are_dropped() {
    let mut f = AsyncCommitFilterer::new();
    let g1 = f.start_filter(expr("a"), Ok(None)).unwrap().generation();
    assert_eq!(f.on_records(g1, vec![commit("1", "a one")], true), FilterAction::Continue);
    let g2 = f.start_filter(expr("b"), Ok(None)).unwrap().generation();
    assert_ne!(g1, g2);
    assert_eq!(f.count(), 0);
    // the old worker hands in late, and is told to leave
    assert_eq!(f.on_records(g1, vec![commit("2", "a b two")], true), FilterAction::Exit);
    assert_eq!(f.poll(g1), None);
    assert_eq!(f.on_fetch_failed(g1), FilterAction::Exit);
    assert_eq!(f.on_records(g2, vec![commit("3", "b three"), commit("4", "a four")], true), FilterAction::Continue);
    assert_eq!(f.on_records(g2, vec![], false), FilterAction::Exit);
    let items = f.get_filter_items(0, 10, 100);
    let ids: Vec<String> = items.iter().map(|c| c.id.clone()).collect();
    assert_eq!(ids, vec!["3".to_string()]);
}

#[test]
fn stop_marks_finished_and_ignores_worker() {
    let mut f = AsyncCommitFilterer::new();
    let gen = f.start_filter(expr("a"), Ok(None)).unwrap().generation();
    assert_eq!(f.on_records(gen, vec![commit("1", "a")], true), FilterAction::Continue);
    f.stop_filter();
    assert!(!f.is_pending());
    assert!(f.fetch() == FilterStatus::Finished);
    assert_eq!(f.on_records(gen, vec![commit("2", "a")], true), FilterAction::Exit);
    assert_eq!(f.count(), 1);
}

#[test]
fn finished_count_is_stable() {
    let mut f = AsyncCommitFilterer::new();
    let gen = f.start_filter(expr("a"), Ok(None)).unwrap().generation();
    f.on_records(gen, vec![commit("1", "a"), commit("2", "a")], true);
    f.on_records(gen, vec![], false);
    assert_eq!(f.count(), 2);
    assert_eq!(f.get_filter_items(0, 100, 100).len(), 2);
    assert_eq!(f.on_records(gen, vec![commit("3", "a")], true), FilterAction::Exit);
    f.stop_filter();
    assert!(f.fetch() == FilterStatus::Finished);
    assert_eq!(f.count(), 2);
}

#[test]
fn failed_fetch_retries_current_run() {
    let mut f = AsyncCommitFilterer::new();
    let gen = f.start_filter(expr("a"), Ok(None)).unwrap().generation();
    assert_eq!(f.on_fetch_failed(gen), FilterAction::Retry);
    assert_eq!(f.poll(gen), Some(0));
}

#[test]
fn tag_error_stops_and_reports() {
    let mut f = AsyncCommitFilterer::new();
    let gen = f.start_filter(expr("a"), Ok(None)).unwrap().generation();
    let r = f.start_filter(expr("b"), Err("no tags".to_string()));
    assert_eq!(r.err(), Some("no tags".to_string()));
    assert!(!f.is_pending());
    assert!(f.fetch() == FilterStatus::Finished);
    assert_eq!(f.poll(gen), None);
}

#[test]
fn get_filter_items_clamps_window() {
    let mut f = AsyncCommitFilterer::new();
    let gen = f.start_filter(expr("m"), Ok(None)).unwrap().generation();
    let batch: Vec<CommitInfo> = (0..5).map(|i| commit(&i.to_string(), "m")).collect();
    f.on_records(gen, batch, false);
    assert_eq!(f.get_filter_items(3, 10, 10).len(), 2);
    assert_eq!(f.get_filter_items(7, 10, 10).len(), 0);
    assert_eq!(f.get_filter_items(1, 2, 10)[0].id, "1");
    assert_eq!(f.get_filter_items(1, usize::MAX, 10).len(), 4);
}

#[test]
fn truncation_keeps_whole_characters() {
    let mut f = AsyncCommitFilterer::new();
    let gen = f.start_filter(expr("l"), Ok(None)).unwrap().generation();
    f.on_records(gen, vec![commit("1", "héllo wörld"), commit("2", "he\u{301}llo wo\u{308}rld")], false);
    let items = f.get_filter_items(0, 2, 5);
    assert_eq!(items[0].message, "héllo");
    assert_eq!(items[1].message, "he\u{301}llo");
    assert_eq!(items[0].id, "1");
    assert_eq!(items[0].author, "someone");
}

#[test]
fn worker_filters_batches_outside_the_filterer() {
    let mut f = AsyncCommitFilterer::new();
    let run1 = f.start_filter(expr("a"), Ok(None)).unwrap();
    let run2 = f.start_filter(expr("b"), Ok(None)).unwrap();
    let stale = run1.filter_batch(vec![commit("1", "a b")]);
    assert_eq!(f.on_batch(stale, true), FilterAction::Exit);
    let batch = run2.filter_batch(vec![commit("2", "b"), commit("3", "c"), commit("4", "bb")]);
    assert_eq!(f.on_batch(batch, true), FilterAction::Continue);
    assert_eq!(f.poll(run2.generation()), Some(SLICE_SIZE));
    assert_eq!(f.on_batch(run2.filter_batch(vec![]), false), FilterAction::Exit);
    assert!(f.fetch() == FilterStatus::Finished);
    let ids: Vec<String> = f.copy_filter_items(0, 10).iter().map(|c| c.id.clone()).collect();
    assert_eq!(ids, vec!["2".to_string(), "4".to_string()]);
}

#[test]
fn copy_then_shorten_matches_get_filter_items() {
    let mut f = AsyncCommitFilterer::new();
    let gen = f.start_filter(expr("m"), Ok(None)).unwrap().generation();
    f.on_records(gen, vec![commit("1", "m one"), commit("2", "m two"), commit("3", "m three")], false);
    let copied = f.copy_filter_items(1, 5);
    assert_eq!(copied.len(), 2);
    assert_eq!(copied[0].message, "m two");
    let short = shorten_messages(copied, 3);
    assert_eq!(short[0].message, "m t");
    assert_eq!(short[1].message, "m t");
    assert_eq!(short[1].id, "3");
    assert_eq!(f.get_filter_items(1, 5, 3), short);
}
