use jolteon::queue::{Queue, Track};

fn track(path: &str, length_ms: u64) -> Track {
    Track::new(String::from(path), String::from(path), length_ms)
}

#[test]
fn total_time_follows_adds_and_removes() {
    let mut q = Queue::new();
    assert_eq!(q.total_time(), 0);
    assert!(q.add(track("a", 1000)));
    assert_eq!(q.total_time(), 1000);
    assert!(q.add(track("b", 2500)));
    assert_eq!(q.total_time(), 3500);
    assert!(q.add(track("c", 500)));
    assert_eq!(q.total_time(), 4000);
    q.select_next();
    q.remove_selected();
    assert_eq!(q.total_time(), 3000);
    q.remove_selected();
    assert_eq!(q.total_time(), 500);
    q.remove_selected();
    assert_eq!(q.total_time(), 0);
    assert_eq!(q.length(), 0);
}

#[test]
fn remove_selected_with_cursor_on_first_leaves_rest() {
    // Two tracks queued, cursor on the first: removing it leaves only the
    // second, and the total collapses to that track's length.
    let mut q = Queue::new();
    assert!(q.add(track("a", 180000)));
    assert!(q.add(track("b", 120000)));
    q.select_next();
    assert_eq!(q.selected, Some(0));
    q.remove_selected();
    assert_eq!(q.length(), 1);
    assert_eq!(q.paths(), vec![String::from("b")]);
    assert_eq!(q.total_time(), 120000);
}

#[test]
fn remove_selected_without_selection_is_a_noop() {
    let mut q = Queue::new();
    assert!(q.add(track("a", 1000)));
    q.remove_selected();
    assert_eq!(q.length(), 1);
    assert_eq!(q.total_time(), 1000);
}

#[test]
fn remove_selected_clamps_cursor_to_new_end() {
    let mut q = Queue::new();
    assert!(q.add(track("a", 1)));
    assert!(q.add(track("b", 2)));
    q.select_next();
    q.select_next();
    assert_eq!(q.selected, Some(1));
    q.remove_selected();
    assert_eq!(q.selected, Some(0));
    q.remove_selected();
    assert_eq!(q.selected, None);
}

#[test]
fn selection_saturates_at_bounds() {
    let mut q = Queue::new();
    assert!(q.add(track("a", 1)));
    assert!(q.add(track("b", 2)));
    assert!(q.add(track("c", 3)));
    assert_eq!(q.selected, None);
    q.select_next();
    assert_eq!(q.selected, Some(0));
    q.select_next();
    q.select_next();
    q.select_next();
    q.select_next();
    assert_eq!(q.selected, Some(2));
    q.select_previous();
    q.select_previous();
    q.select_previous();
    q.select_previous();
    assert_eq!(q.selected, Some(0));
}

#[test]
fn selection_stays_none_on_empty_queue() {
    let mut q = Queue::new();
    q.select_next();
    assert_eq!(q.selected, None);
    q.select_previous();
    assert_eq!(q.selected, None);
    q.select_next();
    q.select_next();
    assert_eq!(q.selected, None);
}

#[test]
fn select_none_clears_cursor_and_keeps_items() {
    let mut q = Queue::new();
    assert!(q.add(track("a", 1000)));
    q.select_next();
    assert_eq!(q.selected, Some(0));
    q.select_none();
    assert_eq!(q.selected, None);
    assert_eq!(q.length(), 1);
}

#[test]
fn selected_song_returns_item_under_cursor() {
    let mut q = Queue::new();
    assert!(q.add(track("a", 1000)));
    assert!(q.add(track("b", 2000)));
    assert!(q.selected_song().is_none());
    q.select_next();
    q.select_next();
    let s = q.selected_song().unwrap();
    assert_eq!(s.path, "b");
    assert_eq!(s.length_ms, 2000);
}

#[test]
fn add_refuses_a_total_that_overflows() {
    let mut q = Queue::new();
    assert!(q.add(track("a", u64::MAX)));
    assert!(!q.add(track("b", 1)));
    assert_eq!(q.length(), 1);
    assert_eq!(q.total_time(), u64::MAX);
}

#[test]
fn next_after_walks_the_queue_in_order() {
    let mut q = Queue::new();
    assert!(q.add(track("a", 1)));
    assert!(q.add(track("b", 2)));
    assert!(q.add(track("c", 3)));
    let after_a = q.next_after(&String::from("a")).unwrap();
    assert_eq!(after_a.path, "b");
    let after_b = q.next_after(&String::from("b")).unwrap();
    assert_eq!(after_b.path, "c");
    assert!(q.next_after(&String::from("c")).is_none());
}

#[test]
fn next_after_unqueued_track_hands_playback_to_the_front() {
    let mut q = Queue::new();
    assert!(q.add(track("a", 1)));
    assert!(q.add(track("b", 2)));
    let next = q.next_after(&String::from("elsewhere")).unwrap();
    assert_eq!(next.path, "a");
    let empty = Queue::new();
    assert!(empty.next_after(&String::from("elsewhere")).is_none());
}

#[test]
fn next_after_duplicate_paths_follows_the_first_occurrence() {
    let mut q = Queue::new();
    assert!(q.add(track("a", 1)));
    assert!(q.add(track("b", 2)));
    assert!(q.add(track("a", 1)));
    assert!(q.add(track("c", 3)));
    let next = q.next_after(&String::from("a")).unwrap();
    assert_eq!(next.path, "b");
}

#[test]
fn paths_projects_items_in_order() {
    let mut q = Queue::new();
    assert!(q.add(track("one", 1)));
    assert!(q.add(track("two", 2)));
    assert_eq!(q.paths(), vec![String::from("one"), String::from("two")]);
}
