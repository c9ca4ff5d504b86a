use videoconverter::display::ProgressDisplay;

#[test]
fn register_update_and_read_back() {
    let mut d = ProgressDisplay::new(3, 1);
    let h = d.register(String::from("a.mkv"), 10_000_000);
    assert_eq!(h, 0);
    assert_eq!(d.position_of(h), Some(0));
    d.update(h, 5_000_000);
    assert_eq!(d.position_of(h), Some(5_000_000));
}

#[test]
fn remove_is_idempotent() {
    let mut d = ProgressDisplay::new(2, 1);
    let h0 = d.register(String::from("a"), 100);
    let h1 = d.register(String::from("b"), 200);
    d.update(h1, 50);
    d.remove(h0);
    assert_eq!(d.position_of(h0), None);
    // removing again changes nothing and does not panic
    d.remove(h0);
    assert_eq!(d.position_of(h0), None);
    // the other entry is untouched
    assert_eq!(d.position_of(h1), Some(50));
    assert_eq!(d.live_entries(), 1);
}

#[test]
fn remove_of_never_registered_handle_is_harmless() {
    let mut d = ProgressDisplay::new(1, 2);
    let h = d.register(String::from("a"), 100);
    d.remove(17);
    d.remove(usize::MAX);
    assert_eq!(d.position_of(h), Some(0));
    assert_eq!(d.live_entries(), 1);
}

#[test]
fn update_of_dead_handle_is_harmless() {
    let mut d = ProgressDisplay::new(1, 2);
    let h = d.register(String::from("a"), 100);
    d.remove(h);
    d.update(h, 42);
    assert_eq!(d.position_of(h), None);
    d.update(9, 42);
    assert_eq!(d.live_entries(), 0);
}

#[test]
fn aggregate_suppressed_when_all_jobs_visible_at_once() {
    let d = ProgressDisplay::new(4, 4);
    assert!(!d.overall_is_shown());
    let d2 = ProgressDisplay::new(5, 4);
    assert!(d2.overall_is_shown());
    let d3 = ProgressDisplay::new(3, 4);
    assert!(d3.overall_is_shown());
}

#[test]
fn aggregate_ticks_once_per_completion() {
    let mut d = ProgressDisplay::new(3, 1);
    assert_eq!(d.overall_progress(), (0, 3));
    d.tick_overall();
    d.tick_overall();
    assert_eq!(d.overall_progress(), (2, 3));
}

#[test]
fn suppressed_aggregate_never_ticks() {
    let mut d = ProgressDisplay::new(2, 2);
    d.tick_overall();
    assert_eq!(d.overall_progress(), (0, 2));
}
